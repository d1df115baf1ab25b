use calling_storage::refresher::{Action, Event, IdentityFetcher, Phase};

fn fetcher(url: Option<&str>) -> IdentityFetcher {
    IdentityFetcher::new(
        30000,
        "/var/run/token".to_string(),
        "/var/run/token.bak".to_string(),
        url.map(|u| u.to_string()),
    )
}

fn is_plain_sleep(a: &Action, interval: u64) -> bool {
    matches!(a, Action::Sleep { ms, failure: None } if *ms == interval)
}

#[test]
fn start_sleeps_before_first_fetch() {
    let mut f = fetcher(Some("http://meta/token"));
    let a = f.start();
    assert!(is_plain_sleep(&a, 30000));
    assert!(matches!(f.phase, Phase::Sleeping));
}

#[test]
fn cycle_writes_body_then_renames() {
    let mut f = fetcher(Some("http://meta/token"));
    f.start();
    match f.step(Event::Woke) {
        Action::Fetch(u) => assert_eq!(u, "http://meta/token"),
        _ => panic!("expected a fetch"),
    }
    let body = b"eyJhbGciOi.token".to_vec();
    match f.step(Event::Fetched(body.clone())) {
        Action::WriteTemp { path, body: b } => {
            assert_eq!(path, "/var/run/token.bak");
            assert_eq!(b, body);
        }
        _ => panic!("expected a write"),
    }
    match f.step(Event::Written) {
        Action::Rename { from, to } => {
            assert_eq!(from, "/var/run/token.bak");
            assert_eq!(to, "/var/run/token");
        }
        _ => panic!("expected a rename"),
    }
    assert!(is_plain_sleep(&f.step(Event::Renamed), 30000));
    assert!(matches!(f.phase, Phase::Sleeping));
}

#[test]
fn no_url_means_no_fetch() {
    let mut f = fetcher(None);
    f.start();
    assert!(is_plain_sleep(&f.step(Event::Woke), 30000));
    assert!(is_plain_sleep(&f.step(Event::Woke), 30000));
}

#[test]
fn failure_is_reported_and_loop_continues() {
    for failing_phase in 0..3 {
        let mut f = fetcher(Some("http://meta/token"));
        f.start();
        f.step(Event::Woke);
        if failing_phase >= 1 {
            f.step(Event::Fetched(vec![1, 2, 3]));
        }
        if failing_phase >= 2 {
            f.step(Event::Written);
        }
        match f.step(Event::Failed("connection refused".to_string())) {
            Action::Sleep { ms, failure: Some(m) } => {
                assert_eq!(ms, 30000);
                assert_eq!(m, "connection refused");
            }
            _ => panic!("expected a reported failure"),
        }
        assert!(matches!(f.step(Event::Woke), Action::Fetch(_)));
    }
}

#[test]
fn cancel_stops_for_good() {
    let mut f = fetcher(Some("http://meta/token"));
    f.start();
    f.step(Event::Woke);
    assert!(matches!(f.step(Event::Cancelled), Action::Stop));
    assert!(matches!(f.phase, Phase::Stopped));
    assert!(matches!(f.step(Event::Woke), Action::Stop));
    assert!(matches!(f.start(), Action::Stop));
}

#[test]
fn accepted_events() {
    let mut f = fetcher(Some("http://meta/token"));
    assert!(f.accepts_event(&Event::Woke));
    assert!(!f.accepts_event(&Event::Written));
    assert!(!f.accepts_event(&Event::Failed("x".to_string())));
    assert!(f.accepts_event(&Event::Cancelled));
    f.step(Event::Woke);
    assert!(f.accepts_event(&Event::Fetched(vec![])));
    assert!(f.accepts_event(&Event::Failed("x".to_string())));
    assert!(!f.accepts_event(&Event::Woke));
}

use vstd::prelude::*;

verus! {

/// Where the refresher stands.
pub enum Phase {
    /// Waiting a full interval before the next fetch.
    Sleeping,
    /// Waiting for the token's body from the credential URL.
    Fetching,
    /// Waiting for the body to be written to the temporary file.
    Writing,
    /// Waiting for the temporary file to be renamed onto the token file.
    Renaming,
    /// Stopped for good.
    Stopped,
}

/// What happened since the last action.
pub enum Event {
    /// A full interval has passed.
    Woke,
    /// The credential URL answered with this body.
    Fetched(Vec<u8>),
    /// The temporary file was written.
    Written,
    /// The temporary file was renamed onto the token file.
    Renamed,
    /// The step under way failed, with this message.
    Failed(String),
    /// Shutdown was asked for.
    Cancelled,
}

/// What to do next.
pub enum Action {
    /// Report `failure`, if any, then wait `ms` milliseconds.
    Sleep { ms: u64, failure: Option<String> },
    /// GET the token from this URL and read the whole body.
    Fetch(String),
    /// Write `body` to the file at `path`, replacing what it held.
    WriteTemp { path: String, body: Vec<u8> },
    /// Rename the file at `from` onto `to`, in one step.
    Rename { from: String, to: String },
    /// Stop; work still in flight is abandoned.
    Stop,
}

/// Keeps the token file that the storage client authenticates with fresh: once
/// per interval, fetches the token from the credential URL, writes it beside the
/// token file and renames it over that file, so that a reader sees the old
/// token or the new one, whole. Without a URL nothing is fetched.
pub struct IdentityFetcher {
    pub fetch_interval_ms: u64,
    pub identity_token_path: String,
    pub temp_token_path: String,
    pub identity_token_url: Option<String>,
    pub phase: Phase,
}

/// Whether `e` can answer the action that led to `phase`.
pub open spec fn accepts(phase: Phase, e: Event) -> bool {
    match (phase, e) {
        (Phase::Stopped, _) => true,
        (_, Event::Cancelled) => true,
        (Phase::Sleeping, Event::Woke) => true,
        (Phase::Fetching, Event::Fetched(_)) => true,
        (Phase::Writing, Event::Written) => true,
        (Phase::Renaming, Event::Renamed) => true,
        (Phase::Fetching, Event::Failed(_)) => true,
        (Phase::Writing, Event::Failed(_)) => true,
        (Phase::Renaming, Event::Failed(_)) => true,
        _ => false,
    }
}

/// `n` holds the configuration of `f`.
pub open spec fn same_config(f: IdentityFetcher, n: IdentityFetcher) -> bool {
    &&& n.fetch_interval_ms == f.fetch_interval_ms
    &&& n.identity_token_path@ == f.identity_token_path@
    &&& n.temp_token_path@ == f.temp_token_path@
    &&& match (n.identity_token_url, f.identity_token_url) {
        (Some(a), Some(b)) => a@ == b@,
        (None, None) => true,
        _ => false,
    }
}

/// The action that waits a full interval, reporting nothing.
pub open spec fn plain_sleep(f: IdentityFetcher, a: Action) -> bool {
    a matches Action::Sleep { ms, failure } && ms == f.fetch_interval_ms && failure is None
}

/// One step of the refresher: from `f` on event `e` to `n`, doing `a`.
pub open spec fn step_post(f: IdentityFetcher, e: Event, n: IdentityFetcher, a: Action) -> bool {
    &&& same_config(f, n)
    &&& match (f.phase, e) {
        (Phase::Stopped, _) => n.phase is Stopped && a is Stop,
        (_, Event::Cancelled) => n.phase is Stopped && a is Stop,
        (Phase::Sleeping, Event::Woke) => match f.identity_token_url {
            None => n.phase is Sleeping && plain_sleep(f, a),
            Some(u) => {
                &&& n.phase is Fetching
                &&& (a matches Action::Fetch(v) && v@ == u@)
            },
        },
        (Phase::Fetching, Event::Fetched(b)) => {
            &&& n.phase is Writing
            &&& (a matches Action::WriteTemp { path, body } && path@ == f.temp_token_path@ && body@
                == b@)
        },
        (Phase::Writing, Event::Written) => {
            &&& n.phase is Renaming
            &&& (a matches Action::Rename { from, to } && from@ == f.temp_token_path@ && to@
                == f.identity_token_path@)
        },
        (Phase::Renaming, Event::Renamed) => n.phase is Sleeping && plain_sleep(f, a),
        (_, Event::Failed(m)) => {
            &&& n.phase is Sleeping
            &&& match a {
                Action::Sleep { ms, failure: Some(x) } => ms == f.fetch_interval_ms && x@ == m@,
                _ => false,
            }
        },
        _ => false,
    }
}

fn copy_url(u: &Option<String>) -> (r: Option<String>)
    ensures
        match (r, *u) {
            (Some(a), Some(b)) => a@ == b@,
            (None, None) => true,
            _ => false,
        },
{
    match u {
        Some(s) => Some(s.clone()),
        None => None,
    }
}

impl IdentityFetcher {
    /// A refresher that is waiting for its first interval to pass.
    pub fn new(
        fetch_interval_ms: u64,
        identity_token_path: String,
        temp_token_path: String,
        identity_token_url: Option<String>,
    ) -> (f: IdentityFetcher)
        ensures
            f.fetch_interval_ms == fetch_interval_ms,
            f.identity_token_path == identity_token_path,
            f.temp_token_path == temp_token_path,
            f.identity_token_url == identity_token_url,
            f.phase is Sleeping,
    {
        IdentityFetcher {
            fetch_interval_ms,
            identity_token_path,
            temp_token_path,
            identity_token_url,
            phase: Phase::Sleeping,
        }
    }

    /// Enters the running state: the first fetch comes only after a full
    /// interval. A stopped refresher stays stopped.
    pub fn start(&mut self) -> (a: Action)
        ensures
            same_config(*old(self), *final(self)),
            old(self).phase is Stopped ==> final(self).phase is Stopped && a is Stop,
            !(old(self).phase is Stopped) ==> final(self).phase is Sleeping && plain_sleep(
                *old(self),
                a,
            ),
    {
        match self.phase {
            Phase::Stopped => Action::Stop,
            _ => {
                self.phase = Phase::Sleeping;
                Action::Sleep { ms: self.fetch_interval_ms, failure: None }
            },
        }
    }

    /// Whether `e` can answer the action that led to the current phase.
    pub fn accepts_event(&self, e: &Event) -> (r: bool)
        ensures
            r == accepts(self.phase, *e),
    {
        match (&self.phase, e) {
            (Phase::Stopped, _) => true,
            (_, Event::Cancelled) => true,
            (Phase::Sleeping, Event::Woke) => true,
            (Phase::Fetching, Event::Fetched(_)) => true,
            (Phase::Writing, Event::Written) => true,
            (Phase::Renaming, Event::Renamed) => true,
            (Phase::Fetching, Event::Failed(_)) => true,
            (Phase::Writing, Event::Failed(_)) => true,
            (Phase::Renaming, Event::Failed(_)) => true,
            _ => false,
        }
    }

    /// Moves on from event `e` and returns the next action. A failed step is
    /// reported and the refresher goes back to sleep; the token file is then
    /// untouched.
    pub fn step(&mut self, e: Event) -> (a: Action)
        requires
            accepts(old(self).phase, e),
        ensures
            step_post(*old(self), e, *final(self), a),
    {
        match (&self.phase, e) {
            (Phase::Stopped, _) => Action::Stop,
            (_, Event::Cancelled) => {
                self.phase = Phase::Stopped;
                Action::Stop
            },
            (Phase::Sleeping, Event::Woke) => match copy_url(&self.identity_token_url) {
                None => Action::Sleep { ms: self.fetch_interval_ms, failure: None },
                Some(u) => {
                    self.phase = Phase::Fetching;
                    Action::Fetch(u)
                },
            },
            (Phase::Fetching, Event::Fetched(body)) => {
                self.phase = Phase::Writing;
                Action::WriteTemp { path: self.temp_token_path.clone(), body }
            },
            (Phase::Writing, Event::Written) => {
                self.phase = Phase::Renaming;
                Action::Rename {
                    from: self.temp_token_path.clone(),
                    to: self.identity_token_path.clone(),
                }
            },
            (Phase::Renaming, Event::Renamed) => {
                self.phase = Phase::Sleeping;
                Action::Sleep { ms: self.fetch_interval_ms, failure: None }
            },
            (_, Event::Failed(m)) => {
                self.phase = Phase::Sleeping;
                Action::Sleep { ms: self.fetch_interval_ms, failure: Some(m) }
            },
            (_, _) => Action::Stop,
        }
    }
}

/// One fetch-and-replace cycle with a configured URL: the token is fetched
/// from that URL, the body that came back is written verbatim to the
/// temporary file, that file is renamed onto the token file, and the refresher
/// sleeps a full interval again.
pub proof fn lemma_cycle_replaces_token(
    f0: IdentityFetcher,
    body: Vec<u8>,
    f1: IdentityFetcher,
    a1: Action,
    f2: IdentityFetcher,
    a2: Action,
    f3: IdentityFetcher,
    a3: Action,
    f4: IdentityFetcher,
    a4: Action,
)
    requires
        f0.phase is Sleeping,
        f0.identity_token_url is Some,
        step_post(f0, Event::Woke, f1, a1),
        step_post(f1, Event::Fetched(body), f2, a2),
        step_post(f2, Event::Written, f3, a3),
        step_post(f3, Event::Renamed, f4, a4),
    ensures
        a1 matches Action::Fetch(u) && u@ == f0.identity_token_url->Some_0@,
        a2 matches Action::WriteTemp { path, body: b } && path@ == f0.temp_token_path@ && b@
            == body@,
        a3 matches Action::Rename { from, to } && from@ == f0.temp_token_path@ && to@
            == f0.identity_token_path@,
        plain_sleep(f0, a4),
        f4.phase is Sleeping,
        same_config(f0, f4),
{
}

/// The only action that touches the token file is the rename onto it: every
/// write goes to the temporary file.
pub proof fn lemma_writes_only_to_temp(f: IdentityFetcher, e: Event, n: IdentityFetcher, a: Action)
    requires
        step_post(f, e, n, a),
    ensures
        a matches Action::WriteTemp { path, body } ==> path@ == f.temp_token_path@,
{
}

/// Once stopped, a refresher stays stopped whatever happens next.
pub proof fn lemma_stopped_stays_stopped(
    f: IdentityFetcher,
    e: Event,
    n: IdentityFetcher,
    a: Action,
)
    requires
        f.phase is Stopped,
        step_post(f, e, n, a),
    ensures
        n.phase is Stopped,
        a is Stop,
{
}

} // verus!

use vstd::prelude::*;

use crate::record::CallRecordView;

verus! {

/// The stored records, keyed by group id: at most one record per group.
pub type Table = Map<Seq<char>, CallRecordView>;

/// Every record is stored under its own group id.
pub open spec fn table_wf(t: Table) -> bool {
    forall|g: Seq<char>| #[trigger] t.contains_key(g) ==> t[g].group_id == g
}

/// A consistent point lookup.
pub open spec fn table_get(t: Table, group_id: Seq<char>) -> Option<CallRecordView> {
    if t.contains_key(group_id) {
        Some(t[group_id])
    } else {
        None
    }
}

/// The table after a create-if-absent of `r`.
pub open spec fn table_get_or_add(t: Table, r: CallRecordView) -> Table {
    if t.contains_key(r.group_id) {
        t
    } else {
        t.insert(r.group_id, r)
    }
}

/// What a create-if-absent of `r` returns: the record that the group holds
/// afterwards, which is the one already there if there was one.
pub open spec fn get_or_add_result(t: Table, r: CallRecordView) -> CallRecordView {
    if t.contains_key(r.group_id) {
        t[r.group_id]
    } else {
        r
    }
}

/// The table after a remove of the group's record, made only where the stored
/// record's call id is `call_id`.
pub open spec fn table_remove(t: Table, group_id: Seq<char>, call_id: Seq<char>) -> Table {
    if t.contains_key(group_id) && t[group_id].call_id == call_id {
        t.remove(group_id)
    } else {
        t
    }
}

/// The stored records whose backend region is `region`.
pub open spec fn table_region(t: Table, region: Seq<char>) -> Set<CallRecordView> {
    t.values().filter(|r: CallRecordView| r.backend_region == region)
}

/// Each operation keeps every record under its own group id.
pub proof fn lemma_operations_keep_wf(t: Table, r: CallRecordView, g: Seq<char>, c: Seq<char>)
    requires
        table_wf(t),
    ensures
        table_wf(table_get_or_add(t, r)),
        table_wf(table_remove(t, g, c)),
{
}

/// Callers that race to create a call for one group all get the record of the
/// first create, whatever they offered, and a lookup afterwards returns it too.
pub proof fn lemma_racing_creates_agree(t: Table, first: CallRecordView, second: CallRecordView)
    requires
        first.group_id == second.group_id,
    ensures
        ({
            let winner = get_or_add_result(t, first);
            let t1 = table_get_or_add(t, first);
            &&& get_or_add_result(t1, second) == winner
            &&& table_get_or_add(t1, second) == t1
            &&& table_get(t1, first.group_id) == Some(winner)
        }),
{
}

/// After a remove with the call id that the group's record holds (or with the
/// group absent), a lookup finds nothing.
pub proof fn lemma_remove_then_get(t: Table, g: Seq<char>, c: Seq<char>)
    requires
        !t.contains_key(g) || t[g].call_id == c,
    ensures
        table_get(table_remove(t, g, c), g) is None,
{
}

/// A remove with a stale call id leaves the table as it was, and a lookup
/// still returns the stored record.
pub proof fn lemma_stale_remove_keeps_record(t: Table, g: Seq<char>, stale: Seq<char>)
    requires
        t.contains_key(g),
        t[g].call_id != stale,
    ensures
        table_remove(t, g, stale) == t,
        table_get(table_remove(t, g, stale), g) == Some(t[g]),
{
}

/// A record created in an empty group is read back equal on every field.
pub proof fn lemma_create_then_get(t: Table, r: CallRecordView)
    requires
        !t.contains_key(r.group_id),
    ensures
        get_or_add_result(t, r) == r,
        table_get(table_get_or_add(t, r), r.group_id) == Some(r),
{
}

/// A record belongs to a region's listing exactly when it is stored under its
/// group and its backend region is that region.
pub proof fn lemma_region_members(t: Table, region: Seq<char>, r: CallRecordView)
    requires
        table_wf(t),
    ensures
        table_region(t, region).contains(r) <==> (table_get(t, r.group_id) == Some(r)
            && r.backend_region == region),
{
    if table_region(t, region).contains(r) {
        let g = choose|g: Seq<char>| #[trigger] t.contains_key(g) && t[g] == r;
        assert(t.contains_key(g) && t[g] == r);
    }
    if table_get(t, r.group_id) == Some(r) && r.backend_region == region {
        assert(t.contains_key(r.group_id) && t[r.group_id] == r);
        assert(t.values().contains(r));
    }
}

} // verus!

use vstd::prelude::*;

use crate::record::{opt_view, CallRecord, CallRecordView, StorageError};
use crate::table::{
    get_or_add_result, lemma_region_members, table_get, table_get_or_add, table_region,
    table_remove, table_wf, Table,
};

verus! {

/// A store held in memory: the stand-in for the backing service where none is
/// wanted, with the same create-if-absent and remove-if-unchanged semantics.
pub struct MemoryStore {
    records: Vec<CallRecord>,
    table: Ghost<Table>,
}

impl View for MemoryStore {
    type V = Table;

    closed spec fn view(&self) -> Table {
        self.table@
    }
}

/// The views of a sequence of records.
pub open spec fn views(s: Seq<CallRecord>) -> Seq<CallRecordView> {
    s.map_values(|c: CallRecord| c@)
}

impl MemoryStore {
    /// The records are held once each, with distinct group ids, and the table
    /// maps each group id to its record.
    pub closed spec fn wf(&self) -> bool {
        &&& table_wf(self.table@)
        &&& forall|i: int, j: int|
            0 <= i < j < self.records@.len() ==> #[trigger] self.records@[i]@.group_id
                != #[trigger] self.records@[j]@.group_id
        &&& forall|i: int|
            0 <= i < self.records@.len() ==> self.table@.contains_key(
                #[trigger] self.records@[i]@.group_id,
            ) && self.table@[self.records@[i]@.group_id] == self.records@[i]@
        &&& forall|g: Seq<char>| #[trigger]
            self.table@.contains_key(g) ==> exists|i: int|
                0 <= i < self.records@.len() && #[trigger] self.records@[i]@.group_id == g
    }

    /// A store that holds no record.
    pub fn new() -> (s: MemoryStore)
        ensures
            s.wf(),
            s@ == Map::<Seq<char>, CallRecordView>::empty(),
    {
        MemoryStore { records: Vec::new(), table: Ghost(Map::empty()) }
    }

    /// The table that a well-formed store holds is keyed by group id.
    pub proof fn lemma_wf_table(&self)
        requires
            self.wf(),
        ensures
            table_wf(self@),
    {
    }

    /// The position of the group's record.
    fn find(&self, group_id: &String) -> (r: Option<usize>)
        requires
            self.wf(),
        ensures
            match r {
                Some(i) => i < self.records@.len() && self.records@[i as int]@.group_id
                    == group_id@,
                None => !self@.contains_key(group_id@),
            },
    {
        let mut i: usize = 0;
        while i < self.records.len()
            invariant
                self.wf(),
                i <= self.records@.len(),
                forall|j: int| 0 <= j < i ==> self.records@[j]@.group_id != group_id@,
            decreases self.records.len() - i,
        {
            if self.records[i].group_id == *group_id {
                return Some(i);
            }
            i = i + 1;
        }
        None
    }

    /// Looks up the group's record.
    pub fn get_call_record(&self, group_id: &String) -> (r: Result<
        Option<CallRecord>,
        StorageError,
    >)
        requires
            self.wf(),
        ensures
            match r {
                Ok(o) => opt_view(o) == table_get(self@, group_id@),
                Err(_) => false,
            },
    {
        match self.find(group_id) {
            Some(i) => Ok(Some(self.records[i].copy())),
            None => Ok(None),
        }
    }

    /// Stores `call` if its group holds no record, and returns the record that
    /// the group holds afterwards.
    pub fn get_or_add_call_record(&mut self, call: CallRecord) -> (r: Result<
        Option<CallRecord>,
        StorageError,
    >)
        requires
            old(self).wf(),
        ensures
            final(self).wf(),
            final(self)@ == table_get_or_add(old(self)@, call@),
            match r {
                Ok(Some(c)) => c@ == get_or_add_result(old(self)@, call@),
                _ => false,
            },
    {
        match self.find(&call.group_id) {
            Some(i) => Ok(Some(self.records[i].copy())),
            None => {
                let ghost old_records = self.records@;
                let result = call.copy();
                self.records.push(call);
                self.table = Ghost(self.table@.insert(result@.group_id, result@));
                assert forall|g: Seq<char>| #[trigger] self.table@.contains_key(g) implies exists|
                    i: int,
                |
                    0 <= i < self.records@.len() && #[trigger] self.records@[i]@.group_id
                        == g by {
                    if g != result@.group_id {
                        let i = choose|i: int|
                            0 <= i < old_records.len() && #[trigger] old_records[i]@.group_id
                                == g;
                        assert(self.records@[i] == old_records[i]);
                    } else {
                        assert(self.records@[old_records.len() as int]@.group_id == g);
                    }
                }
                Ok(Some(result))
            },
        }
    }

    /// Removes the group's record where its call id is `call_id`; otherwise
    /// (no record, or a newer call) leaves the store as it is. Neither case is
    /// a failure.
    pub fn remove_call_record(&mut self, group_id: &String, call_id: &str) -> (r: Result<
        (),
        StorageError,
    >)
        requires
            old(self).wf(),
        ensures
            final(self).wf(),
            final(self)@ == table_remove(old(self)@, group_id@, call_id@),
            r is Ok,
    {
        let expected = call_id.to_owned();
        match self.find(group_id) {
            Some(i) => {
                if self.records[i].call_id == expected {
                    let ghost old_records = self.records@;
                    let ghost old_table = self.table@;
                    let _removed = self.records.remove(i);
                    self.table = Ghost(self.table@.remove(group_id@));
                    assert forall|g: Seq<char>| #[trigger]
                        self.table@.contains_key(g) implies exists|j: int|
                        0 <= j < self.records@.len() && #[trigger] self.records@[j]@.group_id
                            == g by {
                        let j = choose|j: int|
                            0 <= j < old_records.len() && #[trigger] old_records[j]@.group_id
                                == g;
                        assert(j != i);
                        if j < i {
                            assert(self.records@[j] == old_records[j]);
                        } else {
                            assert(self.records@[j - 1] == old_records[j]);
                        }
                    }
                    assert forall|a: int, b: int|
                        0 <= a < b < self.records@.len() implies #[trigger] self.records@[a]@.group_id
                        != #[trigger] self.records@[b]@.group_id by {
                        let oa = if a < i { a } else { a + 1 };
                        let ob = if b < i { b } else { b + 1 };
                        assert(self.records@[a] == old_records[oa]);
                        assert(self.records@[b] == old_records[ob]);
                    }
                    assert forall|a: int| 0 <= a < self.records@.len() implies self.table@.contains_key(
                        #[trigger] self.records@[a]@.group_id,
                    ) && self.table@[self.records@[a]@.group_id] == self.records@[a]@ by {
                        let oa = if a < i { a } else { a + 1 };
                        assert(self.records@[a] == old_records[oa]);
                        assert(old_records[oa]@.group_id != old_records[i as int]@.group_id);
                    }
                }
                Ok(())
            },
            None => Ok(()),
        }
    }

    /// Lists the records whose backend region is `region`, each once.
    pub fn get_call_records_for_region(&self, region: &str) -> (r: Result<
        Vec<CallRecord>,
        StorageError,
    >)
        requires
            self.wf(),
        ensures
            match r {
                Ok(v) => views(v@).to_set() == table_region(self@, region@) && views(
                    v@,
                ).no_duplicates(),
                Err(_) => false,
            },
    {
        let wanted = region.to_owned();
        let mut out: Vec<CallRecord> = Vec::new();
        let ghost mut idx: Seq<int> = Seq::empty();
        let mut i: usize = 0;
        while i < self.records.len()
            invariant
                self.wf(),
                wanted@ == region@,
                i <= self.records@.len(),
                idx.len() == out@.len(),
                forall|k: int|
                    0 <= k < idx.len() ==> 0 <= #[trigger] idx[k] < i && out@[k]@
                        == self.records@[idx[k]]@ && self.records@[idx[k]]@.backend_region
                        == region@,
                forall|k1: int, k2: int| 0 <= k1 < k2 < idx.len() ==> idx[k1] < idx[k2],
                forall|j: int|
                    0 <= j < i && (#[trigger] self.records@[j])@.backend_region == region@
                        ==> exists|k: int| 0 <= k < idx.len() && idx[k] == j,
            decreases self.records.len() - i,
        {
            if self.records[i].backend_region == wanted {
                out.push(self.records[i].copy());
                proof {
                    let old_idx = idx;
                    idx = idx.push(i as int);
                    assert forall|j: int|
                        0 <= j < i + 1 && (#[trigger] self.records@[j])@.backend_region
                            == region@ implies exists|k: int|
                        0 <= k < idx.len() && idx[k] == j by {
                        if j == i {
                            assert(idx[idx.len() - 1] == j);
                        } else {
                            assert(self.records@[j]@.backend_region == region@);
                            let k = choose|k: int| 0 <= k < old_idx.len() && old_idx[k] == j;
                            assert(idx[k] == j);
                        }
                    }
                }
            }
            i = i + 1;
        }
        proof {
            let vs = views(out@);
            let t = self@;
            assert forall|x: CallRecordView| vs.to_set().contains(x) <==> table_region(
                t,
                region@,
            ).contains(x) by {
                lemma_region_members(t, region@, x);
                if vs.to_set().contains(x) {
                    let k = choose|k: int| 0 <= k < vs.len() && vs[k] == x;
                    assert(out@[k]@ == self.records@[idx[k]]@);
                }
                if table_region(t, region@).contains(x) {
                    let j = choose|j: int|
                        0 <= j < self.records@.len() && #[trigger] self.records@[j]@.group_id
                            == x.group_id;
                    assert(self.records@[j]@ == x);
                    let k = choose|k: int| 0 <= k < idx.len() && idx[k] == j;
                    assert(vs[k] == x);
                }
            }
            assert(vs.to_set() =~= table_region(t, region@));
            assert forall|a: int, b: int| 0 <= a < vs.len() && 0 <= b < vs.len() && a != b implies vs[a]
                != vs[b] by {
                if a < b {
                    assert(self.records@[idx[a]]@.group_id != self.records@[idx[b]]@.group_id);
                } else {
                    assert(self.records@[idx[b]]@.group_id != self.records@[idx[a]]@.group_id);
                }
            }
        }
        Ok(out)
    }
}

} // verus!

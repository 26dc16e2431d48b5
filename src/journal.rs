//! The metadata journal: the ordered, flat collection of asset records.
use crate::record::{AssetRecord, RecordView};
use vstd::prelude::*;

verus! {

/// The records of `js` whose file is not `name`, in their order.
pub open spec fn without_file(js: Seq<RecordView>, name: Seq<char>) -> Seq<RecordView>
    decreases js.len(),
{
    if js.len() == 0 {
        js
    } else {
        let rest = without_file(js.drop_last(), name);
        if js.last().file == name {
            rest
        } else {
            rest.push(js.last())
        }
    }
}

/// Whether some record of `js` is for the file `name`.
pub open spec fn has_file(js: Seq<RecordView>, name: Seq<char>) -> bool {
    exists|i: int| 0 <= i < js.len() && (#[trigger] js[i]).file == name
}

/// How many records of `js` are for the file `name`.
pub open spec fn count_file(js: Seq<RecordView>, name: Seq<char>) -> nat
    decreases js.len(),
{
    if js.len() == 0 {
        0
    } else {
        count_file(js.drop_last(), name) + if js.last().file == name {
            1nat
        } else {
            0nat
        }
    }
}

pub open spec fn views_of(v: Seq<AssetRecord>) -> Seq<RecordView> {
    v.map_values(|r: AssetRecord| r@)
}

/// The journal in memory; insertion order is kept and nothing is deduplicated.
pub struct Journal {
    records: Vec<AssetRecord>,
}

impl View for Journal {
    type V = Seq<RecordView>;

    closed spec fn view(&self) -> Seq<RecordView> {
        views_of(self.records@)
    }
}

impl Journal {
    /// The journal of a store that holds nothing yet.
    pub fn new() -> (r: Journal)
        ensures
            r@ == Seq::<RecordView>::empty(),
    {
        let r = Journal { records: Vec::new() };
        assert(r@ =~= Seq::<RecordView>::empty());
        r
    }

    /// The journal that holds `records`, in that order.
    pub fn from_records(records: Vec<AssetRecord>) -> (r: Journal)
        ensures
            r@ == views_of(records@),
    {
        Journal { records }
    }

    pub fn len(&self) -> (r: usize)
        ensures
            r == self@.len(),
    {
        self.records.len()
    }

    /// The records in insertion order, as the listing shows them.
    pub fn records(&self) -> (r: &Vec<AssetRecord>)
        ensures
            views_of(r@) == self@,
    {
        &self.records
    }

    pub fn into_records(self) -> (r: Vec<AssetRecord>)
        ensures
            views_of(r@) == self@,
    {
        self.records
    }

    /// Adds `record` at the end.
    pub fn append(&mut self, record: AssetRecord)
        ensures
            final(self)@ == old(self)@.push(record@),
    {
        self.records.push(record);
        assert(views_of(self.records@) =~= views_of(old(self).records@).push(record@));
    }

    /// Whether some record is for the file `name`.
    pub fn contains_file(&self, name: &String) -> (r: bool)
        ensures
            r == has_file(self@, name@),
    {
        let mut i: usize = 0;
        while i < self.records.len()
            invariant
                i <= self.records.len(),
                forall|k: int| 0 <= k < i ==> (#[trigger] self@[k]).file != name@,
            decreases self.records.len() - i,
        {
            if self.records[i].file == *name {
                assert(self@[i as int].file == name@);
                return true;
            }
            i = i + 1;
        }
        false
    }

    /// Drops every record for the file `name`, keeps the others in order, and
    /// tells how many were dropped.
    pub fn remove_file(&mut self, name: &String) -> (removed: usize)
        ensures
            final(self)@ == without_file(old(self)@, name@),
            removed == count_file(old(self)@, name@),
    {
        let ghost before = self@;
        let mut kept: Vec<AssetRecord> = Vec::new();
        let mut removed: usize = 0;
        let mut i: usize = 0;
        let n = self.records.len();
        proof {
            lemma_without_file_len(before, name@);
        }
        while i < n
            invariant
                n == self.records.len(),
                i <= n,
                self@ == before,
                views_of(kept@) == without_file(before.take(i as int), name@),
                removed == count_file(before.take(i as int), name@),
                removed + kept@.len() == i,
            decreases n - i,
        {
            let ghost pre = before.take(i as int);
            assert(before.take(i + 1).drop_last() =~= pre);
            assert(before.take(i + 1).last() == before[i as int]);
            proof {
                lemma_without_file_len(pre, name@);
            }
            if self.records[i].file == *name {
                removed = removed + 1;
            } else {
                let r = self.records[i].duplicate();
                kept.push(r);
                assert(views_of(kept@) =~= without_file(pre, name@).push(before[i as int]));
            }
            i = i + 1;
        }
        assert(before.take(n as int) =~= before);
        self.records = kept;
        removed
    }
}

proof fn lemma_without_file_len(js: Seq<RecordView>, name: Seq<char>)
    ensures
        without_file(js, name).len() + count_file(js, name) == js.len(),
    decreases js.len(),
{
    if js.len() > 0 {
        lemma_without_file_len(js.drop_last(), name);
    }
}

} // verus!

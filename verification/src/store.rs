use crate::types::{ActionHash, EntryTypes, EntryTypesView};
use vstd::prelude::*;

verus! {

/// One write-once record: a domain payload plus, for an update revision,
/// the hash of the head revision it was appended to.  A creation record
/// has no predecessor.
pub struct RevisionRecord {
    pub content: EntryTypes,
    pub prev: Option<ActionHash>,
}

#[verifier::ext_equal]
pub struct RevisionRecordView {
    pub content: EntryTypesView,
    pub prev: Option<ActionHash>,
}

impl View for RevisionRecord {
    type V = RevisionRecordView;

    open spec fn view(&self) -> RevisionRecordView {
        RevisionRecordView { content: self.content@, prev: self.prev }
    }
}

impl Clone for RevisionRecord {
    fn clone(&self) -> (r: Self)
        ensures
            r@ == self@,
    {
        let r = RevisionRecord { content: self.content.clone(), prev: self.prev };
        proof {
            assert(r@ =~= self@);
        }
        r
    }
}

/// Content-addressed, write-once storage.  Every `put` yields a fresh
/// stable hash; no record is ever mutated or removed.
pub struct ImmutableStore {
    records: Vec<RevisionRecord>,
}

impl View for ImmutableStore {
    type V = Seq<RevisionRecordView>;

    closed spec fn view(&self) -> Seq<RevisionRecordView> {
        self.records@.map_values(|r: RevisionRecord| r@)
    }
}

impl ImmutableStore {
    pub fn new() -> (s: Self)
        ensures
            s@ == Seq::<RevisionRecordView>::empty(),
    {
        let s = ImmutableStore { records: Vec::new() };
        proof {
            assert(s@ =~= Seq::<RevisionRecordView>::empty());
        }
        s
    }

    pub fn len(&self) -> (r: usize)
        ensures
            r == self@.len(),
    {
        self.records.len()
    }

    /// Appends a record and returns its stable hash.
    pub fn put(&mut self, record: RevisionRecord) -> (h: ActionHash)
        ensures
            final(self)@ == old(self)@.push(record@),
            h == old(self)@.len(),
    {
        let h = self.records.len();
        self.records.push(record);
        proof {
            assert(self@ =~= old(self)@.push(record@));
        }
        h
    }

    /// Reads the record stored under `h`, if any.
    pub fn get(&self, h: ActionHash) -> (r: Option<&RevisionRecord>)
        ensures
            match r {
                Some(rec) => h < self@.len() && rec@ == self@[h as int],
                None => h >= self@.len(),
            },
    {
        if h < self.records.len() {
            Some(&self.records[h])
        } else {
            None
        }
    }
}

} // verus!

use crate::auth;
use crate::auth::is_editor;
use crate::errors::ErrorKinds;
use crate::store::{ImmutableStore, RevisionRecord, RevisionRecordView};
use crate::types::{ActionHash, AgentPubKey, EntityId, EntryTypes, EntryTypesView};
use vstd::prelude::*;

verus! {

/// A resolved entity: its stable id, the hash of the revision found to be
/// current, and that revision's content.
#[derive(Debug, PartialEq, Eq)]
pub struct Entity<T> {
    pub id: EntityId,
    pub action: ActionHash,
    pub content: T,
}

/// Input of a lookup: the stable id of the entity to resolve.
#[derive(Clone, Copy, Debug, PartialEq, Eq, Structural)]
pub struct GetEntityInput {
    pub id: EntityId,
}

/// Input of an update: the stable id of the entity and the properties
/// to apply to its current revision.
#[derive(Debug)]
pub struct UpdateEntityInput<T> {
    pub base: EntityId,
    pub properties: T,
}

/// Revision `h` belongs to the history of the entity created at `id`:
/// either it is the creation record itself, or its predecessor chain
/// reaches `id`.  Predecessors always carry smaller hashes than their
/// successors, so the walk terminates.
pub open spec fn in_chain(recs: Seq<RevisionRecordView>, id: EntityId, h: ActionHash) -> bool
    decreases h,
{
    if h >= recs.len() {
        false
    } else if h == id {
        true
    } else {
        match recs[h as int].prev {
            Some(p) => p < h && in_chain(recs, id, p),
            None => false,
        }
    }
}

/// `id` names a creation record: a stored revision with no predecessor.
pub open spec fn is_creation(recs: Seq<RevisionRecordView>, id: EntityId) -> bool {
    id < recs.len() && recs[id as int].prev is None
}

/// Some stored revision was appended on top of `h`.
pub open spec fn has_successor(recs: Seq<RevisionRecordView>, h: ActionHash) -> bool {
    exists|j: int| #![trigger recs[j].prev] 0 <= j < recs.len() && recs[j].prev == Some(h)
}

/// `h` is a head of the history of `id`: it belongs to the chain and
/// nothing was appended on top of it.  An unforked chain has one leaf;
/// concurrent updates of the same head leave several.
pub open spec fn is_leaf(recs: Seq<RevisionRecordView>, id: EntityId, h: ActionHash) -> bool {
    in_chain(recs, id, h) && !has_successor(recs, h)
}

/// The deterministic tie-break between two candidate head revisions:
/// the more recent `last_updated` wins, and on equal timestamps the
/// larger revision hash wins.
pub open spec fn revision_beats(recs: Seq<RevisionRecordView>, a: ActionHash, b: ActionHash) -> bool {
    let lu_a = recs[a as int].content.last_updated();
    let lu_b = recs[b as int].content.last_updated();
    lu_a > lu_b || (lu_a == lu_b && a >= b)
}

/// `h` is the current revision of `id`: a leaf that wins the tie-break
/// against every leaf of the chain.
pub open spec fn is_current(recs: Seq<RevisionRecordView>, id: EntityId, h: ActionHash) -> bool {
    is_leaf(recs, id, h) && forall|l: ActionHash| #[trigger]
        is_leaf(recs, id, l) ==> revision_beats(recs, h, l)
}

/// The chain of `id` has at most one head.
pub open spec fn unforked(recs: Seq<RevisionRecordView>, id: EntityId) -> bool {
    forall|l1: ActionHash, l2: ActionHash|
        #[trigger] is_leaf(recs, id, l1) && #[trigger] is_leaf(recs, id, l2) ==> l1 == l2
}

/// Well-formedness of the backing records: every update revision points
/// at an earlier record of the same entity kind.
pub open spec fn wf_records(recs: Seq<RevisionRecordView>) -> bool {
    forall|h: int| #![trigger recs[h].prev]
        0 <= h < recs.len() ==> match recs[h].prev {
            Some(p) => p < h && recs[p as int].content.kind() == recs[h].content.kind(),
            None => true,
        }
}

/// Appending a record whose predecessor, if any, is an existing record
/// of the same kind keeps the store well-formed.
pub proof fn lemma_wf_push(recs: Seq<RevisionRecordView>, r: RevisionRecordView)
    requires
        wf_records(recs),
        match r.prev {
            Some(p) => p < recs.len() && recs[p as int].content.kind() == r.content.kind(),
            None => true,
        },
    ensures
        wf_records(recs.push(r)),
{
    let pushed = recs.push(r);
    assert forall|h: int| 0 <= h < pushed.len() implies match #[trigger] pushed[h].prev {
        Some(p) => p < h && pushed[p as int].content.kind() == pushed[h].content.kind(),
        None => true,
    } by {
        if h < recs.len() {
            assert(pushed[h] == recs[h]);
            match recs[h].prev {
                Some(p) => {
                    assert(pushed[p as int] == recs[p as int]);
                },
                None => {},
            }
        } else {
            assert(pushed[h] == r);
            match r.prev {
                Some(p) => {
                    assert(pushed[p as int] == recs[p as int]);
                },
                None => {},
            }
        }
    }
}

/// A record untouched by a push keeps its chain membership.
pub proof fn lemma_in_chain_push(
    recs: Seq<RevisionRecordView>,
    r: RevisionRecordView,
    id: EntityId,
    h: ActionHash,
)
    requires
        h < recs.len(),
    ensures
        in_chain(recs.push(r), id, h) == in_chain(recs, id, h),
    decreases h,
{
    let pushed = recs.push(r);
    assert(pushed[h as int] == recs[h as int]);
    if h != id {
        match recs[h as int].prev {
            Some(p) => {
                if p < h {
                    lemma_in_chain_push(recs, r, id, p);
                }
            },
            None => {},
        }
    }
}

/// Every chain has at least one head.
pub proof fn lemma_chain_has_leaf(recs: Seq<RevisionRecordView>, id: EntityId, h: ActionHash)
    requires
        wf_records(recs),
        in_chain(recs, id, h),
        recs.len() <= usize::MAX,
    ensures
        exists|l: ActionHash| #[trigger] is_leaf(recs, id, l),
    decreases recs.len() - h,
{
    if has_successor(recs, h) {
        let j = choose|j: int| #![trigger recs[j].prev] 0 <= j < recs.len() && recs[j].prev
            == Some(h);
        assert(recs[j].prev == Some(h));
        assert(h < j);
        assert(j <= usize::MAX);
        let hj = j as ActionHash;
        assert(hj as int == j);
        assert(in_chain(recs, id, hj));
        lemma_chain_has_leaf(recs, id, hj);
    } else {
        assert(is_leaf(recs, id, h));
    }
}

/// Every revision of a chain has the kind of its creation record.
pub proof fn lemma_chain_kind(recs: Seq<RevisionRecordView>, id: EntityId, h: ActionHash)
    requires
        wf_records(recs),
        in_chain(recs, id, h),
        id < recs.len(),
    ensures
        recs[h as int].content.kind() == recs[id as int].content.kind(),
    decreases h,
{
    if h != id {
        match recs[h as int].prev {
            Some(p) => {
                lemma_chain_kind(recs, id, p);
            },
            None => {},
        }
    }
}

/// The current revision is unique: resolving the same chain twice with
/// no intervening write yields the same winner.
pub proof fn lemma_current_unique(
    recs: Seq<RevisionRecordView>,
    id: EntityId,
    h1: ActionHash,
    h2: ActionHash,
)
    requires
        is_current(recs, id, h1),
        is_current(recs, id, h2),
    ensures
        h1 == h2,
{
    assert(revision_beats(recs, h1, h2));
    assert(revision_beats(recs, h2, h1));
}

/// Creates entities, resolves an entity id to its current revision by
/// walking the update chain, and appends update revisions.  Owns the
/// backing immutable store.
pub struct EntityStore {
    store: ImmutableStore,
}

impl EntityStore {
    /// The stored revision history, leaf-most record last.
    pub closed spec fn records(self) -> Seq<RevisionRecordView> {
        self.store@
    }

    pub open spec fn wf(self) -> bool {
        wf_records(self.records())
    }

    pub fn new() -> (s: Self)
        ensures
            s.records() == Seq::<RevisionRecordView>::empty(),
            s.wf(),
    {
        let s = EntityStore { store: ImmutableStore::new() };
        s
    }

    /// Writes a creation record and returns the entity's stable id: the
    /// hash of that record.  Duplicate logical entities are allowed; no
    /// uniqueness check is made.
    pub fn create_entity(&mut self, content: &EntryTypes) -> (id: EntityId)
        requires
            old(self).wf(),
        ensures
            final(self).records() == old(self).records().push(
                RevisionRecordView { content: content@, prev: None },
            ),
            id == old(self).records().len(),
            final(self).wf(),
            is_creation(final(self).records(), id),
    {
        let ghost pre = self.records();
        let ghost rv = RevisionRecordView { content: content@, prev: None };
        let id = self.store.put(RevisionRecord { content: content.clone(), prev: None });
        proof {
            assert(RevisionRecordView { content: content@, prev: None } =~= rv);
            lemma_wf_push(pre, rv);
            assert(self.records() =~= pre.push(rv));
            assert(self.records()[id as int].prev is None);
        }
        id
    }

    /// Reads one raw stored record, without resolving the chain.
    pub fn get_record(&self, h: ActionHash) -> (r: Option<&RevisionRecord>)
        ensures
            match r {
                Some(rec) => h < self.records().len() && rec@ == self.records()[h as int],
                None => h >= self.records().len(),
            },
    {
        self.store.get(h)
    }

    /// True iff some stored revision was appended on top of `h`.
    fn has_succ(&self, h: ActionHash) -> (r: bool)
        ensures
            r == has_successor(self.records(), h),
    {
        let n = self.store.len();
        let mut j: usize = 0;
        while j < n
            invariant
                j <= n,
                n == self.records().len(),
                forall|k: int| #![trigger self.records()[k]]
                    0 <= k < j ==> self.records()[k].prev != Some(h),
            decreases n - j,
        {
            match self.store.get(j) {
                Some(rec) => {
                    match rec.prev {
                        Some(p) => {
                            if p == h {
                                proof {
                                    assert(self.records()[j as int].prev == Some(h));
                                }
                                return true;
                            }
                        },
                        None => {},
                    }
                },
                None => {},
            }
            j += 1;
        }
        false
    }

    /// Resolves `id` to the hash of its current revision, or `None` when
    /// `id` does not name a creation record.
    pub(crate) fn resolve_current(&self, id: EntityId) -> (r: Option<ActionHash>)
        requires
            self.wf(),
        ensures
            match r {
                Some(h) => is_creation(self.records(), id) && is_current(self.records(), id, h),
                None => !is_creation(self.records(), id),
            },
    {
        let n = self.store.len();
        match self.store.get(id) {
            Some(rec) => {
                if rec.prev.is_some() {
                    return None;
                }
            },
            None => {
                return None;
            },
        }
        // `id` names a creation record; mark every revision of its chain.
        let mut reach: Vec<bool> = Vec::new();
        let mut h: usize = 0;
        while h < n
            invariant
                h <= n,
                n == self.records().len(),
                self.wf(),
                id < n,
                reach.len() == h,
                forall|j: int| 0 <= j < h ==> reach@[j] == in_chain(self.records(), id, j as usize),
            decreases n - h,
        {
            let r: bool = if h == id {
                true
            } else {
                match self.store.get(h) {
                    Some(rec) => {
                        match rec.prev {
                            Some(p) => {
                                if p < h {
                                    reach[p]
                                } else {
                                    false
                                }
                            },
                            None => false,
                        }
                    },
                    None => false,
                }
            };
            proof {
                assert(r == in_chain(self.records(), id, h));
            }
            reach.push(r);
            h += 1;
        }
        // Pick, among the heads of the chain, the winner of the tie-break.
        let mut best: Option<ActionHash> = None;
        let mut h: usize = 0;
        while h < n
            invariant
                h <= n,
                n == self.records().len(),
                self.wf(),
                id < n,
                reach.len() == n,
                forall|j: int| 0 <= j < n ==> reach@[j] == in_chain(self.records(), id, j as usize),
                match best {
                    Some(b) => b < h && is_leaf(self.records(), id, b) && forall|l: ActionHash|
                        l < h && #[trigger] is_leaf(self.records(), id, l) ==> revision_beats(
                            self.records(),
                            b,
                            l,
                        ),
                    None => forall|l: ActionHash|
                        l < h ==> !#[trigger] is_leaf(self.records(), id, l),
                },
            decreases n - h,
        {
            if reach[h] && !self.has_succ(h) {
                proof {
                    assert(is_leaf(self.records(), id, h));
                }
                match best {
                    None => {
                        best = Some(h);
                    },
                    Some(b) => {
                        let lu_h = match self.store.get(h) {
                            Some(rec) => rec.content.last_updated(),
                            None => 0,
                        };
                        let lu_b = match self.store.get(b) {
                            Some(rec) => rec.content.last_updated(),
                            None => 0,
                        };
                        if lu_h > lu_b || (lu_h == lu_b && h >= b) {
                            proof {
                                assert(revision_beats(self.records(), h, b));
                            }
                            best = Some(h);
                        } else {
                            proof {
                                assert(revision_beats(self.records(), b, h));
                            }
                        }
                    },
                }
            }
            h += 1;
        }
        match best {
            Some(b) => {
                proof {
                    assert forall|l: ActionHash| #[trigger]
                        is_leaf(self.records(), id, l) implies revision_beats(
                        self.records(),
                        b,
                        l,
                    ) by {
                        assert(in_chain(self.records(), id, l));
                        assert(l < n);
                    }
                }
                Some(b)
            },
            None => {
                proof {
                    assert(in_chain(self.records(), id, id));
                    lemma_chain_has_leaf(self.records(), id, id);
                    let l = choose|l: ActionHash| #[trigger] is_leaf(self.records(), id, l);
                    assert(in_chain(self.records(), id, l));
                    assert(l < n);
                    assert(false);
                }
                vstd::pervasive::unreached()
            },
        }
    }

    /// Resolves `id` to its current materialized revision, walking the
    /// chain from the creation record and applying the fork tie-break
    /// when several heads exist.  Returns `NotFound` if and only if `id`
    /// does not name a creation record.
    pub fn get_entity(&self, id: EntityId) -> (r: Result<Entity<EntryTypes>, ErrorKinds>)
        requires
            self.wf(),
        ensures
            match r {
                Ok(e) => is_creation(self.records(), id) && e.id == id && e.action
                    < self.records().len() && is_current(self.records(), id, e.action)
                    && e.content@ == self.records()[e.action as int].content,
                Err(k) => k == ErrorKinds::NotFound && !is_creation(self.records(), id),
            },
    {
        match self.resolve_current(id) {
            Some(h) => {
                proof {
                    assert(in_chain(self.records(), id, h));
                    assert(h < self.records().len());
                }
                match self.store.get(h) {
                    Some(rec) => Ok(Entity { id, action: h, content: rec.content.clone() }),
                    None => vstd::pervasive::unreached(),
                }
            },
            None => Err(ErrorKinds::NotFound),
        }
    }

    /// Appends one update revision on top of `prev`, the revision its
    /// writer took for the head of entity `base`, after checking the
    /// caller against that revision's editor set.  Under concurrent
    /// edits two writers may append to the same head; both commits are
    /// kept and the fork is resolved at read time by the tie-break.
    pub fn commit_update(
        &mut self,
        caller: AgentPubKey,
        base: EntityId,
        prev: ActionHash,
        content: EntryTypes,
    ) -> (r: Result<Entity<EntryTypes>, ErrorKinds>)
        requires
            old(self).wf(),
            is_creation(old(self).records(), base),
            in_chain(old(self).records(), base, prev),
            content@.kind() == old(self).records()[prev as int].content.kind(),
        ensures
            final(self).wf(),
            match r {
                Ok(e) => {
                    &&& is_editor(caller, old(self).records()[prev as int].content)
                    &&& final(self).records() == old(self).records().push(
                        RevisionRecordView { content: content@, prev: Some(prev) },
                    )
                    &&& e.id == base
                    &&& e.action == old(self).records().len()
                    &&& e.content@ == content@
                },
                Err(k) => {
                    &&& k == ErrorKinds::Unauthorized
                    &&& !is_editor(caller, old(self).records()[prev as int].content)
                    &&& *final(self) == *old(self)
                },
            },
    {
        proof {
            assert(prev < self.records().len());
        }
        let authorized = match self.store.get(prev) {
            Some(rec) => auth::authorize(caller, &rec.content),
            None => vstd::pervasive::unreached(),
        };
        if !authorized {
            return Err(ErrorKinds::Unauthorized);
        }
        let ghost pre = self.records();
        let ghost rv = RevisionRecordView { content: content@, prev: Some(prev) };
        let returned = content.clone();
        let h = self.store.put(RevisionRecord { content, prev: Some(prev) });
        proof {
            lemma_wf_push(pre, rv);
        }
        Ok(Entity { id: base, action: h, content: returned })
    }
}

} // verus!

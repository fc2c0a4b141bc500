//! The store's governing laws, stated and proved once over arbitrary
//! states: what a reader finds immediately after a creation, an update
//! or a deprecation, that resolution is deterministic, and that
//! indexing places an entity exactly once per derived anchor.

use crate::app;
use crate::entity::{
    has_successor, in_chain, is_creation, is_current, is_leaf, lemma_current_unique,
    lemma_in_chain_push, revision_beats, unforked, wf_records, Entity, GetEntityInput,
};
use crate::graph::{count_target, lemma_count_target_of_edges, link_targets, Anchor, LinkEdge};
use crate::indexer::is_membership_anchor;
use crate::publisher;
use crate::store::RevisionRecordView;
use crate::types::{
    ActionHash, AgentPubKey, AppEntry, DeprecationNoticeView, EntityId, EntryTypesView, LinkTypes,
    PublisherEntry,
};
use crate::AppStore;
use vstd::prelude::*;

verus! {

/// Every revision of a chain carries a hash no smaller than the
/// entity's id: a successor is always written after its predecessor.
pub proof fn lemma_in_chain_ge(recs: Seq<RevisionRecordView>, id: EntityId, h: ActionHash)
    requires
        in_chain(recs, id, h),
    ensures
        h >= id,
    decreases h,
{
    if h != id {
        match recs[h as int].prev {
            Some(p) => {
                lemma_in_chain_ge(recs, id, p);
            },
            None => {},
        }
    }
}

/// A freshly written creation record is the current revision of the
/// entity it opens: its chain holds nothing else.
pub proof fn lemma_fresh_creation_is_current(
    recs: Seq<RevisionRecordView>,
    r: RevisionRecordView,
    n: ActionHash,
)
    requires
        wf_records(recs),
        r.prev is None,
        n == recs.len(),
    ensures
        is_current(recs.push(r), n, n),
{
    let recs2 = recs.push(r);
    assert(in_chain(recs2, n, n));
    assert forall|j: int| 0 <= j < recs2.len() implies #[trigger] recs2[j].prev != Some(n) by {
        if j < recs.len() {
            assert(recs2[j] == recs[j]);
        } else {
            assert(recs2[j] == r);
        }
    }
    assert(!has_successor(recs2, n));
    assert(is_leaf(recs2, n, n));
    assert forall|l: ActionHash| #[trigger] is_leaf(recs2, n, l) implies revision_beats(
        recs2,
        n,
        l,
    ) by {
        lemma_in_chain_ge(recs2, n, l);
        assert(l < recs2.len());
        assert(l == n);
    }
}

/// An update revision appended to the single head of an unforked chain
/// becomes the chain's current revision.
pub proof fn lemma_updated_head_is_current(
    recs: Seq<RevisionRecordView>,
    id: EntityId,
    w: ActionHash,
    r: RevisionRecordView,
    n: ActionHash,
)
    requires
        wf_records(recs),
        is_current(recs, id, w),
        unforked(recs, id),
        r.prev == Some(w),
        n == recs.len(),
    ensures
        is_current(recs.push(r), id, n),
{
    let recs2 = recs.push(r);
    assert(in_chain(recs, id, w));
    assert(w < recs.len());
    lemma_in_chain_push(recs, r, id, w);
    assert(in_chain(recs2, id, w));
    assert(recs2[n as int].prev == Some(w));
    assert(in_chain(recs2, id, n));
    assert forall|j: int| 0 <= j < recs2.len() implies #[trigger] recs2[j].prev != Some(n) by {
        if j < recs.len() {
            assert(recs2[j] == recs[j]);
        } else {
            assert(recs2[j] == r);
        }
    }
    assert(!has_successor(recs2, n));
    assert(is_leaf(recs2, id, n));
    assert forall|l: ActionHash| #[trigger] is_leaf(recs2, id, l) implies revision_beats(
        recs2,
        n,
        l,
    ) by {
        if l != n {
            assert(l < recs2.len());
            assert(l < recs.len());
            lemma_in_chain_push(recs, r, id, l);
            assert(in_chain(recs, id, l));
            assert(!has_successor(recs, l)) by {
                if has_successor(recs, l) {
                    let j = choose|j: int|
                        #![trigger recs[j].prev]
                        0 <= j < recs.len() && recs[j].prev == Some(l);
                    assert(recs2[j] == recs[j]);
                    assert(has_successor(recs2, l));
                }
            }
            assert(is_leaf(recs, id, l));
            assert(is_leaf(recs, id, w));
            assert(l == w);
            assert(has_successor(recs2, w));
            assert(false);
        }
    }
}

/// Law: a publisher fetched immediately after its creation is exactly
/// the record that was created, with `author` fixed to the creator and
/// timestamps defaulted to creation time.  Together with the lookup
/// contract, which returns the unique current revision, this pins what
/// `get` answers right after `create`.
pub proof fn lemma_publisher_create_then_get(
    pre: AppStore,
    post: AppStore,
    caller: AgentPubKey,
    now: u64,
    input: publisher::CreateInput,
    ent: Entity<PublisherEntry>,
)
    requires
        pre.wf(),
        publisher::create_ok(pre, post, caller, now, input, ent),
    ensures
        is_creation(post.records(), ent.id),
        is_current(post.records(), ent.id, ent.id),
        post.records()[ent.id as int].content == EntryTypesView::Publisher(ent.content@),
        publisher::created_publisher(ent.content@, input, caller, now),
{
    let rv = RevisionRecordView { content: EntryTypesView::Publisher(ent.content@), prev: None };
    lemma_fresh_creation_is_current(pre.records(), rv, ent.id);
}

/// Law: an application fetched immediately after its creation is
/// exactly the record that was created, with `author` fixed to the
/// creator and timestamps defaulted to creation time.
pub proof fn lemma_app_create_then_get(
    pre: AppStore,
    post: AppStore,
    caller: AgentPubKey,
    now: u64,
    input: app::CreateInput,
    ent: Entity<AppEntry>,
)
    requires
        pre.wf(),
        app::create_ok(pre, post, caller, now, input, ent),
    ensures
        is_creation(post.records(), ent.id),
        is_current(post.records(), ent.id, ent.id),
        post.records()[ent.id as int].content == EntryTypesView::App(ent.content@),
        app::created_app(ent.content@, input, caller, now),
{
    let rv = RevisionRecordView { content: EntryTypesView::App(ent.content@), prev: None };
    lemma_fresh_creation_is_current(pre.records(), rv, ent.id);
}

/// Law: after a valid update of an unforked publisher chain, the chain
/// resolves to the new revision, which is the update properties applied
/// to the prior current state; untouched fields are unchanged.  With a
/// fork, an abandoned branch carrying a larger `last_updated` can still
/// win the tie-break, so the unforked premise is required.
pub proof fn lemma_publisher_update_then_get(
    pre: AppStore,
    post: AppStore,
    caller: AgentPubKey,
    now: u64,
    input: publisher::UpdateInput,
    ent: Entity<PublisherEntry>,
)
    requires
        pre.wf(),
        unforked(pre.records(), input.base),
        publisher::update_ok(pre, post, caller, now, input, ent),
    ensures
        is_current(post.records(), input.base, ent.action),
        post.records()[ent.action as int].content == EntryTypesView::Publisher(ent.content@),
{
    let w = choose|w: ActionHash|
        {
            &&& #[trigger] is_current(pre.records(), input.base, w)
            &&& crate::auth::is_editor(caller, pre.records()[w as int].content)
            &&& pre.records()[w as int].content is Publisher
            &&& ent.content@ == publisher::applied_publisher(
                pre.records()[w as int].content->Publisher_0,
                input.properties,
                now,
            )
            &&& post.records() == pre.records().push(
                (RevisionRecordView {
                    content: EntryTypesView::Publisher(ent.content@),
                    prev: Some(w),
                }),
            )
        };
    let rv = RevisionRecordView { content: EntryTypesView::Publisher(ent.content@), prev: Some(w) };
    lemma_updated_head_is_current(pre.records(), input.base, w, rv, ent.action);
}

/// Law: after a valid update of an unforked application chain, the
/// chain resolves to the new revision, which is the update properties
/// applied to the prior current state.
pub proof fn lemma_app_update_then_get(
    pre: AppStore,
    post: AppStore,
    caller: AgentPubKey,
    now: u64,
    input: app::UpdateInput,
    ent: Entity<AppEntry>,
)
    requires
        pre.wf(),
        unforked(pre.records(), input.base),
        app::update_ok(pre, post, caller, now, input, ent),
    ensures
        is_current(post.records(), input.base, ent.action),
        post.records()[ent.action as int].content == EntryTypesView::App(ent.content@),
{
    let w = choose|w: ActionHash|
        {
            &&& #[trigger] is_current(pre.records(), input.base, w)
            &&& crate::auth::is_editor(caller, pre.records()[w as int].content)
            &&& pre.records()[w as int].content is App
            &&& ent.content@ == app::applied_app(
                pre.records()[w as int].content->App_0,
                input.properties,
                now,
            )
            &&& post.records() == pre.records().push(
                (RevisionRecordView { content: EntryTypesView::App(ent.content@), prev: Some(w) }),
            )
        };
    let rv = RevisionRecordView { content: EntryTypesView::App(ent.content@), prev: Some(w) };
    lemma_updated_head_is_current(pre.records(), input.base, w, rv, ent.action);
}

/// Law: after deprecating an unforked publisher chain, the chain
/// resolves to a revision whose deprecation notice carries the given
/// message; everything else on the revision is the prior current state.
/// Listings then exclude or include the entity per the collection
/// contracts, which filter on this marker at read time.
pub proof fn lemma_publisher_deprecate_then_get(
    pre: AppStore,
    post: AppStore,
    caller: AgentPubKey,
    input: publisher::DeprecateInput,
    ent: Entity<PublisherEntry>,
)
    requires
        pre.wf(),
        unforked(pre.records(), input.base),
        publisher::deprecate_ok(pre, post, caller, input, ent),
    ensures
        is_current(post.records(), input.base, ent.action),
        post.records()[ent.action as int].content.deprecation() == Some(
            DeprecationNoticeView { message: input.message@, recommended_alternatives: None },
        ),
{
    let w = choose|w: ActionHash|
        {
            &&& #[trigger] is_current(pre.records(), input.base, w)
            &&& crate::auth::is_editor(caller, pre.records()[w as int].content)
            &&& pre.records()[w as int].content is Publisher
            &&& ent.content@ == publisher::deprecated_publisher(
                pre.records()[w as int].content->Publisher_0,
                input.message@,
            )
            &&& post.records() == pre.records().push(
                (RevisionRecordView {
                    content: EntryTypesView::Publisher(ent.content@),
                    prev: Some(w),
                }),
            )
        };
    let rv = RevisionRecordView { content: EntryTypesView::Publisher(ent.content@), prev: Some(w) };
    lemma_updated_head_is_current(pre.records(), input.base, w, rv, ent.action);
}

/// Law: after deprecating an unforked application chain, the chain
/// resolves to a revision whose deprecation notice carries the given
/// message.
pub proof fn lemma_app_deprecate_then_get(
    pre: AppStore,
    post: AppStore,
    caller: AgentPubKey,
    input: app::DeprecateInput,
    ent: Entity<AppEntry>,
)
    requires
        pre.wf(),
        unforked(pre.records(), input.base),
        app::deprecate_ok(pre, post, caller, input, ent),
    ensures
        is_current(post.records(), input.base, ent.action),
        post.records()[ent.action as int].content.deprecation() == Some(
            DeprecationNoticeView { message: input.message@, recommended_alternatives: None },
        ),
{
    let w = choose|w: ActionHash|
        {
            &&& #[trigger] is_current(pre.records(), input.base, w)
            &&& crate::auth::is_editor(caller, pre.records()[w as int].content)
            &&& pre.records()[w as int].content is App
            &&& ent.content@ == app::deprecated_app(
                pre.records()[w as int].content->App_0,
                input.message@,
            )
            &&& post.records() == pre.records().push(
                (RevisionRecordView { content: EntryTypesView::App(ent.content@), prev: Some(w) }),
            )
        };
    let rv = RevisionRecordView { content: EntryTypesView::App(ent.content@), prev: Some(w) };
    lemma_updated_head_is_current(pre.records(), input.base, w, rv, ent.action);
}

/// Law: right after a publisher's creation, the entity occurs exactly
/// once in each collection derived from it — the global one, each
/// founding editor's — and not at all under any other anchor, an
/// unrelated agent's included.
pub proof fn lemma_publisher_indexed_once(
    pre: AppStore,
    post: AppStore,
    caller: AgentPubKey,
    now: u64,
    input: publisher::CreateInput,
    ent: Entity<PublisherEntry>,
    a: Anchor,
)
    requires
        pre.wf(),
        post.wf(),
        publisher::create_ok(pre, post, caller, now, input, ent),
    ensures
        count_target(link_targets(post.edges(), a, LinkTypes::Publisher), ent.id) == (
        if is_membership_anchor(EntryTypesView::Publisher(ent.content@), a) {
            1nat
        } else {
            0nat
        }),
{
    let probe = LinkEdge { base: a, target: ent.id, link_type: LinkTypes::Publisher };
    lemma_count_target_of_edges(post.edges(), a, LinkTypes::Publisher, ent.id);
    assert(!pre.edges().contains(probe)) by {
        if pre.edges().contains(probe) {
            let j = choose|j: int| 0 <= j < pre.edges().len() && pre.edges()[j] == probe;
            assert(is_creation(pre.records(), pre.edges()[j].target));
        }
    }
    assert(post.edges().contains(probe) <==> is_membership_anchor(
        EntryTypesView::Publisher(ent.content@),
        a,
    ));
}

/// Law: right after an application's creation, the entity occurs
/// exactly once in each collection derived from it — the global one,
/// each founding editor's, and its publisher's — and not at all under
/// any other anchor.
pub proof fn lemma_app_indexed_once(
    pre: AppStore,
    post: AppStore,
    caller: AgentPubKey,
    now: u64,
    input: app::CreateInput,
    ent: Entity<AppEntry>,
    a: Anchor,
)
    requires
        pre.wf(),
        post.wf(),
        app::create_ok(pre, post, caller, now, input, ent),
    ensures
        count_target(link_targets(post.edges(), a, LinkTypes::App), ent.id) == (
        if is_membership_anchor(EntryTypesView::App(ent.content@), a) {
            1nat
        } else {
            0nat
        }),
{
    let probe = LinkEdge { base: a, target: ent.id, link_type: LinkTypes::App };
    lemma_count_target_of_edges(post.edges(), a, LinkTypes::App, ent.id);
    assert(!pre.edges().contains(probe)) by {
        if pre.edges().contains(probe) {
            let j = choose|j: int| 0 <= j < pre.edges().len() && pre.edges()[j] == probe;
            assert(is_creation(pre.records(), pre.edges()[j].target));
        }
    }
    assert(post.edges().contains(probe) <==> is_membership_anchor(
        EntryTypesView::App(ent.content@),
        a,
    ));
}

/// Law: resolution is deterministic.  Two lookups of the same publisher
/// id against the same store state answer with the same revision, the
/// fork tie-break settling any concurrent heads the same way each time.
pub proof fn lemma_publisher_get_deterministic(
    s: AppStore,
    input: GetEntityInput,
    e1: Entity<PublisherEntry>,
    e2: Entity<PublisherEntry>,
)
    requires
        publisher::get_ok(s, input, e1),
        publisher::get_ok(s, input, e2),
    ensures
        e1.id == e2.id,
        e1.action == e2.action,
        e1.content@ == e2.content@,
{
    lemma_current_unique(s.records(), input.id, e1.action, e2.action);
}

/// Law: resolution is deterministic.  Two lookups of the same
/// application id against the same store state answer with the same
/// revision.
pub proof fn lemma_app_get_deterministic(
    s: AppStore,
    input: GetEntityInput,
    e1: Entity<AppEntry>,
    e2: Entity<AppEntry>,
)
    requires
        app::get_ok(s, input, e1),
        app::get_ok(s, input, e2),
    ensures
        e1.id == e2.id,
        e1.action == e2.action,
        e1.content@ == e2.content@,
{
    lemma_current_unique(s.records(), input.id, e1.action, e2.action);
}

} // verus!

//! A multi-writer, content-addressed revision store with derived
//! multi-index discovery, cataloguing publisher and application records.
//!
//! Entities are held as append-only chains of immutable revisions anchored
//! at the hash of their creation record; a pure resolver computes the
//! current revision, applying a deterministic tie-break when concurrent
//! edits fork a chain.  A link graph projects entities into a global
//! collection, per-agent collections, and per-parent collections.

use vstd::prelude::*;

pub mod app;
pub mod auth;
pub mod entity;
pub mod errors;
pub mod graph;
pub mod indexer;
pub mod laws;
pub mod publisher;
pub mod store;
pub mod types;

use crate::entity::{
    is_creation, is_current, lemma_current_unique, Entity, EntityStore, GetEntityInput,
};
use crate::errors::ErrorKinds;
use crate::graph::{lemma_link_targets_are_edges, link_targets, Anchor, LinkEdge, LinkGraph};
use crate::store::{RevisionRecord, RevisionRecordView};
use crate::types::{ActionHash, AgentPubKey, AppEntry, LinkTypes, PublisherEntry};

verus! {

/// The whole catalogue: the entity store holding every revision chain,
/// and the link graph holding the derived membership indexes.
pub struct AppStore {
    pub entities: EntityStore,
    pub graph: LinkGraph,
}

impl AppStore {
    /// The stored revision history.
    pub open spec fn records(self) -> Seq<RevisionRecordView> {
        self.entities.records()
    }

    /// The stored membership edges.
    pub open spec fn edges(self) -> Seq<LinkEdge> {
        self.graph@
    }

    /// Every membership edge points at a creation record of the kind
    /// the edge is typed with.
    pub open spec fn edges_ok(self) -> bool {
        forall|i: int| #![trigger self.edges()[i]]
            0 <= i < self.edges().len() ==> is_creation(self.records(), self.edges()[i].target)
                && self.records()[self.edges()[i].target as int].content.kind()
                == self.edges()[i].link_type
    }

    pub open spec fn wf(self) -> bool {
        &&& self.entities.wf()
        &&& self.graph.wf()
        &&& self.edges_ok()
    }

    pub fn new() -> (s: Self)
        ensures
            s.wf(),
            s.records() == Seq::<RevisionRecordView>::empty(),
            s.edges() == Seq::<LinkEdge>::empty(),
    {
        AppStore { entities: EntityStore::new(), graph: LinkGraph::new() }
    }
}

/// Tags a response payload with its composition: a single entity, a
/// collection of entities, or a plain value.
#[derive(Debug)]
pub struct Metadata {
    pub composition: String,
}

/// The uniform envelope every exposed operation answers with: a
/// success payload tagged with its composition, or a failure carrying
/// an error classification and a human-readable message.
#[derive(Debug)]
pub enum Response<T> {
    Success { payload: T, metadata: Option<Metadata> },
    Failure { error: ErrorKinds, message: String },
}

pub type EntityResponse<T> = Response<Entity<T>>;

/// Wraps a payload in a success envelope tagged `tag`.
pub fn composition<T>(payload: T, tag: &str) -> (r: Response<T>)
    ensures
        r matches Response::Success { payload: p, metadata } && p == payload && (metadata matches
            Some(m) && m.composition@ == tag@),
{
    Response::Success { payload, metadata: Some(Metadata { composition: String::from_str(tag) }) }
}

/// Wraps a failure in the envelope, once, at the boundary.
fn failure<T>(error: ErrorKinds) -> (r: Response<T>)
    ensures
        r matches Response::Failure { error: e, .. } && e == error,
{
    let message = error.message();
    Response::Failure { error, message }
}

/// Input naming the agent whose collection is asked for.
#[derive(Clone, Copy, Debug, PartialEq, Eq, Structural)]
pub struct GetForAgentInput {
    pub for_agent: AgentPubKey,
}

/// Echoes the caller's identity in a plain-value envelope.
pub fn whoami(caller: AgentPubKey) -> (r: Response<AgentPubKey>)
    ensures
        r matches Response::Success { payload, metadata } && payload == caller && (metadata matches
            Some(m) && m.composition@ == "value"@),
{
    composition(caller, "value")
}

/// Reads one raw stored record by its hash, without resolving chains.
pub fn get_record(store: &AppStore, hash: ActionHash) -> (r: Option<&RevisionRecord>)
    ensures
        match r {
            Some(rec) => hash < store.records().len() && rec@ == store.records()[hash as int],
            None => hash >= store.records().len(),
        },
{
    store.entities.get_record(hash)
}

/// A collection member as resolved against the store: the current
/// revision of the publisher chain anchored at its id.
pub open spec fn resolved_publisher(s: AppStore, e: Entity<PublisherEntry>) -> bool {
    publisher::get_ok(s, GetEntityInput { id: e.id }, e)
}

/// A collection member as resolved against the store: the current
/// revision of the application chain anchored at its id.
pub open spec fn resolved_app(s: AppStore, e: Entity<AppEntry>) -> bool {
    app::get_ok(s, GetEntityInput { id: e.id }, e)
}

/// Every id listed under a publisher-typed anchor names a publisher
/// creation record.
proof fn lemma_publisher_targets(s: AppStore, base: Anchor)
    requires
        s.wf(),
    ensures
        forall|i: int|
            0 <= i < link_targets(s.edges(), base, LinkTypes::Publisher).len() ==> is_creation(
                s.records(),
                #[trigger] link_targets(s.edges(), base, LinkTypes::Publisher)[i],
            ) && s.records()[link_targets(s.edges(), base, LinkTypes::Publisher)[i] as int].content
                is Publisher,
{
    let ids = link_targets(s.edges(), base, LinkTypes::Publisher);
    lemma_link_targets_are_edges(s.edges(), base, LinkTypes::Publisher);
    assert forall|i: int| 0 <= i < ids.len() implies is_creation(s.records(), #[trigger] ids[i])
        && s.records()[ids[i] as int].content is Publisher by {
        let probe = LinkEdge { base, target: ids[i], link_type: LinkTypes::Publisher };
        assert(s.edges().contains(probe));
        let j = choose|j: int| 0 <= j < s.edges().len() && s.edges()[j] == probe;
        assert(s.edges()[j].target == ids[i]);
        assert(s.records()[ids[i] as int].content.kind() == LinkTypes::Publisher);
    }
}

/// Every id listed under an application-typed anchor names an
/// application creation record.
proof fn lemma_app_targets(s: AppStore, base: Anchor)
    requires
        s.wf(),
    ensures
        forall|i: int|
            0 <= i < link_targets(s.edges(), base, LinkTypes::App).len() ==> is_creation(
                s.records(),
                #[trigger] link_targets(s.edges(), base, LinkTypes::App)[i],
            ) && s.records()[link_targets(s.edges(), base, LinkTypes::App)[i] as int].content is App,
{
    let ids = link_targets(s.edges(), base, LinkTypes::App);
    lemma_link_targets_are_edges(s.edges(), base, LinkTypes::App);
    assert forall|i: int| 0 <= i < ids.len() implies is_creation(s.records(), #[trigger] ids[i])
        && s.records()[ids[i] as int].content is App by {
        let probe = LinkEdge { base, target: ids[i], link_type: LinkTypes::App };
        assert(s.edges().contains(probe));
        let j = choose|j: int| 0 <= j < s.edges().len() && s.edges()[j] == probe;
        assert(s.edges()[j].target == ids[i]);
        assert(s.records()[ids[i] as int].content.kind() == LinkTypes::App);
    }
}

/// Resolves every listed publisher id to its current revision.
fn collect_publishers(store: &AppStore, ids: &Vec<ActionHash>) -> (r: Vec<Entity<PublisherEntry>>)
    requires
        store.wf(),
        forall|i: int|
            0 <= i < ids@.len() ==> is_creation(store.records(), #[trigger] ids@[i])
                && store.records()[ids@[i] as int].content is Publisher,
    ensures
        r@.len() == ids@.len(),
        forall|i: int|
            0 <= i < ids@.len() ==> (#[trigger] r@[i]).id == ids@[i] && resolved_publisher(
                *store,
                r@[i],
            ),
{
    let mut out: Vec<Entity<PublisherEntry>> = Vec::new();
    let mut i: usize = 0;
    while i < ids.len()
        invariant
            store.wf(),
            i <= ids.len(),
            out@.len() == i,
            forall|k: int|
                0 <= k < ids@.len() ==> is_creation(store.records(), #[trigger] ids@[k])
                    && store.records()[ids@[k] as int].content is Publisher,
            forall|k: int|
                0 <= k < i ==> (#[trigger] out@[k]).id == ids@[k] && resolved_publisher(
                    *store,
                    out@[k],
                ),
        decreases ids.len() - i,
    {
        match publisher::get(store, GetEntityInput { id: ids[i] }) {
            Ok(e) => out.push(e),
            Err(_) => vstd::pervasive::unreached(),
        }
        i += 1;
    }
    out
}

/// Resolves every listed application id to its current revision.
fn collect_apps(store: &AppStore, ids: &Vec<ActionHash>) -> (r: Vec<Entity<AppEntry>>)
    requires
        store.wf(),
        forall|i: int|
            0 <= i < ids@.len() ==> is_creation(store.records(), #[trigger] ids@[i])
                && store.records()[ids@[i] as int].content is App,
    ensures
        r@.len() == ids@.len(),
        forall|i: int|
            0 <= i < ids@.len() ==> (#[trigger] r@[i]).id == ids@[i] && resolved_app(*store, r@[i]),
{
    let mut out: Vec<Entity<AppEntry>> = Vec::new();
    let mut i: usize = 0;
    while i < ids.len()
        invariant
            store.wf(),
            i <= ids.len(),
            out@.len() == i,
            forall|k: int|
                0 <= k < ids@.len() ==> is_creation(store.records(), #[trigger] ids@[k])
                    && store.records()[ids@[k] as int].content is App,
            forall|k: int|
                0 <= k < i ==> (#[trigger] out@[k]).id == ids@[k] && resolved_app(*store, out@[k]),
        decreases ids.len() - i,
    {
        match app::get(store, GetEntityInput { id: ids[i] }) {
            Ok(e) => out.push(e),
            Err(_) => vstd::pervasive::unreached(),
        }
        i += 1;
    }
    out
}

/// Keeps the entities whose current revision carries no deprecation.
fn retain_active_publishers(v: Vec<Entity<PublisherEntry>>) -> (r: Vec<Entity<PublisherEntry>>)
    ensures
        forall|i: int|
            0 <= i < r@.len() ==> v@.contains(#[trigger] r@[i]) && r@[i].content@.deprecation
                is None,
        forall|j: int|
            0 <= j < v@.len() && (#[trigger] v@[j]).content@.deprecation is None ==> r@.contains(
                v@[j],
            ),
{
    let mut rest = v;
    let ghost orig = rest@;
    let n = rest.len();
    proof {
        assert(orig.len() == n);
    }
    let mut out: Vec<Entity<PublisherEntry>> = Vec::new();
    let mut i: usize = 0;
    while rest.len() > 0
        invariant
            orig.len() <= usize::MAX,
            i + rest@.len() == orig.len(),
            rest@ == orig.subrange(i as int, orig.len() as int),
            forall|k: int|
                0 <= k < out@.len() ==> orig.contains(#[trigger] out@[k])
                    && out@[k].content@.deprecation is None,
            forall|j: int|
                0 <= j < i && (#[trigger] orig[j]).content@.deprecation is None ==> out@.contains(
                    orig[j],
                ),
        decreases rest.len(),
    {
        let e = rest.remove(0);
        proof {
            assert(e == orig[i as int]);
            assert(rest@ =~= orig.subrange(i as int + 1, orig.len() as int));
        }
        let keep = match &e.content.deprecation {
            Some(_) => false,
            None => true,
        };
        if keep {
            let ghost pre = out@;
            out.push(e);
            proof {
                assert(out@[pre.len() as int] == orig[i as int]);
                assert forall|j: int|
                    0 <= j < i + 1 && (#[trigger] orig[j]).content@.deprecation
                        is None implies out@.contains(orig[j]) by {
                    if j < i {
                        let k = choose|k: int| 0 <= k < pre.len() && pre[k] == orig[j];
                        assert(out@[k] == orig[j]);
                    }
                }
            }
        }
        i += 1;
    }
    out
}

/// Keeps the entities whose current revision carries no deprecation.
fn retain_active_apps(v: Vec<Entity<AppEntry>>) -> (r: Vec<Entity<AppEntry>>)
    ensures
        forall|i: int|
            0 <= i < r@.len() ==> v@.contains(#[trigger] r@[i]) && r@[i].content@.deprecation
                is None,
        forall|j: int|
            0 <= j < v@.len() && (#[trigger] v@[j]).content@.deprecation is None ==> r@.contains(
                v@[j],
            ),
{
    let mut rest = v;
    let ghost orig = rest@;
    let n = rest.len();
    proof {
        assert(orig.len() == n);
    }
    let mut out: Vec<Entity<AppEntry>> = Vec::new();
    let mut i: usize = 0;
    while rest.len() > 0
        invariant
            orig.len() <= usize::MAX,
            i + rest@.len() == orig.len(),
            rest@ == orig.subrange(i as int, orig.len() as int),
            forall|k: int|
                0 <= k < out@.len() ==> orig.contains(#[trigger] out@[k])
                    && out@[k].content@.deprecation is None,
            forall|j: int|
                0 <= j < i && (#[trigger] orig[j]).content@.deprecation is None ==> out@.contains(
                    orig[j],
                ),
        decreases rest.len(),
    {
        let e = rest.remove(0);
        proof {
            assert(e == orig[i as int]);
            assert(rest@ =~= orig.subrange(i as int + 1, orig.len() as int));
        }
        let keep = match &e.content.deprecation {
            Some(_) => false,
            None => true,
        };
        if keep {
            let ghost pre = out@;
            out.push(e);
            proof {
                assert(out@[pre.len() as int] == orig[i as int]);
                assert forall|j: int|
                    0 <= j < i + 1 && (#[trigger] orig[j]).content@.deprecation
                        is None implies out@.contains(orig[j]) by {
                    if j < i {
                        let k = choose|k: int| 0 <= k < pre.len() && pre[k] == orig[j];
                        assert(out@[k] == orig[j]);
                    }
                }
            }
        }
        i += 1;
    }
    out
}

/// Creates a publisher entity.
pub fn create_publisher(
    store: &mut AppStore,
    caller: AgentPubKey,
    now: u64,
    input: publisher::CreateInput,
) -> (r: EntityResponse<PublisherEntry>)
    requires
        old(store).wf(),
    ensures
        final(store).wf(),
        match r {
            Response::Success { payload, metadata } => publisher::create_ok(
                *old(store),
                *final(store),
                caller,
                now,
                input,
                payload,
            ) && (metadata matches Some(m) && m.composition@ == "entity"@),
            Response::Failure { error, .. } => error == ErrorKinds::ValidationError
                && input.name@.len() == 0 && *final(store) == *old(store),
        },
{
    match publisher::create(store, caller, now, input) {
        Ok(ent) => composition(ent, "entity"),
        Err(k) => failure(k),
    }
}

/// Resolves a publisher entity to its current revision.
pub fn get_publisher(store: &AppStore, input: GetEntityInput) -> (r: EntityResponse<PublisherEntry>)
    requires
        store.wf(),
    ensures
        match r {
            Response::Success { payload, metadata } => publisher::get_ok(*store, input, payload)
                && (metadata matches Some(m) && m.composition@ == "entity"@),
            Response::Failure { error, .. } => publisher::get_err(*store, input, error),
        },
{
    match publisher::get(store, input) {
        Ok(ent) => composition(ent, "entity"),
        Err(k) => failure(k),
    }
}

/// Updates a publisher entity on behalf of `caller`.
pub fn update_publisher(
    store: &mut AppStore,
    caller: AgentPubKey,
    now: u64,
    input: publisher::UpdateInput,
) -> (r: EntityResponse<PublisherEntry>)
    requires
        old(store).wf(),
    ensures
        final(store).wf(),
        final(store).edges() == old(store).edges(),
        match r {
            Response::Success { payload, metadata } => publisher::update_ok(
                *old(store),
                *final(store),
                caller,
                now,
                input,
                payload,
            ) && (metadata matches Some(m) && m.composition@ == "entity"@),
            Response::Failure { error, .. } => *final(store) == *old(store)
                && publisher::update_err(*old(store), caller, input, error),
        },
{
    match publisher::update(store, caller, now, input) {
        Ok(ent) => composition(ent, "entity"),
        Err(k) => failure(k),
    }
}

/// Deprecates a publisher entity on behalf of `caller`.
pub fn deprecate_publisher(
    store: &mut AppStore,
    caller: AgentPubKey,
    input: publisher::DeprecateInput,
) -> (r: EntityResponse<PublisherEntry>)
    requires
        old(store).wf(),
    ensures
        final(store).wf(),
        final(store).edges() == old(store).edges(),
        match r {
            Response::Success { payload, metadata } => publisher::deprecate_ok(
                *old(store),
                *final(store),
                caller,
                input,
                payload,
            ) && (metadata matches Some(m) && m.composition@ == "entity"@),
            Response::Failure { error, .. } => *final(store) == *old(store)
                && publisher::deprecate_err(*old(store), caller, input, error),
        },
{
    match publisher::deprecate(store, caller, input) {
        Ok(ent) => composition(ent, "entity"),
        Err(k) => failure(k),
    }
}

/// Lists the publishers in the given agent's collection, resolved to
/// their current revisions.
pub fn get_publishers_for_agent(store: &AppStore, input: GetForAgentInput) -> (r: Response<
    Vec<Entity<PublisherEntry>>,
>)
    requires
        store.wf(),
    ensures
        match r {
            Response::Success { payload: v, metadata } => {
                let ids = link_targets(
                    store.edges(),
                    Anchor::ByAgent(input.for_agent, LinkTypes::Publisher),
                    LinkTypes::Publisher,
                );
                &&& v@.len() == ids.len()
                &&& forall|i: int|
                    0 <= i < v@.len() ==> (#[trigger] v@[i]).id == ids[i] && resolved_publisher(
                        *store,
                        v@[i],
                    )
                &&& (metadata matches Some(m) && m.composition@ == "entity_collection"@)
            },
            Response::Failure { .. } => false,
        },
{
    let base = Anchor::ByAgent(input.for_agent, LinkTypes::Publisher);
    let ids = indexer::collection(&store.graph, base, LinkTypes::Publisher);
    proof {
        lemma_publisher_targets(*store, base);
    }
    let collected = collect_publishers(store, &ids);
    composition(collected, "entity_collection")
}

/// Lists the caller's own publisher collection.
pub fn get_my_publishers(store: &AppStore, caller: AgentPubKey) -> (r: Response<
    Vec<Entity<PublisherEntry>>,
>)
    requires
        store.wf(),
    ensures
        match r {
            Response::Success { payload: v, metadata } => {
                let ids = link_targets(
                    store.edges(),
                    Anchor::ByAgent(caller, LinkTypes::Publisher),
                    LinkTypes::Publisher,
                );
                &&& v@.len() == ids.len()
                &&& forall|i: int|
                    0 <= i < v@.len() ==> (#[trigger] v@[i]).id == ids[i] && resolved_publisher(
                        *store,
                        v@[i],
                    )
                &&& (metadata matches Some(m) && m.composition@ == "entity_collection"@)
            },
            Response::Failure { .. } => false,
        },
{
    get_publishers_for_agent(store, GetForAgentInput { for_agent: caller })
}

/// Lists the global publisher collection, deprecated entities included,
/// each resolved to its current revision.
pub fn get_all_publishers(store: &AppStore) -> (r: Response<Vec<Entity<PublisherEntry>>>)
    requires
        store.wf(),
    ensures
        match r {
            Response::Success { payload: v, metadata } => {
                let ids = link_targets(
                    store.edges(),
                    Anchor::Global(LinkTypes::Publisher),
                    LinkTypes::Publisher,
                );
                &&& v@.len() == ids.len()
                &&& forall|i: int|
                    0 <= i < v@.len() ==> (#[trigger] v@[i]).id == ids[i] && resolved_publisher(
                        *store,
                        v@[i],
                    )
                &&& (metadata matches Some(m) && m.composition@ == "entity_collection"@)
            },
            Response::Failure { .. } => false,
        },
{
    let base = Anchor::Global(LinkTypes::Publisher);
    let ids = indexer::collection(&store.graph, base, LinkTypes::Publisher);
    proof {
        lemma_publisher_targets(*store, base);
    }
    let collected = collect_publishers(store, &ids);
    composition(collected, "entity_collection")
}

/// Lists the global publisher collection with deprecated entities
/// filtered out at read time.
pub fn get_non_deprecated_publishers(store: &AppStore) -> (r: Response<Vec<Entity<PublisherEntry>>>)
    requires
        store.wf(),
    ensures
        match r {
            Response::Success { payload: v, metadata } => {
                let ids = link_targets(
                    store.edges(),
                    Anchor::Global(LinkTypes::Publisher),
                    LinkTypes::Publisher,
                );
                &&& forall|i: int|
                    0 <= i < v@.len() ==> ids.contains((#[trigger] v@[i]).id) && resolved_publisher(
                        *store,
                        v@[i],
                    ) && v@[i].content@.deprecation is None
                &&& forall|j: int, h: ActionHash|
                    0 <= j < ids.len() && #[trigger] is_current(store.records(), ids[j], h)
                        && store.records()[h as int].content.deprecation() is None ==> exists|
                        i: int,
                    |
                        0 <= i < v@.len() && (#[trigger] v@[i]).id == ids[j]
                &&& (metadata matches Some(m) && m.composition@ == "entity_collection"@)
            },
            Response::Failure { .. } => false,
        },
{
    let base = Anchor::Global(LinkTypes::Publisher);
    let ids = indexer::collection(&store.graph, base, LinkTypes::Publisher);
    proof {
        lemma_publisher_targets(*store, base);
    }
    let collected = collect_publishers(store, &ids);
    let ghost all = collected@;
    let active = retain_active_publishers(collected);
    proof {
        let gids = link_targets(
            store.edges(),
            Anchor::Global(LinkTypes::Publisher),
            LinkTypes::Publisher,
        );
        assert(ids@ == gids);
        assert forall|i: int| 0 <= i < active@.len() implies gids.contains(
            (#[trigger] active@[i]).id,
        ) && resolved_publisher(*store, active@[i]) && active@[i].content@.deprecation is None by {
            let k = choose|k: int| 0 <= k < all.len() && all[k] == active@[i];
            assert(all[k].id == gids[k]);
            assert(gids.contains(gids[k]));
        }
        assert forall|j: int, h: ActionHash|
            0 <= j < gids.len() && #[trigger] is_current(store.records(), gids[j], h)
                && store.records()[h as int].content.deprecation() is None implies exists|i: int|
            0 <= i < active@.len() && (#[trigger] active@[i]).id == gids[j] by {
            let e = all[j];
            assert(e.id == gids[j] && resolved_publisher(*store, e));
            assert(is_current(store.records(), gids[j], e.action));
            lemma_current_unique(store.records(), gids[j], h, e.action);
            assert(store.records()[e.action as int].content.deprecation() is None);
            assert(e.content@.deprecation is None);
            assert(active@.contains(e));
            let i = choose|i: int| 0 <= i < active@.len() && active@[i] == e;
            assert(active@[i].id == gids[j]);
        }
    }
    composition(active, "entity_collection")
}

/// Creates an application entity.
pub fn create_app(store: &mut AppStore, caller: AgentPubKey, now: u64, input: app::CreateInput) -> (
    r: EntityResponse<AppEntry>)
    requires
        old(store).wf(),
    ensures
        final(store).wf(),
        match r {
            Response::Success { payload, metadata } => app::create_ok(
                *old(store),
                *final(store),
                caller,
                now,
                input,
                payload,
            ) && (metadata matches Some(m) && m.composition@ == "entity"@),
            Response::Failure { error, .. } => error == ErrorKinds::ValidationError
                && input.title@.len() == 0 && *final(store) == *old(store),
        },
{
    match app::create(store, caller, now, input) {
        Ok(ent) => composition(ent, "entity"),
        Err(k) => failure(k),
    }
}

/// Resolves an application entity to its current revision.
pub fn get_app(store: &AppStore, input: GetEntityInput) -> (r: EntityResponse<AppEntry>)
    requires
        store.wf(),
    ensures
        match r {
            Response::Success { payload, metadata } => app::get_ok(*store, input, payload) && (
            metadata matches Some(m) && m.composition@ == "entity"@),
            Response::Failure { error, .. } => app::get_err(*store, input, error),
        },
{
    match app::get(store, input) {
        Ok(ent) => composition(ent, "entity"),
        Err(k) => failure(k),
    }
}

/// Updates an application entity on behalf of `caller`.
pub fn update_app(store: &mut AppStore, caller: AgentPubKey, now: u64, input: app::UpdateInput) -> (
    r: EntityResponse<AppEntry>)
    requires
        old(store).wf(),
    ensures
        final(store).wf(),
        final(store).edges() == old(store).edges(),
        match r {
            Response::Success { payload, metadata } => app::update_ok(
                *old(store),
                *final(store),
                caller,
                now,
                input,
                payload,
            ) && (metadata matches Some(m) && m.composition@ == "entity"@),
            Response::Failure { error, .. } => *final(store) == *old(store) && app::update_err(
                *old(store),
                caller,
                input,
                error,
            ),
        },
{
    match app::update(store, caller, now, input) {
        Ok(ent) => composition(ent, "entity"),
        Err(k) => failure(k),
    }
}

/// Deprecates an application entity on behalf of `caller`.
pub fn deprecate_app(store: &mut AppStore, caller: AgentPubKey, input: app::DeprecateInput) -> (r:
    EntityResponse<AppEntry>)
    requires
        old(store).wf(),
    ensures
        final(store).wf(),
        final(store).edges() == old(store).edges(),
        match r {
            Response::Success { payload, metadata } => app::deprecate_ok(
                *old(store),
                *final(store),
                caller,
                input,
                payload,
            ) && (metadata matches Some(m) && m.composition@ == "entity"@),
            Response::Failure { error, .. } => *final(store) == *old(store) && app::deprecate_err(
                *old(store),
                caller,
                input,
                error,
            ),
        },
{
    match app::deprecate(store, caller, input) {
        Ok(ent) => composition(ent, "entity"),
        Err(k) => failure(k),
    }
}

/// Lists the applications in the given agent's collection, resolved to
/// their current revisions.
pub fn get_apps_for_agent(store: &AppStore, input: GetForAgentInput) -> (r: Response<
    Vec<Entity<AppEntry>>,
>)
    requires
        store.wf(),
    ensures
        match r {
            Response::Success { payload: v, metadata } => {
                let ids = link_targets(
                    store.edges(),
                    Anchor::ByAgent(input.for_agent, LinkTypes::App),
                    LinkTypes::App,
                );
                &&& v@.len() == ids.len()
                &&& forall|i: int|
                    0 <= i < v@.len() ==> (#[trigger] v@[i]).id == ids[i] && resolved_app(
                        *store,
                        v@[i],
                    )
                &&& (metadata matches Some(m) && m.composition@ == "entity_collection"@)
            },
            Response::Failure { .. } => false,
        },
{
    let base = Anchor::ByAgent(input.for_agent, LinkTypes::App);
    let ids = indexer::collection(&store.graph, base, LinkTypes::App);
    proof {
        lemma_app_targets(*store, base);
    }
    let collected = collect_apps(store, &ids);
    composition(collected, "entity_collection")
}

/// Lists the caller's own application collection.
pub fn get_my_apps(store: &AppStore, caller: AgentPubKey) -> (r: Response<Vec<Entity<AppEntry>>>)
    requires
        store.wf(),
    ensures
        match r {
            Response::Success { payload: v, metadata } => {
                let ids = link_targets(
                    store.edges(),
                    Anchor::ByAgent(caller, LinkTypes::App),
                    LinkTypes::App,
                );
                &&& v@.len() == ids.len()
                &&& forall|i: int|
                    0 <= i < v@.len() ==> (#[trigger] v@[i]).id == ids[i] && resolved_app(
                        *store,
                        v@[i],
                    )
                &&& (metadata matches Some(m) && m.composition@ == "entity_collection"@)
            },
            Response::Failure { .. } => false,
        },
{
    get_apps_for_agent(store, GetForAgentInput { for_agent: caller })
}

/// Lists the global application collection, deprecated entities
/// included, each resolved to its current revision.
pub fn get_all_apps(store: &AppStore) -> (r: Response<Vec<Entity<AppEntry>>>)
    requires
        store.wf(),
    ensures
        match r {
            Response::Success { payload: v, metadata } => {
                let ids = link_targets(store.edges(), Anchor::Global(LinkTypes::App), LinkTypes::App);
                &&& v@.len() == ids.len()
                &&& forall|i: int|
                    0 <= i < v@.len() ==> (#[trigger] v@[i]).id == ids[i] && resolved_app(
                        *store,
                        v@[i],
                    )
                &&& (metadata matches Some(m) && m.composition@ == "entity_collection"@)
            },
            Response::Failure { .. } => false,
        },
{
    let base = Anchor::Global(LinkTypes::App);
    let ids = indexer::collection(&store.graph, base, LinkTypes::App);
    proof {
        lemma_app_targets(*store, base);
    }
    let collected = collect_apps(store, &ids);
    composition(collected, "entity_collection")
}

/// Lists the global application collection with deprecated entities
/// filtered out at read time.
pub fn get_non_deprecated_apps(store: &AppStore) -> (r: Response<Vec<Entity<AppEntry>>>)
    requires
        store.wf(),
    ensures
        match r {
            Response::Success { payload: v, metadata } => {
                let ids = link_targets(store.edges(), Anchor::Global(LinkTypes::App), LinkTypes::App);
                &&& forall|i: int|
                    0 <= i < v@.len() ==> ids.contains((#[trigger] v@[i]).id) && resolved_app(
                        *store,
                        v@[i],
                    ) && v@[i].content@.deprecation is None
                &&& forall|j: int, h: ActionHash|
                    0 <= j < ids.len() && #[trigger] is_current(store.records(), ids[j], h)
                        && store.records()[h as int].content.deprecation() is None ==> exists|
                        i: int,
                    |
                        0 <= i < v@.len() && (#[trigger] v@[i]).id == ids[j]
                &&& (metadata matches Some(m) && m.composition@ == "entity_collection"@)
            },
            Response::Failure { .. } => false,
        },
{
    let base = Anchor::Global(LinkTypes::App);
    let ids = indexer::collection(&store.graph, base, LinkTypes::App);
    proof {
        lemma_app_targets(*store, base);
    }
    let collected = collect_apps(store, &ids);
    let ghost all = collected@;
    let active = retain_active_apps(collected);
    proof {
        let gids = link_targets(store.edges(), Anchor::Global(LinkTypes::App), LinkTypes::App);
        assert(ids@ == gids);
        assert forall|i: int| 0 <= i < active@.len() implies gids.contains(
            (#[trigger] active@[i]).id,
        ) && resolved_app(*store, active@[i]) && active@[i].content@.deprecation is None by {
            let k = choose|k: int| 0 <= k < all.len() && all[k] == active@[i];
            assert(all[k].id == gids[k]);
            assert(gids.contains(gids[k]));
        }
        assert forall|j: int, h: ActionHash|
            0 <= j < gids.len() && #[trigger] is_current(store.records(), gids[j], h)
                && store.records()[h as int].content.deprecation() is None implies exists|i: int|
            0 <= i < active@.len() && (#[trigger] active@[i]).id == gids[j] by {
            let e = all[j];
            assert(e.id == gids[j] && resolved_app(*store, e));
            assert(is_current(store.records(), gids[j], e.action));
            lemma_current_unique(store.records(), gids[j], h, e.action);
            assert(store.records()[e.action as int].content.deprecation() is None);
            assert(e.content@.deprecation is None);
            assert(active@.contains(e));
            let i = choose|i: int| 0 <= i < active@.len() && active@[i] == e;
            assert(active@[i].id == gids[j]);
        }
    }
    composition(active, "entity_collection")
}

} // verus!

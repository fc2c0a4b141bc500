use crate::auth;
use crate::auth::{default_editors, is_editor};
use crate::entity::{
    is_creation, is_current, lemma_chain_kind, Entity, GetEntityInput, UpdateEntityInput,
};
use crate::errors::{AppResult, ErrorKinds};
use crate::graph::LinkEdge;
use crate::indexer;
use crate::indexer::is_membership_anchor;
use crate::store::RevisionRecordView;
use crate::types::{
    opt_agents_view, opt_str_view, ActionHash, AgentPubKey, DeprecationNotice,
    DeprecationNoticeView, EntryTypes, EntryTypesView, LinkTypes, LocationTriplet, PublisherEntry,
    PublisherEntryView, WebAddress,
};
use crate::AppStore;
use vstd::prelude::*;

verus! {

/// Input of a publisher creation.
#[derive(Debug)]
pub struct CreateInput {
    pub name: String,
    pub location: LocationTriplet,
    pub website: WebAddress,
    pub icon_src: String,
    pub description: Option<String>,
    pub email: Option<String>,
    pub editors: Option<Vec<AgentPubKey>>,
    pub published_at: Option<u64>,
    pub last_updated: Option<u64>,
    pub metadata: Option<String>,
}

/// The revision a creation by `caller` at time `now` settles on: the
/// input fields, the defaulted editor set, the caller as fixed author,
/// timestamps defaulted to creation time, and no deprecation.
pub open spec fn created_publisher(
    p: PublisherEntryView,
    input: CreateInput,
    caller: AgentPubKey,
    now: u64,
) -> bool {
    &&& p.name == input.name@
    &&& p.location == input.location@
    &&& p.website == input.website@
    &&& p.icon_src == input.icon_src@
    &&& p.editors == default_editors(opt_agents_view(input.editors), caller)
    &&& p.author == caller
    &&& p.published_at == (match input.published_at {
        Some(t) => t,
        None => now,
    })
    &&& p.last_updated == (match input.last_updated {
        Some(t) => t,
        None => now,
    })
    &&& p.metadata == opt_str_view(input.metadata)
    &&& p.description == opt_str_view(input.description)
    &&& p.email == opt_str_view(input.email)
    &&& p.deprecation is None
}

/// What a successful creation did: a fresh creation record holding the
/// input with defaulted fields, and one membership edge per derived
/// anchor, nothing else changed.
pub open spec fn create_ok(
    pre: AppStore,
    post: AppStore,
    caller: AgentPubKey,
    now: u64,
    input: CreateInput,
    ent: Entity<PublisherEntry>,
) -> bool {
    &&& input.name@.len() > 0
    &&& ent.id == pre.records().len()
    &&& ent.action == ent.id
    &&& created_publisher(ent.content@, input, caller, now)
    &&& post.records() == pre.records().push(
        (RevisionRecordView { content: EntryTypesView::Publisher(ent.content@), prev: None }),
    )
    &&& forall|e: LinkEdge| #[trigger]
        post.edges().contains(e) <==> (pre.edges().contains(e) || (e.target == ent.id
            && e.link_type == LinkTypes::Publisher && is_membership_anchor(
            EntryTypesView::Publisher(ent.content@),
            e.base,
        )))
}

/// Creates a publisher entity: validates the input, writes the creation
/// record, and projects it into the membership indexes.  Succeeds if
/// and only if the required name is non-empty.
pub fn create(store: &mut AppStore, caller: AgentPubKey, now: u64, input: CreateInput) -> (r:
    AppResult<Entity<PublisherEntry>>)
    requires
        old(store).wf(),
    ensures
        final(store).wf(),
        match r {
            Ok(ent) => create_ok(*old(store), *final(store), caller, now, input, ent),
            Err(k) => {
                &&& k == ErrorKinds::ValidationError
                &&& input.name@.len() == 0
                &&& *final(store) == *old(store)
            },
        },
{
    if input.name.as_str().unicode_len() == 0 {
        return Err(ErrorKinds::ValidationError);
    }
    let editors = auth::make_editors(input.editors, caller);
    let entry = PublisherEntry {
        name: input.name,
        location: input.location,
        website: input.website,
        icon_src: input.icon_src,
        editors,
        author: caller,
        published_at: match input.published_at {
            Some(t) => t,
            None => now,
        },
        last_updated: match input.last_updated {
            Some(t) => t,
            None => now,
        },
        metadata: input.metadata,
        description: input.description,
        email: input.email,
        deprecation: None,
    };
    let stored = EntryTypes::Publisher(entry);
    let ghost pre_records = store.records();
    let ghost pre_edges = store.edges();
    let id = store.entities.create_entity(&stored);
    indexer::index(&mut store.graph, id, &stored);
    proof {
        assert forall|i: int| 0 <= i < store.edges().len() implies is_creation(
            store.records(),
            #[trigger] store.edges()[i].target,
        ) && store.records()[store.edges()[i].target as int].content.kind()
            == store.edges()[i].link_type by {
            let e = store.edges()[i];
            assert(store.edges().contains(e));
            if pre_edges.contains(e) {
                let j = choose|j: int| 0 <= j < pre_edges.len() && pre_edges[j] == e;
                assert(is_creation(pre_records, e.target));
                assert(store.records()[e.target as int] == pre_records[e.target as int]);
            } else {
                assert(e.target == id);
                assert(store.records()[id as int].content == stored@);
            }
        }
    }
    match stored {
        EntryTypes::Publisher(p) => Ok(Entity { id, action: id, content: p }),
        EntryTypes::App(_) => vstd::pervasive::unreached(),
    }
}

/// What a successful lookup returned: the current revision of the
/// publisher chain anchored at the requested id.
pub open spec fn get_ok(s: AppStore, input: GetEntityInput, ent: Entity<PublisherEntry>) -> bool {
    &&& is_creation(s.records(), input.id)
    &&& s.records()[input.id as int].content is Publisher
    &&& ent.id == input.id
    &&& ent.action < s.records().len()
    &&& is_current(s.records(), input.id, ent.action)
    &&& s.records()[ent.action as int].content == EntryTypesView::Publisher(ent.content@)
}

/// When a lookup fails, and with which error.
pub open spec fn get_err(s: AppStore, input: GetEntityInput, k: ErrorKinds) -> bool {
    ||| {
        &&& k == ErrorKinds::NotFound
        &&& !is_creation(s.records(), input.id)
    }
    ||| {
        &&& k == ErrorKinds::UserError
        &&& is_creation(s.records(), input.id)
        &&& !(s.records()[input.id as int].content is Publisher)
    }
}

/// Resolves a publisher entity to its current revision.  Succeeds if
/// and only if the id names a creation record of publisher kind.
pub fn get(store: &AppStore, input: GetEntityInput) -> (r: AppResult<Entity<PublisherEntry>>)
    requires
        store.wf(),
    ensures
        match r {
            Ok(ent) => get_ok(*store, input, ent),
            Err(k) => get_err(*store, input, k),
        },
{
    let ent = match store.entities.get_entity(input.id) {
        Ok(e) => e,
        Err(k) => {
            return Err(k);
        },
    };
    proof {
        lemma_chain_kind(store.records(), input.id, ent.action);
    }
    match ent.content {
        EntryTypes::Publisher(p) => Ok(Entity { id: ent.id, action: ent.action, content: p }),
        EntryTypes::App(_) => Err(ErrorKinds::UserError),
    }
}

/// Properties an update may replace on the current revision.  A field
/// left out keeps its value, except `metadata`, which is replaced
/// wholesale on every update.
#[derive(Debug)]
pub struct UpdateProperties {
    pub name: Option<String>,
    pub description: Option<String>,
    pub location: Option<LocationTriplet>,
    pub website: Option<WebAddress>,
    pub icon_src: Option<String>,
    pub email: Option<String>,
    pub editors: Option<Vec<AgentPubKey>>,
    pub published_at: Option<u64>,
    pub last_updated: Option<u64>,
    pub metadata: Option<String>,
}

pub type UpdateInput = UpdateEntityInput<UpdateProperties>;

/// An update that would leave the entity without editors is rejected.
pub open spec fn empty_editors_update(props: UpdateProperties) -> bool {
    match props.editors {
        Some(e) => e@.len() == 0,
        None => false,
    }
}

/// The revision an update at time `now` produces from the current one:
/// supplied properties replace fields, untouched fields are kept, the
/// author is fixed, `metadata` is replaced wholesale, and
/// `last_updated` advances to `now` unless set explicitly.
pub open spec fn applied_publisher(
    cur: PublisherEntryView,
    props: UpdateProperties,
    now: u64,
) -> PublisherEntryView {
    PublisherEntryView {
        name: match props.name {
            Some(n) => n@,
            None => cur.name,
        },
        description: match props.description {
            Some(d) => Some(d@),
            None => cur.description,
        },
        location: match props.location {
            Some(l) => l@,
            None => cur.location,
        },
        website: match props.website {
            Some(w) => w@,
            None => cur.website,
        },
        icon_src: match props.icon_src {
            Some(i) => i@,
            None => cur.icon_src,
        },
        email: match props.email {
            Some(e) => Some(e@),
            None => cur.email,
        },
        editors: match props.editors {
            Some(e) => e@,
            None => cur.editors,
        },
        author: cur.author,
        published_at: match props.published_at {
            Some(t) => t,
            None => cur.published_at,
        },
        last_updated: match props.last_updated {
            Some(t) => t,
            None => now,
        },
        metadata: opt_str_view(props.metadata),
        deprecation: cur.deprecation,
    }
}

/// Applies update properties to the current revision's payload.
fn apply_update(cur: PublisherEntry, props: UpdateProperties, now: u64) -> (r: PublisherEntry)
    ensures
        r@ == applied_publisher(cur@, props, now),
{
    let r = PublisherEntry {
        name: match props.name {
            Some(n) => n,
            None => cur.name,
        },
        description: match props.description {
            Some(d) => Some(d),
            None => cur.description,
        },
        location: match props.location {
            Some(l) => l,
            None => cur.location,
        },
        website: match props.website {
            Some(w) => w,
            None => cur.website,
        },
        icon_src: match props.icon_src {
            Some(i) => i,
            None => cur.icon_src,
        },
        email: match props.email {
            Some(e) => Some(e),
            None => cur.email,
        },
        editors: match props.editors {
            Some(e) => e,
            None => cur.editors,
        },
        author: cur.author,
        published_at: match props.published_at {
            Some(t) => t,
            None => cur.published_at,
        },
        last_updated: match props.last_updated {
            Some(t) => t,
            None => now,
        },
        metadata: props.metadata,
        deprecation: cur.deprecation,
    };
    proof {
        assert(r@ =~= applied_publisher(cur@, props, now));
    }
    r
}

/// What a successful update did: one revision appended on top of the
/// current head, holding the properties applied to it; the stable id
/// and the membership indexes are untouched.
pub open spec fn update_ok(
    pre: AppStore,
    post: AppStore,
    caller: AgentPubKey,
    now: u64,
    input: UpdateInput,
    ent: Entity<PublisherEntry>,
) -> bool {
    &&& is_creation(pre.records(), input.base)
    &&& pre.records()[input.base as int].content is Publisher
    &&& !empty_editors_update(input.properties)
    &&& ent.id == input.base
    &&& ent.action == pre.records().len()
    &&& exists|w: ActionHash|
        {
            &&& #[trigger] is_current(pre.records(), input.base, w)
            &&& is_editor(caller, pre.records()[w as int].content)
            &&& pre.records()[w as int].content is Publisher
            &&& ent.content@ == applied_publisher(
                pre.records()[w as int].content->Publisher_0,
                input.properties,
                now,
            )
            &&& post.records() == pre.records().push(
                (RevisionRecordView {
                    content: EntryTypesView::Publisher(ent.content@),
                    prev: Some(w),
                }),
            )
        }
}

/// When an update fails, and with which error: an unresolvable id, a
/// record of another kind, a caller outside the current editor set, or
/// an update that would empty the editor set.
pub open spec fn update_err(
    pre: AppStore,
    caller: AgentPubKey,
    input: UpdateInput,
    k: ErrorKinds,
) -> bool {
    ||| {
        &&& k == ErrorKinds::NotFound
        &&& !is_creation(pre.records(), input.base)
    }
    ||| {
        &&& k == ErrorKinds::UserError
        &&& is_creation(pre.records(), input.base)
        &&& !(pre.records()[input.base as int].content is Publisher)
    }
    ||| {
        &&& k == ErrorKinds::Unauthorized
        &&& exists|w: ActionHash|
            #[trigger] is_current(pre.records(), input.base, w) && !is_editor(
                caller,
                pre.records()[w as int].content,
            )
    }
    ||| {
        &&& k == ErrorKinds::ValidationError
        &&& empty_editors_update(input.properties)
    }
}

/// Updates a publisher entity: resolves the current revision, checks
/// the caller against its editor set, validates the properties, and
/// appends the new revision to the chain head that was read.  The
/// membership indexes are not touched: index placement is fixed at
/// creation.  Returns the new revision's hash as `ent.action`; the
/// stable id is unchanged.
pub fn update(store: &mut AppStore, caller: AgentPubKey, now: u64, input: UpdateInput) -> (r:
    AppResult<Entity<PublisherEntry>>)
    requires
        old(store).wf(),
    ensures
        final(store).wf(),
        final(store).edges() == old(store).edges(),
        match r {
            Ok(ent) => update_ok(*old(store), *final(store), caller, now, input, ent),
            Err(k) => *final(store) == *old(store) && update_err(*old(store), caller, input, k),
        },
{
    let cur = match store.entities.get_entity(input.base) {
        Ok(e) => e,
        Err(k) => {
            return Err(k);
        },
    };
    proof {
        lemma_chain_kind(store.records(), input.base, cur.action);
    }
    let is_kind = match &cur.content {
        EntryTypes::Publisher(_) => true,
        EntryTypes::App(_) => false,
    };
    if !is_kind {
        return Err(ErrorKinds::UserError);
    }
    if !auth::authorize(caller, &cur.content) {
        return Err(ErrorKinds::Unauthorized);
    }
    let invalid = match &input.properties.editors {
        Some(e) => e.len() == 0,
        None => false,
    };
    if invalid {
        return Err(ErrorKinds::ValidationError);
    }
    let payload = match cur.content {
        EntryTypes::Publisher(p) => p,
        EntryTypes::App(_) => vstd::pervasive::unreached(),
    };
    let applied = apply_update(payload, input.properties, now);
    let ghost w = cur.action;
    let ghost pre_records = store.records();
    let ent = match store.entities.commit_update(
        caller,
        input.base,
        cur.action,
        EntryTypes::Publisher(applied),
    ) {
        Ok(e) => e,
        Err(_) => vstd::pervasive::unreached(),
    };
    proof {
        assert(store.records() == pre_records.push(
            (RevisionRecordView {
                content: EntryTypesView::Publisher(ent.content@->Publisher_0),
                prev: Some(w),
            }),
        ));
        assert forall|i: int| 0 <= i < store.edges().len() implies is_creation(
            store.records(),
            #[trigger] store.edges()[i].target,
        ) && store.records()[store.edges()[i].target as int].content.kind()
            == store.edges()[i].link_type by {
            let e = store.edges()[i];
            assert(is_creation(pre_records, e.target));
            assert(store.records()[e.target as int] == pre_records[e.target as int]);
        }
    }
    match ent.content {
        EntryTypes::Publisher(p) => Ok(Entity { id: ent.id, action: ent.action, content: p }),
        EntryTypes::App(_) => vstd::pervasive::unreached(),
    }
}

/// Input of a deprecation: the entity and the reason to record.
#[derive(Debug)]
pub struct DeprecateInput {
    pub base: ActionHash,
    pub message: String,
}

/// The revision a deprecation produces: the current one with only the
/// deprecation marker set.  All other fields, timestamps included, are
/// preserved.
pub open spec fn deprecated_publisher(
    cur: PublisherEntryView,
    message: Seq<char>,
) -> PublisherEntryView {
    PublisherEntryView {
        deprecation: Some(DeprecationNoticeView { message, recommended_alternatives: None }),
        ..cur
    }
}

/// What a successful deprecation did: one revision appended on top of
/// the current head, identical to it but for the deprecation marker.
pub open spec fn deprecate_ok(
    pre: AppStore,
    post: AppStore,
    caller: AgentPubKey,
    input: DeprecateInput,
    ent: Entity<PublisherEntry>,
) -> bool {
    &&& is_creation(pre.records(), input.base)
    &&& pre.records()[input.base as int].content is Publisher
    &&& ent.id == input.base
    &&& ent.action == pre.records().len()
    &&& ent.content@.deprecation == Some(
        DeprecationNoticeView { message: input.message@, recommended_alternatives: None },
    )
    &&& exists|w: ActionHash|
        {
            &&& #[trigger] is_current(pre.records(), input.base, w)
            &&& is_editor(caller, pre.records()[w as int].content)
            &&& pre.records()[w as int].content is Publisher
            &&& ent.content@ == deprecated_publisher(
                pre.records()[w as int].content->Publisher_0,
                input.message@,
            )
            &&& post.records() == pre.records().push(
                (RevisionRecordView {
                    content: EntryTypesView::Publisher(ent.content@),
                    prev: Some(w),
                }),
            )
        }
}

/// When a deprecation fails, and with which error.
pub open spec fn deprecate_err(
    pre: AppStore,
    caller: AgentPubKey,
    input: DeprecateInput,
    k: ErrorKinds,
) -> bool {
    ||| {
        &&& k == ErrorKinds::NotFound
        &&& !is_creation(pre.records(), input.base)
    }
    ||| {
        &&& k == ErrorKinds::UserError
        &&& is_creation(pre.records(), input.base)
        &&& !(pre.records()[input.base as int].content is Publisher)
    }
    ||| {
        &&& k == ErrorKinds::Unauthorized
        &&& exists|w: ActionHash|
            #[trigger] is_current(pre.records(), input.base, w) && !is_editor(
                caller,
                pre.records()[w as int].content,
            )
    }
}

/// Deprecates a publisher entity: an ordinary update that only sets the
/// deprecation marker.  The entity stays in every index and remains
/// retrievable; listings that exclude deprecated entities filter it out
/// at read time.
pub fn deprecate(store: &mut AppStore, caller: AgentPubKey, input: DeprecateInput) -> (r: AppResult<
    Entity<PublisherEntry>,
>)
    requires
        old(store).wf(),
    ensures
        final(store).wf(),
        final(store).edges() == old(store).edges(),
        match r {
            Ok(ent) => deprecate_ok(*old(store), *final(store), caller, input, ent),
            Err(k) => *final(store) == *old(store) && deprecate_err(*old(store), caller, input, k),
        },
{
    let cur = match store.entities.get_entity(input.base) {
        Ok(e) => e,
        Err(k) => {
            return Err(k);
        },
    };
    proof {
        lemma_chain_kind(store.records(), input.base, cur.action);
    }
    let is_kind = match &cur.content {
        EntryTypes::Publisher(_) => true,
        EntryTypes::App(_) => false,
    };
    if !is_kind {
        return Err(ErrorKinds::UserError);
    }
    if !auth::authorize(caller, &cur.content) {
        return Err(ErrorKinds::Unauthorized);
    }
    let payload = match cur.content {
        EntryTypes::Publisher(p) => p,
        EntryTypes::App(_) => vstd::pervasive::unreached(),
    };
    let marked = PublisherEntry {
        name: payload.name,
        location: payload.location,
        website: payload.website,
        icon_src: payload.icon_src,
        editors: payload.editors,
        author: payload.author,
        published_at: payload.published_at,
        last_updated: payload.last_updated,
        metadata: payload.metadata,
        description: payload.description,
        email: payload.email,
        deprecation: Some(
            DeprecationNotice { message: input.message, recommended_alternatives: None },
        ),
    };
    proof {
        assert(marked@ =~= deprecated_publisher(
            store.records()[cur.action as int].content->Publisher_0,
            marked.deprecation->0.message@,
        ));
    }
    let ghost w = cur.action;
    let ghost pre_records = store.records();
    let ent = match store.entities.commit_update(
        caller,
        input.base,
        cur.action,
        EntryTypes::Publisher(marked),
    ) {
        Ok(e) => e,
        Err(_) => vstd::pervasive::unreached(),
    };
    proof {
        assert forall|i: int| 0 <= i < store.edges().len() implies is_creation(
            store.records(),
            #[trigger] store.edges()[i].target,
        ) && store.records()[store.edges()[i].target as int].content.kind()
            == store.edges()[i].link_type by {
            let e = store.edges()[i];
            assert(is_creation(pre_records, e.target));
            assert(store.records()[e.target as int] == pre_records[e.target as int]);
        }
    }
    match ent.content {
        EntryTypes::Publisher(p) => Ok(Entity { id: ent.id, action: ent.action, content: p }),
        EntryTypes::App(_) => vstd::pervasive::unreached(),
    }
}

} // verus!

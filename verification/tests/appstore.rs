use appstore::app;
use appstore::entity::GetEntityInput;
use appstore::entity::UpdateEntityInput;
use appstore::errors::ErrorKinds;
use appstore::graph::Anchor;
use appstore::indexer;
use appstore::publisher;
use appstore::types::{
    AgentPubKey, CommonFields, DeprecationNotice, EntityId, EntryTypes, LinkTypes,
    LocationTriplet, PublisherEntry, WebAddress,
};
use appstore::{
    composition, create_app, create_publisher, deprecate_app, deprecate_publisher, get_all_apps,
    get_all_publishers, get_app, get_apps_for_agent, get_my_publishers, get_non_deprecated_apps,
    get_non_deprecated_publishers, get_publisher, get_publishers_for_agent, get_record,
    update_app, update_publisher, whoami, AppStore, GetForAgentInput, Response,
};

const ALICE: AgentPubKey = 1;
const BOB: AgentPubKey = 2;
const CAROL: AgentPubKey = 3;

fn location() -> LocationTriplet {
    LocationTriplet {
        country: "CA".to_string(),
        region: "BC".to_string(),
        city: "Vancouver".to_string(),
    }
}

fn website() -> WebAddress {
    WebAddress { url: "https://acme.example".to_string(), context: Some("github".to_string()) }
}

fn publisher_input(name: &str) -> publisher::CreateInput {
    publisher::CreateInput {
        name: name.to_string(),
        location: location(),
        website: website(),
        icon_src: "icon".to_string(),
        description: Some("a publisher".to_string()),
        email: None,
        editors: None,
        published_at: None,
        last_updated: None,
        metadata: Some("meta".to_string()),
    }
}

fn blank_publisher_props() -> publisher::UpdateProperties {
    publisher::UpdateProperties {
        name: None,
        description: None,
        location: None,
        website: None,
        icon_src: None,
        email: None,
        editors: None,
        published_at: None,
        last_updated: None,
        metadata: None,
    }
}

fn app_input(title: &str, publisher: EntityId) -> app::CreateInput {
    app::CreateInput {
        title: title.to_string(),
        subtitle: "sub".to_string(),
        description: "desc".to_string(),
        icon_src: "icon".to_string(),
        publisher,
        source: "https://src.example".to_string(),
        hashes: "{}".to_string(),
        changelog: None,
        metadata: None,
        editors: None,
        published_at: None,
        last_updated: None,
    }
}

fn expect_publisher(
    r: Response<appstore::entity::Entity<PublisherEntry>>,
) -> appstore::entity::Entity<PublisherEntry> {
    match r {
        Response::Success { payload, metadata } => {
            let m = metadata.expect("metadata");
            assert_eq!(m.composition, "entity");
            payload
        }
        Response::Failure { error, message } => panic!("failure {:?}: {}", error, message),
    }
}

fn expect_publisher_err(r: Response<appstore::entity::Entity<PublisherEntry>>) -> ErrorKinds {
    match r {
        Response::Success { .. } => panic!("expected failure"),
        Response::Failure { error, .. } => error,
    }
}

fn expect_app(
    r: Response<appstore::entity::Entity<appstore::types::AppEntry>>,
) -> appstore::entity::Entity<appstore::types::AppEntry> {
    match r {
        Response::Success { payload, metadata } => {
            let m = metadata.expect("metadata");
            assert_eq!(m.composition, "entity");
            payload
        }
        Response::Failure { error, message } => panic!("failure {:?}: {}", error, message),
    }
}

fn collection_payload<T>(r: Response<Vec<T>>) -> Vec<T> {
    match r {
        Response::Success { payload, metadata } => {
            let m = metadata.expect("metadata");
            assert_eq!(m.composition, "entity_collection");
            payload
        }
        Response::Failure { error, message } => panic!("failure {:?}: {}", error, message),
    }
}

#[test]
fn create_then_get_returns_created_record() {
    let mut store = AppStore::new();
    let ent = expect_publisher(create_publisher(&mut store, ALICE, 100, publisher_input("Acme")));
    assert_eq!(ent.id, 0);
    assert_eq!(ent.action, ent.id);
    assert_eq!(ent.content.name, "Acme");
    assert_eq!(ent.content.author, ALICE);
    assert_eq!(ent.content.editors, vec![ALICE]);
    assert_eq!(ent.content.published_at, 100);
    assert_eq!(ent.content.last_updated, 100);
    assert!(ent.content.deprecation.is_none());

    let got = expect_publisher(get_publisher(&store, GetEntityInput { id: ent.id }));
    assert_eq!(got.id, ent.id);
    assert_eq!(got.action, ent.action);
    assert_eq!(got.content, ent.content);
}

#[test]
fn create_respects_explicit_timestamps() {
    let mut store = AppStore::new();
    let mut input = publisher_input("Acme");
    input.published_at = Some(42);
    input.last_updated = Some(43);
    let ent = expect_publisher(create_publisher(&mut store, ALICE, 100, input));
    assert_eq!(ent.content.published_at, 42);
    assert_eq!(ent.content.last_updated, 43);
}

#[test]
fn create_prepends_caller_to_editors() {
    let mut store = AppStore::new();
    let mut input = publisher_input("Acme");
    input.editors = Some(vec![BOB]);
    let ent = expect_publisher(create_publisher(&mut store, ALICE, 100, input));
    assert_eq!(ent.content.editors, vec![ALICE, BOB]);

    let mut input2 = publisher_input("Beta");
    input2.editors = Some(vec![BOB, ALICE]);
    let ent2 = expect_publisher(create_publisher(&mut store, ALICE, 100, input2));
    assert_eq!(ent2.content.editors, vec![BOB, ALICE]);
}

#[test]
fn create_rejects_empty_name() {
    let mut store = AppStore::new();
    let err = expect_publisher_err(create_publisher(&mut store, ALICE, 100, publisher_input("")));
    assert_eq!(err, ErrorKinds::ValidationError);
}

#[test]
fn update_applies_properties_and_advances_time() {
    let mut store = AppStore::new();
    let ent = expect_publisher(create_publisher(&mut store, ALICE, 100, publisher_input("Acme")));
    let mut props = blank_publisher_props();
    props.name = Some("Acme Inc".to_string());
    let updated = expect_publisher(update_publisher(
        &mut store,
        ALICE,
        200,
        UpdateEntityInput { base: ent.id, properties: props },
    ));
    assert_eq!(updated.id, ent.id);
    assert_ne!(updated.action, ent.action);

    let got = expect_publisher(get_publisher(&store, GetEntityInput { id: ent.id }));
    assert_eq!(got.content.name, "Acme Inc");
    assert_eq!(got.content.last_updated, 200);
    // untouched fields are kept
    assert_eq!(got.content.icon_src, "icon");
    assert_eq!(got.content.author, ALICE);
    assert_eq!(got.content.published_at, 100);
    assert_eq!(got.content.description, Some("a publisher".to_string()));
    // metadata is replaced wholesale: the update set none
    assert_eq!(got.content.metadata, None);
}

#[test]
fn update_by_non_editor_fails_and_leaves_chain_unmodified() {
    let mut store = AppStore::new();
    let ent = expect_publisher(create_publisher(&mut store, ALICE, 100, publisher_input("Acme")));
    let before = expect_publisher(get_publisher(&store, GetEntityInput { id: ent.id }));

    let mut props = blank_publisher_props();
    props.name = Some("Hijacked".to_string());
    let err = expect_publisher_err(update_publisher(
        &mut store,
        BOB,
        200,
        UpdateEntityInput { base: ent.id, properties: props },
    ));
    assert_eq!(err, ErrorKinds::Unauthorized);

    let after = expect_publisher(get_publisher(&store, GetEntityInput { id: ent.id }));
    assert_eq!(before.action, after.action);
    assert_eq!(before.content, after.content);
}

#[test]
fn update_can_replace_editors_but_not_empty_them() {
    let mut store = AppStore::new();
    let ent = expect_publisher(create_publisher(&mut store, ALICE, 100, publisher_input("Acme")));

    let mut props = blank_publisher_props();
    props.editors = Some(vec![BOB]);
    expect_publisher(update_publisher(
        &mut store,
        ALICE,
        200,
        UpdateEntityInput { base: ent.id, properties: props },
    ));
    let got = expect_publisher(get_publisher(&store, GetEntityInput { id: ent.id }));
    assert_eq!(got.content.editors, vec![BOB]);

    // governance has changed: the original author is no longer an editor
    let mut props2 = blank_publisher_props();
    props2.name = Some("Nope".to_string());
    let err = expect_publisher_err(update_publisher(
        &mut store,
        ALICE,
        300,
        UpdateEntityInput { base: ent.id, properties: props2 },
    ));
    assert_eq!(err, ErrorKinds::Unauthorized);

    let mut props3 = blank_publisher_props();
    props3.editors = Some(vec![]);
    let err2 = expect_publisher_err(update_publisher(
        &mut store,
        BOB,
        300,
        UpdateEntityInput { base: ent.id, properties: props3 },
    ));
    assert_eq!(err2, ErrorKinds::ValidationError);
}

#[test]
fn update_unknown_base_is_not_found() {
    let mut store = AppStore::new();
    let err = expect_publisher_err(update_publisher(
        &mut store,
        ALICE,
        100,
        UpdateEntityInput { base: 7, properties: blank_publisher_props() },
    ));
    assert_eq!(err, ErrorKinds::NotFound);
}

#[test]
fn get_unknown_id_is_not_found() {
    let store = AppStore::new();
    let err = expect_publisher_err(get_publisher(&store, GetEntityInput { id: 9 }));
    assert_eq!(err, ErrorKinds::NotFound);
}

#[test]
fn get_with_wrong_kind_is_user_error() {
    let mut store = AppStore::new();
    let p = expect_publisher(create_publisher(&mut store, ALICE, 100, publisher_input("Acme")));
    let a = expect_app(create_app(&mut store, ALICE, 100, app_input("Chat", p.id)));
    let err = expect_publisher_err(get_publisher(&store, GetEntityInput { id: a.id }));
    assert_eq!(err, ErrorKinds::UserError);
}

#[test]
fn deprecate_sets_message_and_listings_filter_it() {
    let mut store = AppStore::new();
    let keep = expect_publisher(create_publisher(&mut store, ALICE, 100, publisher_input("Keep")));
    let ent = expect_publisher(create_publisher(&mut store, ALICE, 100, publisher_input("Acme")));
    expect_publisher(deprecate_publisher(
        &mut store,
        ALICE,
        publisher::DeprecateInput { base: ent.id, message: "m".to_string() },
    ));

    let got = expect_publisher(get_publisher(&store, GetEntityInput { id: ent.id }));
    let notice = got.content.deprecation.expect("deprecation");
    assert_eq!(notice.message, "m");
    assert_eq!(notice.recommended_alternatives, None);
    // other fields and timestamps are preserved
    assert_eq!(got.content.name, "Acme");
    assert_eq!(got.content.last_updated, 100);

    let all = collection_payload(get_all_publishers(&store));
    assert_eq!(all.len(), 2);
    assert!(all.iter().any(|e| e.id == ent.id));

    let active = collection_payload(get_non_deprecated_publishers(&store));
    assert_eq!(active.len(), 1);
    assert_eq!(active[0].id, keep.id);
    assert!(active.iter().all(|e| e.id != ent.id));
}

#[test]
fn update_after_deprecation_keeps_marker() {
    let mut store = AppStore::new();
    let ent = expect_publisher(create_publisher(&mut store, ALICE, 100, publisher_input("Acme")));
    expect_publisher(deprecate_publisher(
        &mut store,
        ALICE,
        publisher::DeprecateInput { base: ent.id, message: "m".to_string() },
    ));
    // an ordinary update edits other fields only and keeps the marker
    let mut props = blank_publisher_props();
    props.name = Some("Acme 2".to_string());
    expect_publisher(update_publisher(
        &mut store,
        ALICE,
        200,
        UpdateEntityInput { base: ent.id, properties: props },
    ));
    let got = expect_publisher(get_publisher(&store, GetEntityInput { id: ent.id }));
    assert_eq!(got.content.name, "Acme 2");
    assert!(got.content.deprecation.is_some());
}

#[test]
fn indexing_places_entity_exactly_once_per_anchor() {
    let mut store = AppStore::new();
    let p = expect_publisher(create_publisher(&mut store, ALICE, 100, publisher_input("Acme")));
    let mut input = app_input("Chat", p.id);
    input.editors = Some(vec![BOB]);
    let a = expect_app(create_app(&mut store, ALICE, 100, input));

    let all = collection_payload(get_all_apps(&store));
    assert_eq!(all.iter().filter(|e| e.id == a.id).count(), 1);

    let alices = collection_payload(get_apps_for_agent(&store, GetForAgentInput {
        for_agent: ALICE,
    }));
    assert_eq!(alices.iter().filter(|e| e.id == a.id).count(), 1);

    let bobs = collection_payload(get_apps_for_agent(&store, GetForAgentInput { for_agent: BOB }));
    assert_eq!(bobs.iter().filter(|e| e.id == a.id).count(), 1);

    let carols = collection_payload(get_apps_for_agent(&store, GetForAgentInput {
        for_agent: CAROL,
    }));
    assert!(carols.is_empty());

    let parents = indexer::collection(
        &store.graph,
        Anchor::ByParent(p.id, LinkTypes::App),
        LinkTypes::App,
    );
    assert_eq!(parents, vec![a.id]);

    // the publisher itself is not in any app collection
    assert!(all.iter().all(|e| e.id != p.id));
}

#[test]
fn indexing_is_fixed_at_creation_time() {
    let mut store = AppStore::new();
    let ent = expect_publisher(create_publisher(&mut store, ALICE, 100, publisher_input("Acme")));
    // hand the entity over to Bob; index placement does not move
    let mut props = blank_publisher_props();
    props.editors = Some(vec![BOB]);
    expect_publisher(update_publisher(
        &mut store,
        ALICE,
        200,
        UpdateEntityInput { base: ent.id, properties: props },
    ));
    let alices = collection_payload(get_publishers_for_agent(&store, GetForAgentInput {
        for_agent: ALICE,
    }));
    assert_eq!(alices.len(), 1);
    let bobs =
        collection_payload(get_publishers_for_agent(&store, GetForAgentInput { for_agent: BOB }));
    assert!(bobs.is_empty());
    // the resolved content still reflects the latest revision
    assert_eq!(alices[0].content.editors, vec![BOB]);
}

#[test]
fn my_collections_are_the_callers() {
    let mut store = AppStore::new();
    expect_publisher(create_publisher(&mut store, ALICE, 100, publisher_input("Acme")));
    let mine = collection_payload(get_my_publishers(&store, ALICE));
    assert_eq!(mine.len(), 1);
    let theirs = collection_payload(get_my_publishers(&store, BOB));
    assert!(theirs.is_empty());
}

fn forked_revision(base: &PublisherEntry, name: &str, last_updated: u64) -> EntryTypes {
    let mut entry = base.clone();
    entry.name = name.to_string();
    entry.last_updated = last_updated;
    EntryTypes::Publisher(entry)
}

#[test]
fn fork_resolves_to_latest_timestamp() {
    let mut store = AppStore::new();
    let ent = expect_publisher(create_publisher(&mut store, ALICE, 100, publisher_input("Acme")));
    // two concurrent updates of the same head, as replicated writes arrive
    let r1a = store
        .entities
        .commit_update(ALICE, ent.id, ent.action, forked_revision(&ent.content, "A", 300))
        .expect("commit");
    let r1b = store
        .entities
        .commit_update(ALICE, ent.id, ent.action, forked_revision(&ent.content, "B", 200))
        .expect("commit");
    assert_ne!(r1a.action, r1b.action);

    let got = expect_publisher(get_publisher(&store, GetEntityInput { id: ent.id }));
    assert_eq!(got.action, r1a.action);
    assert_eq!(got.content.name, "A");

    // determinism: a second read with no intervening write answers the same
    let again = expect_publisher(get_publisher(&store, GetEntityInput { id: ent.id }));
    assert_eq!(again.action, got.action);
    assert_eq!(again.content, got.content);
}

#[test]
fn fork_ties_break_by_larger_hash() {
    let mut store = AppStore::new();
    let ent = expect_publisher(create_publisher(&mut store, ALICE, 100, publisher_input("Acme")));
    let r1a = store
        .entities
        .commit_update(ALICE, ent.id, ent.action, forked_revision(&ent.content, "A", 500))
        .expect("commit");
    let r1b = store
        .entities
        .commit_update(ALICE, ent.id, ent.action, forked_revision(&ent.content, "B", 500))
        .expect("commit");
    assert!(r1b.action > r1a.action);

    let got = expect_publisher(get_publisher(&store, GetEntityInput { id: ent.id }));
    assert_eq!(got.action, r1b.action);
    assert_eq!(got.content.name, "B");
}

#[test]
fn commit_update_checks_the_editor_set() {
    let mut store = AppStore::new();
    let ent = expect_publisher(create_publisher(&mut store, ALICE, 100, publisher_input("Acme")));
    let res = store.entities.commit_update(
        BOB,
        ent.id,
        ent.action,
        forked_revision(&ent.content, "B", 500),
    );
    assert_eq!(res.unwrap_err(), ErrorKinds::Unauthorized);
}

#[test]
fn app_update_and_deprecate() {
    let mut store = AppStore::new();
    let p = expect_publisher(create_publisher(&mut store, ALICE, 100, publisher_input("Acme")));
    let a = expect_app(create_app(&mut store, ALICE, 100, app_input("Chat", p.id)));
    assert_eq!(a.content.publisher, p.id);

    let props = app::UpdateProperties {
        title: Some("Chat 2".to_string()),
        subtitle: None,
        description: None,
        icon_src: None,
        source: None,
        hashes: None,
        metadata: Some("m2".to_string()),
        editors: None,
        published_at: None,
        last_updated: None,
    };
    let updated = expect_app(update_app(&mut store, ALICE, 200, UpdateEntityInput {
        base: a.id,
        properties: props,
    }));
    assert_eq!(updated.content.title, "Chat 2");
    assert_eq!(updated.content.last_updated, 200);
    assert_eq!(updated.content.publisher, p.id);
    assert_eq!(updated.content.metadata, Some("m2".to_string()));

    expect_app(deprecate_app(&mut store, ALICE, app::DeprecateInput {
        base: a.id,
        message: "old".to_string(),
    }));
    let got = match get_app(&store, GetEntityInput { id: a.id }) {
        Response::Success { payload, .. } => payload,
        Response::Failure { error, message } => panic!("failure {:?}: {}", error, message),
    };
    assert_eq!(got.content.deprecation.as_ref().expect("notice").message, "old");

    let active = collection_payload(get_non_deprecated_apps(&store));
    assert!(active.is_empty());
    let all = collection_payload(get_all_apps(&store));
    assert_eq!(all.len(), 1);
}

#[test]
fn whoami_echoes_caller() {
    match whoami(CAROL) {
        Response::Success { payload, metadata } => {
            assert_eq!(payload, CAROL);
            assert_eq!(metadata.expect("metadata").composition, "value");
        }
        Response::Failure { .. } => panic!("expected success"),
    }
}

#[test]
fn composition_tags_payload() {
    match composition(7u64, "value") {
        Response::Success { payload, metadata } => {
            assert_eq!(payload, 7);
            assert_eq!(metadata.expect("metadata").composition, "value");
        }
        Response::Failure { .. } => panic!("expected success"),
    }
}

#[test]
fn get_record_reads_raw_revisions() {
    let mut store = AppStore::new();
    let ent = expect_publisher(create_publisher(&mut store, ALICE, 100, publisher_input("Acme")));
    let rec = get_record(&store, ent.id).expect("record");
    assert!(rec.prev.is_none());
    match &rec.content {
        EntryTypes::Publisher(p) => assert_eq!(p.name, "Acme"),
        EntryTypes::App(_) => panic!("wrong kind"),
    }
    assert!(get_record(&store, 99).is_none());
}

#[test]
fn error_kinds_classify_and_describe() {
    assert!(ErrorKinds::NotFound.is_user_correctable());
    assert!(ErrorKinds::Unauthorized.is_user_correctable());
    assert!(ErrorKinds::ValidationError.is_user_correctable());
    assert!(ErrorKinds::UserError.is_user_correctable());
    assert!(!ErrorKinds::StorageFailure.is_user_correctable());
    assert!(!ErrorKinds::AppError.is_user_correctable());
    assert!(!ErrorKinds::Unauthorized.message().is_empty());
}

#[test]
fn deprecation_notice_alternatives_survive_clone() {
    let notice = DeprecationNotice {
        message: "m".to_string(),
        recommended_alternatives: Some(vec![4, 5]),
    };
    let copy = notice.clone();
    assert_eq!(copy, notice);
}

#[test]
fn common_fields_are_shared_across_kinds() {
    let mut store = AppStore::new();
    let p = expect_publisher(create_publisher(&mut store, ALICE, 100, publisher_input("Acme")));
    let a = expect_app(create_app(&mut store, BOB, 200, app_input("Chat", p.id)));
    assert_eq!(p.content.author(), ALICE);
    assert_eq!(a.content.author(), BOB);
    assert_eq!(p.content.published_at(), 100);
    assert_eq!(a.content.last_updated(), 200);
    assert_eq!(p.content.metadata(), &Some("meta".to_string()));
    assert_eq!(a.content.metadata(), &None);
}

#[test]
fn app_create_rejects_empty_title() {
    let mut store = AppStore::new();
    let p = expect_publisher(create_publisher(&mut store, ALICE, 100, publisher_input("Acme")));
    match create_app(&mut store, ALICE, 100, app_input("", p.id)) {
        Response::Success { .. } => panic!("expected failure"),
        Response::Failure { error, .. } => assert_eq!(error, ErrorKinds::ValidationError),
    }
}

#[test]
fn update_replaces_email_and_keeps_description() {
    let mut store = AppStore::new();
    let mut input = publisher_input("Acme");
    input.email = Some("old@acme.example".to_string());
    let ent = expect_publisher(create_publisher(&mut store, ALICE, 100, input));

    let mut props = blank_publisher_props();
    props.email = Some("new@acme.example".to_string());
    expect_publisher(update_publisher(
        &mut store,
        ALICE,
        200,
        UpdateEntityInput { base: ent.id, properties: props },
    ));
    let got = expect_publisher(get_publisher(&store, GetEntityInput { id: ent.id }));
    assert_eq!(got.content.email, Some("new@acme.example".to_string()));
    assert_eq!(got.content.description, Some("a publisher".to_string()));
}

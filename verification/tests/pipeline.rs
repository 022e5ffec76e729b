use apub_engine::deletion::{
    check_removal, normalize_reason, receive_delete_action, receive_remove_action,
};
use apub_engine::dispatch::{process, receive, verify};
use apub_engine::error::{DenyReason, FederationError, ReceiveOutcome};
use apub_engine::followers::{FollowRelationship, Followee};
use apub_engine::iri::Iri;
use apub_engine::objects::{Actor, ActorKind, DeletableObject, ObjectKind};
use apub_engine::policy::{fetch_local_site_data, Instance, LocalSiteData};
use apub_engine::protocol::{
    Activity, Delete, Envelope, EnvelopeObject, Follow, InnerEnvelope, UndoFollow,
};
use apub_engine::settings::{LocalSite, Settings};
use apub_engine::store::{Notification, Store, UserOperationCrud};

fn iri(text: &str) -> Iri {
    Iri::parse(text).unwrap()
}

fn settings() -> Settings {
    Settings { hostname: "lemmy.local".to_string(), tls_enabled: true }
}

fn open_policy() -> LocalSiteData {
    policy(&[], &[])
}

fn policy(allowed: &[&str], blocked: &[&str]) -> LocalSiteData {
    let list = |domains: &[&str]| -> Vec<Instance> {
        domains.iter().map(|d| Instance { id: 1, domain: d.to_string() }).collect()
    };
    fetch_local_site_data(
        Ok(LocalSite { federation_enabled: true, federation_worker_count: 4 }),
        Ok(list(allowed)),
        Ok(list(blocked)),
    )
    .unwrap()
}

fn person(id: i32, actor_id: &str, local: bool) -> Actor {
    Actor {
        kind: ActorKind::Person,
        id,
        actor_id: iri(actor_id),
        inbox: iri(&format!("{}/inbox", actor_id)),
        shared_inbox: None,
        local,
    }
}

fn community_actor(id: i32, actor_id: &str, local: bool) -> Actor {
    Actor {
        kind: ActorKind::Community,
        id,
        actor_id: iri(actor_id),
        inbox: iri(&format!("{}/inbox", actor_id)),
        shared_inbox: None,
        local,
    }
}

fn object(kind: ObjectKind, id: i32, ap_id: &str, local: bool) -> DeletableObject {
    DeletableObject { kind, id, ap_id: iri(ap_id), local, removed: false, deleted: false }
}

const OWNER: &str = "https://lemmy.local/u/olga";
const MODERATOR: &str = "https://remote.example/u/mod";
const EVIL: &str = "https://evil.example/u/mallory";
const FOLLOWER: &str = "https://remote.example/u/paul";
const COMMUNITY: &str = "https://remote.example/c/news";
const LOCAL_COMM: &str = "https://lemmy.local/c/home";
const COMMENT: &str = "https://lemmy.local/comment/1";
const POST: &str = "https://remote.example/post/1";
const MESSAGE: &str = "https://remote.example/private_message/1";

fn world() -> Store {
    let mut store = Store::new();
    store.actors.push(person(1, OWNER, true));
    store.actors.push(person(2, MODERATOR, false));
    store.actors.push(person(3, FOLLOWER, false));
    store.actors.push(person(4, EVIL, false));
    store.actors.push(community_actor(10, COMMUNITY, false));
    store.actors.push(community_actor(11, LOCAL_COMM, true));
    store.objects.push(object(ObjectKind::Community, 10, COMMUNITY, false));
    store.objects.push(object(ObjectKind::Community, 11, LOCAL_COMM, true));
    store.objects.push(object(ObjectKind::Comment, 1, COMMENT, true));
    store.objects.push(object(ObjectKind::Post, 1, POST, false));
    store.objects.push(object(ObjectKind::PrivateMessage, 1, MESSAGE, false));
    store
}

fn delete(id: &str, actor: &str, target: &str, summary: Option<&str>) -> Delete {
    Delete {
        actor: iri(actor),
        to: vec![iri("https://www.w3.org/ns/activitystreams#Public")],
        object: iri(target),
        cc: vec![],
        summary: summary.map(|s| s.to_string()),
        id: iri(id),
        audience: None,
    }
}

fn undo_follow(id: &str, actor: &str, inner_actor: &str, followee: &str) -> UndoFollow {
    UndoFollow {
        actor: iri(actor),
        object: Follow {
            actor: iri(inner_actor),
            object: iri(followee),
            id: iri("https://remote.example/activities/follow/1"),
        },
        id: iri(id),
    }
}

fn find<'a>(store: &'a Store, kind: ObjectKind, id: i32) -> &'a DeletableObject {
    store.objects.iter().find(|o| o.kind == kind && o.id == id).unwrap()
}

fn delete_envelope(id: &str, actor: &str, target: &str, summary: Option<&str>) -> Envelope {
    Envelope {
        id: Some(id.to_string()),
        kind: Some("Delete".to_string()),
        actor: Some(actor.to_string()),
        object: Some(EnvelopeObject::Id(target.to_string())),
        to: vec!["https://www.w3.org/ns/activitystreams#Public".to_string()],
        cc: vec![],
        audience: None,
        summary: summary.map(|s| s.to_string()),
    }
}

#[test]
fn owner_deletes_own_comment() {
    let mut store = world();
    let activity = delete("https://lemmy.local/activities/delete/1", OWNER, COMMENT, None);
    let res = activity.receive("{}".to_string(), &mut store, 100);
    assert_eq!(res, Ok(ReceiveOutcome::Applied));
    assert!(find(&store, ObjectKind::Comment, 1).deleted);
    assert!(!find(&store, ObjectKind::Comment, 1).removed);
    assert!(!find(&store, ObjectKind::Post, 1).deleted);
    assert_eq!(store.mod_log.len(), 0);
    assert_eq!(store.notifications.len(), 0);
    assert_eq!(store.ledger.len(), 1);
}

#[test]
fn moderator_removes_post_with_empty_reason() {
    let mut store = world();
    let activity = delete("https://remote.example/activities/delete/2", MODERATOR, POST, Some(""));
    let res = activity.receive("{\"type\":\"Delete\"}".to_string(), &mut store, 100);
    assert_eq!(res, Ok(ReceiveOutcome::Applied));
    assert!(find(&store, ObjectKind::Post, 1).removed);
    assert!(!find(&store, ObjectKind::Post, 1).deleted);
    assert!(!find(&store, ObjectKind::Comment, 1).removed);
    assert_eq!(store.mod_log.len(), 1);
    let row = &store.mod_log[0];
    assert_eq!(row.kind, ObjectKind::Post);
    assert_eq!(row.moderator, 2);
    assert_eq!(row.target, 1);
    assert_eq!(row.reason, None);
    assert!(row.removed);
    assert_eq!(row.expires, None);
    assert_eq!(
        store.notifications,
        vec![Notification {
            kind: ObjectKind::Post,
            entity_id: 1,
            operation: UserOperationCrud::RemovePost
        }]
    );
    let entry = &store.ledger.entries()[0];
    assert_eq!(entry.ap_id, "https://remote.example/activities/delete/2");
    assert_eq!(entry.payload, "{\"type\":\"Delete\"}");
    assert!(!entry.local);
    assert!(!entry.sensitive);
    assert_eq!(entry.inserted_at, 100);
}

#[test]
fn same_activity_delivered_twice() {
    let mut store = world();
    let id = "https://remote.example/activities/delete/2";
    let first = delete(id, MODERATOR, POST, Some("")).receive("{}".to_string(), &mut store, 100);
    let second = delete(id, MODERATOR, POST, Some("")).receive("{}".to_string(), &mut store, 101);
    assert_eq!(first, Ok(ReceiveOutcome::Applied));
    assert_eq!(second, Ok(ReceiveOutcome::Duplicate));
    assert_eq!(store.mod_log.len(), 1);
    assert_eq!(store.notifications.len(), 1);
    assert_eq!(store.ledger.len(), 1);
    assert_eq!(store.ledger.entries()[0].inserted_at, 100);
}

#[test]
fn blocked_domain_is_rejected_before_the_ledger() {
    let mut store = world();
    let data = policy(&[], &["evil.example"]);
    let envelope =
        delete_envelope("https://evil.example/activities/delete/9", EVIL, POST, Some("spam"));
    let res = process(&envelope, "{}".to_string(), &iri(EVIL), &mut store, &data, &settings(), 1);
    assert_eq!(res, Err(FederationError::DomainRejected(DenyReason::DomainBlocked)));
    assert_eq!(store.ledger.len(), 0);
    assert_eq!(store.mod_log.len(), 0);
    assert_eq!(store.notifications.len(), 0);
    assert!(!find(&store, ObjectKind::Post, 1).removed);
}

#[test]
fn undo_follow_without_follow_is_a_no_op() {
    let mut store = world();
    store.followers.push(FollowRelationship {
        follower: 1,
        followee: Followee::Community(10),
        pending: false,
    });
    let before = store.followers.clone();
    let undo = undo_follow("https://remote.example/activities/undo/1", FOLLOWER, FOLLOWER, COMMUNITY);
    let res = undo.receive("{}".to_string(), &mut store, 1);
    assert_eq!(res, Ok(ReceiveOutcome::Applied));
    assert_eq!(store.followers, before);
    assert_eq!(store.mod_log.len(), 0);
    assert_eq!(store.ledger.len(), 1);
    assert!(store.ledger.entries()[0].sensitive);
}

#[test]
fn remote_removal_of_local_community_is_forbidden() {
    let mut store = world();
    let activity =
        delete("https://remote.example/activities/delete/3", MODERATOR, LOCAL_COMM, Some("rules"));
    let res = activity.receive("{}".to_string(), &mut store, 1);
    assert_eq!(res, Err(FederationError::Forbidden));
    assert!(!find(&store, ObjectKind::Community, 11).removed);
    assert!(!find(&store, ObjectKind::Community, 11).deleted);
    assert_eq!(store.mod_log.len(), 0);
    assert_eq!(store.notifications.len(), 0);
    assert_eq!(store.ledger.len(), 1);
}

#[test]
fn local_community_is_guarded_even_for_unknown_senders() {
    let mut store = world();
    let activity = delete(
        "https://remote.example/activities/delete/4",
        "https://remote.example/u/nobody",
        LOCAL_COMM,
        Some(""),
    );
    assert_eq!(activity.receive("{}".to_string(), &mut store, 1), Err(FederationError::Forbidden));
    assert_eq!(store.mod_log.len(), 0);
}

#[test]
fn reason_is_stored_unless_empty() {
    let mut store = world();
    let spam = delete("https://remote.example/activities/delete/5", MODERATOR, POST, Some("spam"));
    assert_eq!(spam.receive("{}".to_string(), &mut store, 1), Ok(ReceiveOutcome::Applied));
    let empty = delete("https://remote.example/activities/delete/6", MODERATOR, COMMENT, Some(""));
    assert_eq!(empty.receive("{}".to_string(), &mut store, 2), Ok(ReceiveOutcome::Applied));
    let own = delete("https://remote.example/activities/delete/7", MODERATOR, MESSAGE, None);
    assert_eq!(own.receive("{}".to_string(), &mut store, 3), Ok(ReceiveOutcome::Applied));
    assert_eq!(store.mod_log.len(), 2);
    assert_eq!(store.mod_log[0].reason, Some("spam".to_string()));
    assert_eq!(store.mod_log[0].kind, ObjectKind::Post);
    assert_eq!(store.mod_log[1].reason, None);
    assert_eq!(store.mod_log[1].kind, ObjectKind::Comment);
    assert_eq!(store.notifications[1].operation, UserOperationCrud::RemoveComment);
    assert!(find(&store, ObjectKind::PrivateMessage, 1).deleted);
    assert_eq!(normalize_reason(String::new()), None);
    assert_eq!(normalize_reason("spam".to_string()), Some("spam".to_string()));
    assert_eq!(normalize_reason(" ".to_string()), Some(" ".to_string()));
}

#[test]
fn remote_community_can_be_removed() {
    let mut store = world();
    let activity = delete("https://remote.example/activities/delete/8", MODERATOR, COMMUNITY, Some("gone"));
    assert_eq!(activity.receive("{}".to_string(), &mut store, 1), Ok(ReceiveOutcome::Applied));
    assert!(find(&store, ObjectKind::Community, 10).removed);
    assert_eq!(store.mod_log[0].kind, ObjectKind::Community);
    assert_eq!(store.mod_log[0].target, 10);
    assert_eq!(store.mod_log[0].reason, Some("gone".to_string()));
    assert_eq!(
        store.notifications,
        vec![Notification {
            kind: ObjectKind::Community,
            entity_id: 10,
            operation: UserOperationCrud::RemoveCommunity
        }]
    );
}

#[test]
fn private_message_removal_is_not_implemented() {
    let mut store = world();
    let res = receive_remove_action(&iri(MODERATOR), &iri(MESSAGE), Some("x".to_string()), &mut store);
    assert_eq!(res, Err(FederationError::NotImplemented));
    assert_eq!(store.mod_log.len(), 0);
    assert!(!find(&store, ObjectKind::PrivateMessage, 1).removed);
    assert_eq!(
        check_removal(&object(ObjectKind::PrivateMessage, 1, MESSAGE, true)),
        Err(FederationError::NotImplemented)
    );
    assert_eq!(
        check_removal(&object(ObjectKind::Community, 1, COMMUNITY, true)),
        Err(FederationError::Forbidden)
    );
    assert_eq!(
        check_removal(&object(ObjectKind::Community, 1, COMMUNITY, false)),
        Ok(UserOperationCrud::RemoveCommunity)
    );
    assert_eq!(
        check_removal(&object(ObjectKind::Post, 1, POST, true)),
        Ok(UserOperationCrud::RemovePost)
    );
    assert_eq!(
        check_removal(&object(ObjectKind::Comment, 1, COMMENT, true)),
        Ok(UserOperationCrud::RemoveComment)
    );
}

#[test]
fn unknown_object_or_moderator_is_not_found() {
    let mut store = world();
    let missing = iri("https://remote.example/post/404");
    assert_eq!(
        receive_remove_action(&iri(MODERATOR), &missing, None, &mut store),
        Err(FederationError::ObjectNotFound)
    );
    assert_eq!(
        receive_delete_action(&missing, true, &mut store),
        Err(FederationError::ObjectNotFound)
    );
    assert_eq!(
        receive_remove_action(&iri("https://remote.example/u/ghost"), &iri(POST), None, &mut store),
        Err(FederationError::ObjectNotFound)
    );
    assert_eq!(
        receive_remove_action(&iri(COMMUNITY), &iri(POST), None, &mut store),
        Err(FederationError::ObjectNotFound)
    );
    assert_eq!(store.mod_log.len(), 0);
    assert!(!find(&store, ObjectKind::Post, 1).removed);
}

#[test]
fn deletion_can_be_withdrawn() {
    let mut store = world();
    assert_eq!(receive_delete_action(&iri(COMMENT), true, &mut store), Ok(()));
    assert!(find(&store, ObjectKind::Comment, 1).deleted);
    assert_eq!(receive_delete_action(&iri(COMMENT), false, &mut store), Ok(()));
    assert!(!find(&store, ObjectKind::Comment, 1).deleted);
}

#[test]
fn follow_then_undo_follow() {
    let mut store = world();
    let follow = Follow {
        actor: iri(FOLLOWER),
        object: iri(COMMUNITY),
        id: iri("https://remote.example/activities/follow/1"),
    };
    assert_eq!(follow.receive("{}".to_string(), &mut store, 1), Ok(ReceiveOutcome::Applied));
    assert_eq!(
        store.followers,
        vec![FollowRelationship { follower: 3, followee: Followee::Community(10), pending: false }]
    );
    let again = Follow {
        actor: iri(FOLLOWER),
        object: iri(COMMUNITY),
        id: iri("https://remote.example/activities/follow/2"),
    };
    assert_eq!(again.receive("{}".to_string(), &mut store, 2), Ok(ReceiveOutcome::Applied));
    assert_eq!(store.followers.len(), 1);
    let person_follow = Follow {
        actor: iri(FOLLOWER),
        object: iri(OWNER),
        id: iri("https://remote.example/activities/follow/3"),
    };
    assert_eq!(person_follow.receive("{}".to_string(), &mut store, 3), Ok(ReceiveOutcome::Applied));
    assert_eq!(store.followers[1].followee, Followee::Person(1));

    let undo = undo_follow("https://remote.example/activities/undo/1", FOLLOWER, FOLLOWER, COMMUNITY);
    assert_eq!(undo.receive("{}".to_string(), &mut store, 4), Ok(ReceiveOutcome::Applied));
    assert_eq!(
        store.followers,
        vec![FollowRelationship { follower: 3, followee: Followee::Person(1), pending: false }]
    );
    let replay = undo_follow("https://remote.example/activities/undo/1", FOLLOWER, FOLLOWER, COMMUNITY);
    assert_eq!(replay.receive("{}".to_string(), &mut store, 5), Ok(ReceiveOutcome::Duplicate));
    assert_eq!(store.followers.len(), 1);
    assert_eq!(store.ledger.len(), 4);
}

#[test]
fn undo_follow_needs_known_actor_and_followee() {
    let mut store = world();
    let ghost = "https://remote.example/u/ghost";
    let undo = undo_follow("https://remote.example/activities/undo/2", ghost, ghost, COMMUNITY);
    assert_eq!(undo.receive("{}".to_string(), &mut store, 1), Err(FederationError::ObjectNotFound));
    let undo = undo_follow(
        "https://remote.example/activities/undo/3",
        FOLLOWER,
        FOLLOWER,
        "https://remote.example/c/unknown",
    );
    assert_eq!(undo.receive("{}".to_string(), &mut store, 1), Err(FederationError::ObjectNotFound));
    assert_eq!(store.followers.len(), 0);
}

#[test]
fn verify_checks_actor_consistency() {
    let store = world();
    let data = open_policy();
    let s = settings();
    let mismatch = Activity::UndoFollow(undo_follow(
        "https://remote.example/activities/undo/1",
        FOLLOWER,
        MODERATOR,
        COMMUNITY,
    ));
    assert_eq!(
        verify(&mismatch, &iri(FOLLOWER), &store, &data, &s),
        Err(FederationError::ActorMismatch)
    );
    let fine = Activity::UndoFollow(undo_follow(
        "https://remote.example/activities/undo/1",
        FOLLOWER,
        FOLLOWER,
        COMMUNITY,
    ));
    assert_eq!(verify(&fine, &iri(FOLLOWER), &store, &data, &s), Ok(()));
    assert_eq!(
        verify(&fine, &iri(MODERATOR), &store, &data, &s),
        Err(FederationError::ActorMismatch)
    );
    let unknown = Activity::UndoFollow(undo_follow(
        "https://remote.example/activities/undo/1",
        FOLLOWER,
        FOLLOWER,
        "https://remote.example/c/unknown",
    ));
    assert_eq!(
        verify(&unknown, &iri(FOLLOWER), &store, &data, &s),
        Err(FederationError::ObjectNotFound)
    );
}

#[test]
fn verify_is_strict_for_what_belongs_to_a_community() {
    let store = world();
    let data = policy(&["friend.example"], &[]);
    let s = settings();
    let on_post = delete("https://remote.example/activities/delete/1", MODERATOR, POST, Some("x"));
    assert_eq!(
        on_post.verify(&store, &data, &s),
        Err(FederationError::DomainRejected(DenyReason::ForbiddenByStrictAllowlist))
    );
    let on_message = delete("https://remote.example/activities/delete/2", MODERATOR, MESSAGE, None);
    assert_eq!(
        on_message.verify(&store, &data, &s),
        Err(FederationError::DomainRejected(DenyReason::DomainNotInAllowlist))
    );
    let mut with_audience = delete("https://remote.example/activities/delete/3", MODERATOR, MESSAGE, None);
    with_audience.audience = Some(iri(COMMUNITY));
    assert_eq!(
        with_audience.verify(&store, &data, &s),
        Err(FederationError::DomainRejected(DenyReason::ForbiddenByStrictAllowlist))
    );
    let local = delete("https://lemmy.local/activities/delete/4", OWNER, COMMENT, None);
    assert_eq!(local.verify(&store, &data, &s), Ok(()));
    let follow_community = Follow {
        actor: iri(FOLLOWER),
        object: iri(COMMUNITY),
        id: iri("https://remote.example/activities/follow/1"),
    };
    assert_eq!(
        follow_community.verify(&store, &data, &s),
        Err(FederationError::DomainRejected(DenyReason::ForbiddenByStrictAllowlist))
    );
    let follow_person = Follow {
        actor: iri(FOLLOWER),
        object: iri(OWNER),
        id: iri("https://remote.example/activities/follow/2"),
    };
    assert_eq!(
        follow_person.verify(&store, &data, &s),
        Err(FederationError::DomainRejected(DenyReason::DomainNotInAllowlist))
    );
}

#[test]
fn identifier_without_domain_is_malformed() {
    let store = world();
    let activity = delete("https://10.0.0.1/activities/delete/1", MODERATOR, POST, None);
    assert_eq!(
        activity.verify(&store, &open_policy(), &settings()),
        Err(FederationError::MalformedActivity)
    );
}

#[test]
fn process_runs_the_whole_pipeline() {
    let mut store = world();
    let data = open_policy();
    let s = settings();
    let envelope =
        delete_envelope("https://remote.example/activities/delete/1", MODERATOR, POST, Some("spam"));
    let res = process(&envelope, "raw".to_string(), &iri(MODERATOR), &mut store, &data, &s, 7);
    assert_eq!(res, Ok(ReceiveOutcome::Applied));
    assert!(find(&store, ObjectKind::Post, 1).removed);
    assert_eq!(store.mod_log[0].reason, Some("spam".to_string()));
    assert_eq!(store.ledger.entries()[0].payload, "raw");
    let res = process(&envelope, "raw".to_string(), &iri(MODERATOR), &mut store, &data, &s, 8);
    assert_eq!(res, Ok(ReceiveOutcome::Duplicate));
    assert_eq!(store.mod_log.len(), 1);

    let wrong_sender = process(&envelope, "raw".to_string(), &iri(FOLLOWER), &mut store, &data, &s, 9);
    assert_eq!(wrong_sender, Err(FederationError::ActorMismatch));
}

#[test]
fn process_rejects_malformed_envelopes() {
    let mut store = world();
    let data = open_policy();
    let s = settings();
    let good = || delete_envelope("https://remote.example/activities/delete/1", MODERATOR, POST, None);
    let mut cases: Vec<Envelope> = Vec::new();
    let mut e = good();
    e.id = None;
    cases.push(e);
    let mut e = good();
    e.kind = None;
    cases.push(e);
    let mut e = good();
    e.kind = Some("Announce".to_string());
    cases.push(e);
    let mut e = good();
    e.actor = None;
    cases.push(e);
    let mut e = good();
    e.object = None;
    cases.push(e);
    let mut e = good();
    e.id = Some("not a url".to_string());
    cases.push(e);
    let mut e = good();
    e.to = vec!["https://ok.example/".to_string(), "nope".to_string()];
    cases.push(e);
    let mut e = good();
    e.audience = Some("nope".to_string());
    cases.push(e);
    let mut e = good();
    e.kind = Some("Undo".to_string());
    cases.push(e);
    let mut e = good();
    e.kind = Some("Follow".to_string());
    e.object = Some(EnvelopeObject::Nested(InnerEnvelope {
        id: Some("https://remote.example/x".to_string()),
        kind: None,
        actor: None,
        object: None,
    }));
    cases.push(e);
    for envelope in cases {
        let res = process(&envelope, "{}".to_string(), &iri(MODERATOR), &mut store, &data, &s, 1);
        assert_eq!(res, Err(FederationError::MalformedActivity));
    }
    assert_eq!(store.ledger.len(), 0);
}

#[test]
fn envelopes_are_parsed_by_kind() {
    let undo = Envelope {
        id: Some("https://remote.example/activities/undo/1".to_string()),
        kind: Some("Undo".to_string()),
        actor: Some(FOLLOWER.to_string()),
        object: Some(EnvelopeObject::Nested(InnerEnvelope {
            id: Some("https://remote.example/activities/follow/1".to_string()),
            kind: Some("Follow".to_string()),
            actor: Some(FOLLOWER.to_string()),
            object: Some(COMMUNITY.to_string()),
        })),
        to: vec![],
        cc: vec![],
        audience: None,
        summary: None,
    };
    match Activity::parse(&undo) {
        Ok(Activity::UndoFollow(u)) => {
            assert_eq!(u.id.text, "https://remote.example/activities/undo/1");
            assert_eq!(u.actor.text, FOLLOWER);
            assert_eq!(u.object.actor.text, FOLLOWER);
            assert_eq!(u.object.object.text, COMMUNITY);
            assert_eq!(u.object.id.text, "https://remote.example/activities/follow/1");
        }
        _ => panic!("expected an undo of a follow"),
    }
    let follow = Envelope {
        id: Some("https://remote.example/activities/follow/1".to_string()),
        kind: Some("Follow".to_string()),
        actor: Some(FOLLOWER.to_string()),
        object: Some(EnvelopeObject::Id(COMMUNITY.to_string())),
        to: vec![],
        cc: vec![],
        audience: None,
        summary: None,
    };
    let parsed = Activity::parse(&follow).ok().unwrap();
    assert_eq!(parsed.id().text, "https://remote.example/activities/follow/1");
    assert_eq!(parsed.actor().text, FOLLOWER);
    assert!(matches!(parsed, Activity::Follow(_)));

    let mut nested_delete =
        delete_envelope("https://remote.example/activities/delete/1", MODERATOR, POST, Some(""));
    nested_delete.object = Some(EnvelopeObject::Nested(InnerEnvelope {
        id: Some(POST.to_string()),
        kind: Some("Tombstone".to_string()),
        actor: None,
        object: None,
    }));
    nested_delete.cc = vec![COMMUNITY.to_string()];
    nested_delete.audience = Some(COMMUNITY.to_string());
    match Activity::parse(&nested_delete) {
        Ok(Activity::Delete(d)) => {
            assert_eq!(d.object.text, POST);
            assert_eq!(d.summary, Some(String::new()));
            assert_eq!(d.cc.len(), 1);
            assert_eq!(d.cc[0].text, COMMUNITY);
            assert_eq!(d.audience.map(|a| a.text), Some(COMMUNITY.to_string()));
            assert_eq!(d.to.len(), 1);
        }
        _ => panic!("expected a deletion"),
    }

    let mut inner_not_follow = undo;
    inner_not_follow.object = Some(EnvelopeObject::Nested(InnerEnvelope {
        id: Some("https://remote.example/activities/like/1".to_string()),
        kind: Some("Like".to_string()),
        actor: Some(FOLLOWER.to_string()),
        object: Some(COMMUNITY.to_string()),
    }));
    assert!(matches!(Activity::parse(&inner_not_follow), Err(FederationError::MalformedActivity)));
}

#[test]
fn receive_dispatches_by_kind() {
    let mut store = world();
    let res = receive(
        Activity::Delete(delete("https://lemmy.local/activities/delete/1", OWNER, COMMENT, None)),
        "{}".to_string(),
        &mut store,
        1,
    );
    assert_eq!(res, Ok(ReceiveOutcome::Applied));
    let res = receive(
        Activity::Follow(Follow {
            actor: iri(FOLLOWER),
            object: iri(COMMUNITY),
            id: iri("https://remote.example/activities/follow/1"),
        }),
        "{}".to_string(),
        &mut store,
        2,
    );
    assert_eq!(res, Ok(ReceiveOutcome::Applied));
    let res = receive(
        Activity::UndoFollow(undo_follow("https://remote.example/activities/undo/1", FOLLOWER, FOLLOWER, COMMUNITY)),
        "{}".to_string(),
        &mut store,
        3,
    );
    assert_eq!(res, Ok(ReceiveOutcome::Applied));
    assert!(find(&store, ObjectKind::Comment, 1).deleted);
    assert_eq!(store.followers.len(), 0);
    assert_eq!(store.ledger.len(), 3);
    assert!(!store.ledger.entries()[0].sensitive);
    assert!(store.ledger.entries()[1].sensitive);
}

//! Deletions and removals. One activity stands for two operations: without a summary the
//! owner deletes their own content; with one, a moderator removes it and the log keeps the
//! reason.

use crate::activity_id::{generate_activity_id, is_activity_id, some_nonce_gives_no_id};
use crate::error::{FederationError, ReceiveOutcome};
use crate::iri::{Iri, IriView};
use crate::ledger::{insert_activity, insert_spec, InsertOutcome, LedgerEntryView};
use crate::objects::{
    find_actor, find_actor_spec, resolve, resolve_spec, update_deleted_flag, update_removed_flag,
    with_deleted, with_removed, Actor, ActorKind, ActorView, DeletableObject,
    DeletableObjectView, ObjectKind,
};
use crate::policy::{check_apub_id_valid_with_strictness, check_spec, Decision, LocalSiteData, PolicySnapshot};
use crate::protocol::{ActivityKind, Delete, DeleteView};
use crate::settings::Settings;
use crate::store::{
    ModerationRecord, ModerationRecordView, Notification, Store, StoreView, UserOperationCrud,
};
use vstd::prelude::*;
use vstd::string::*;

verus! {

/// The reason that the log keeps for a summary: none for an empty one.
pub open spec fn normalized_reason(summary: Seq<char>) -> Option<Seq<char>> {
    if summary.len() == 0 {
        None
    } else {
        Some(summary)
    }
}

/// Turns a summary into the reason to log.
pub fn normalize_reason(summary: String) -> (reason: Option<String>)
    ensures
        reason.deep_view() == normalized_reason(summary@),
{
    if summary.as_str().is_empty() {
        None
    } else {
        Some(summary)
    }
}

/// Whether a removal of this object may go ahead, and with which notification. A community
/// that this instance hosts cannot be removed from outside; private messages have no
/// removal.
pub open spec fn removal_guard(object: DeletableObjectView) -> Result<
    UserOperationCrud,
    FederationError,
> {
    match object.kind {
        ObjectKind::Community => if object.local {
            Err(FederationError::Forbidden)
        } else {
            Ok(UserOperationCrud::RemoveCommunity)
        },
        ObjectKind::Post => Ok(UserOperationCrud::RemovePost),
        ObjectKind::Comment => Ok(UserOperationCrud::RemoveComment),
        ObjectKind::PrivateMessage => Err(FederationError::NotImplemented),
    }
}

/// Decides whether a removal of this object may go ahead.
pub fn check_removal(object: &DeletableObject) -> (res: Result<UserOperationCrud, FederationError>)
    ensures
        res == removal_guard(object@),
{
    match object.kind {
        ObjectKind::Community => {
            if object.local {
                Err(FederationError::Forbidden)
            } else {
                Ok(UserOperationCrud::RemoveCommunity)
            }
        },
        ObjectKind::Post => Ok(UserOperationCrud::RemovePost),
        ObjectKind::Comment => Ok(UserOperationCrud::RemoveComment),
        ObjectKind::PrivateMessage => Err(FederationError::NotImplemented),
    }
}

/// The person that an identifier names.
pub open spec fn find_person_spec(actors: Seq<ActorView>, iri: Seq<char>) -> Option<ActorView> {
    match find_actor_spec(actors, iri) {
        Some(actor) => if actor.kind == ActorKind::Person {
            Some(actor)
        } else {
            None
        },
        None => None,
    }
}

/// Finds the person that an identifier names.
pub fn find_person(actors: &Vec<Actor>, iri: &Iri) -> (person: Option<Actor>)
    ensures
        person.deep_view() == find_person_spec(actors.deep_view(), iri@.text),
{
    match find_actor(actors, iri) {
        Some(actor) => {
            if actor.kind == ActorKind::Person {
                Some(actor)
            } else {
                None
            }
        },
        None => None,
    }
}

/// The store after a committed removal: one more log entry, the object's rows flagged as
/// removed, one more notification.
pub open spec fn removal_committed(
    store: StoreView,
    record: ModerationRecordView,
    operation: UserOperationCrud,
) -> StoreView {
    StoreView {
        mod_log: store.mod_log.push(record),
        objects: with_removed(store.objects, record.kind, record.target, true),
        notifications: store.notifications.push(
            Notification { kind: record.kind, entity_id: record.target, operation },
        ),
        ..store
    }
}

/// A moderator's removal of the object that `object` names: the outcome and the store
/// after it. Every failure leaves the store as it was.
pub open spec fn remove_action_spec(
    store: StoreView,
    moderator: Seq<char>,
    object: Seq<char>,
    reason: Option<Seq<char>>,
) -> (Result<(), FederationError>, StoreView) {
    match resolve_spec(store.objects, object) {
        None => (Err(FederationError::ObjectNotFound), store),
        Some(target) => match removal_guard(target) {
            Err(e) => (Err(e), store),
            Ok(operation) => match find_person_spec(store.actors, moderator) {
                None => (Err(FederationError::ObjectNotFound), store),
                Some(person) => (
                    Ok(()),
                    removal_committed(
                        store,
                        ModerationRecordView {
                            kind: target.kind,
                            moderator: person.id,
                            target: target.id,
                            reason,
                            removed: true,
                            expires: None,
                        },
                        operation,
                    ),
                ),
            },
        },
    }
}

/// The owner's deletion, or its withdrawal, of the object that `object` names.
pub open spec fn delete_action_spec(store: StoreView, object: Seq<char>, deleted: bool) -> (
    Result<(), FederationError>,
    StoreView,
) {
    match resolve_spec(store.objects, object) {
        None => (Err(FederationError::ObjectNotFound), store),
        Some(target) => (
            Ok(()),
            StoreView {
                objects: with_deleted(store.objects, target.kind, target.id, deleted),
                ..store
            },
        ),
    }
}

/// Writes the log entry, flags the object and asks for the notification, as one step.
pub fn commit_removal(store: &mut Store, record: ModerationRecord, operation: UserOperationCrud)
    ensures
        final(store)@ == removal_committed(old(store)@, record@, operation),
{
    let kind = record.kind;
    let target = record.target;
    let ghost log = store.mod_log.deep_view();
    store.mod_log.push(record);
    assert(store.mod_log.deep_view() =~= log.push(record@));
    update_removed_flag(&mut store.objects, kind, target, true);
    store.notifications.push(Notification { kind, entity_id: target, operation });
}

/// Applies a moderator's removal to the object that `object` names. The object is found
/// first, then the removal is checked against its kind and authority, then the moderator is
/// found; only then is anything written.
pub fn receive_remove_action(
    moderator: &Iri,
    object: &Iri,
    reason: Option<String>,
    store: &mut Store,
) -> (res: Result<(), FederationError>)
    ensures
        (res, final(store)@) == remove_action_spec(
            old(store)@,
            moderator@.text,
            object@.text,
            reason.deep_view(),
        ),
{
    let target = match resolve(&store.objects, object) {
        Some(target) => target,
        None => {
            return Err(FederationError::ObjectNotFound);
        },
    };
    let operation = match check_removal(&target) {
        Ok(operation) => operation,
        Err(e) => {
            return Err(e);
        },
    };
    let person = match find_person(&store.actors, moderator) {
        Some(person) => person,
        None => {
            return Err(FederationError::ObjectNotFound);
        },
    };
    let record = ModerationRecord {
        kind: target.kind,
        moderator: person.id,
        target: target.id,
        reason,
        removed: true,
        expires: None,
    };
    commit_removal(store, record, operation);
    Ok(())
}

/// Applies the owner's deletion to the object that `object` names, whatever its kind. No
/// log entry is written.
pub fn receive_delete_action(object: &Iri, deleted: bool, store: &mut Store) -> (res: Result<
    (),
    FederationError,
>)
    ensures
        (res, final(store)@) == delete_action_spec(old(store)@, object@.text, deleted),
{
    match resolve(&store.objects, object) {
        Some(target) => {
            update_deleted_flag(&mut store.objects, target.kind, target.id, deleted);
            Ok(())
        },
        None => Err(FederationError::ObjectNotFound),
    }
}

/// What becomes of a received deletion: the outcome and the store after it. The ledger is
/// written first; where it holds the id already, nothing else happens.
pub open spec fn receive_delete_spec(
    store: StoreView,
    delete: DeleteView,
    payload: Seq<char>,
    now: u64,
) -> (Result<ReceiveOutcome, FederationError>, StoreView) {
    let (outcome, ledger) = insert_spec(
        store.ledger,
        LedgerEntryView {
            ap_id: delete.id.text,
            payload,
            local: false,
            sensitive: false,
            inserted_at: now,
        },
    );
    match outcome {
        InsertOutcome::Duplicate => (Ok(ReceiveOutcome::Duplicate), store),
        InsertOutcome::Inserted => {
            let logged = StoreView { ledger, ..store };
            let (res, after) = match delete.summary {
                Some(summary) => remove_action_spec(
                    logged,
                    delete.actor.text,
                    delete.object.text,
                    normalized_reason(summary),
                ),
                None => delete_action_spec(logged, delete.object.text, true),
            };
            match res {
                Ok(_) => (Ok(ReceiveOutcome::Applied), after),
                Err(e) => (Err(e), after),
            }
        },
    }
}

/// Whether a deletion is checked in strict mode: when it names a community as its audience,
/// or its object is a community, a post or a comment.
pub open spec fn delete_is_strict(store: StoreView, delete: DeleteView) -> bool {
    delete.audience is Some || match resolve_spec(store.objects, delete.object.text) {
        Some(target) => target.kind != ObjectKind::PrivateMessage,
        None => false,
    }
}

/// The domain policy applied to an activity's id and to its actor, in this order.
pub open spec fn verify_domains_spec(
    id: IriView,
    actor: IriView,
    policy: PolicySnapshot,
    settings: Settings,
    strict: bool,
) -> Result<(), FederationError> {
    if id.domain is None || actor.domain is None {
        Err(FederationError::MalformedActivity)
    } else {
        match check_spec(id.domain->0, id.scheme, policy, settings, strict) {
            Decision::Deny(reason) => Err(FederationError::DomainRejected(reason)),
            Decision::Allow => match check_spec(
                actor.domain->0,
                actor.scheme,
                policy,
                settings,
                strict,
            ) {
                Decision::Deny(reason) => Err(FederationError::DomainRejected(reason)),
                Decision::Allow => Ok(()),
            },
        }
    }
}

/// Applies the domain policy to an activity's id and to its actor. An identifier whose host
/// is no domain name is malformed.
pub fn verify_domains(
    id: &Iri,
    actor: &Iri,
    local_site_data: &LocalSiteData,
    settings: &Settings,
    strict: bool,
) -> (res: Result<(), FederationError>)
    ensures
        res == verify_domains_spec(id@, actor@, local_site_data@, *settings, strict),
{
    if id.domain.is_none() || actor.domain.is_none() {
        return Err(FederationError::MalformedActivity);
    }
    match check_apub_id_valid_with_strictness(id, strict, local_site_data, settings) {
        Ok(_) => {},
        Err(e) => {
            return Err(e);
        },
    }
    match check_apub_id_valid_with_strictness(actor, strict, local_site_data, settings) {
        Ok(_) => Ok(()),
        Err(e) => Err(e),
    }
}

/// The fields of a deletion that this instance sends.
pub open spec fn delete_fields(
    id: IriView,
    actor: ActorView,
    object: DeletableObjectView,
    to: IriView,
    community: Option<ActorView>,
    summary: Option<Seq<char>>,
) -> DeleteView {
    DeleteView {
        actor: actor.actor_id,
        to: seq![to],
        object: object.ap_id,
        cc: match community {
            Some(c) => seq![c.actor_id],
            None => Seq::empty(),
        },
        summary,
        id,
        audience: match community {
            Some(c) => Some(c.actor_id),
            None => None,
        },
    }
}

impl Delete {
    /// The activity's id.
    pub fn id(&self) -> (id: &Iri)
        ensures
            id == self.id,
    {
        &self.id
    }

    /// The actor that sent the activity.
    pub fn actor(&self) -> (actor: &Iri)
        ensures
            actor == self.actor,
    {
        &self.actor
    }

    /// Checks the activity's id and actor against the domain policy.
    pub fn verify(&self, store: &Store, local_site_data: &LocalSiteData, settings: &Settings) -> (res:
        Result<(), FederationError>)
        ensures
            res == verify_domains_spec(
                self@.id,
                self@.actor,
                local_site_data@,
                *settings,
                delete_is_strict(store@, self@),
            ),
    {
        let strict = self.audience.is_some() || match resolve(&store.objects, &self.object) {
            Some(target) => target.kind != ObjectKind::PrivateMessage,
            None => false,
        };
        verify_domains(&self.id, &self.actor, local_site_data, settings, strict)
    }

    /// Records the activity in the ledger and, unless it was there already, applies it: a
    /// removal where there is a summary, the owner's deletion where there is none.
    pub fn receive(self, payload: String, store: &mut Store, now: u64) -> (res: Result<
        ReceiveOutcome,
        FederationError,
    >)
        ensures
            (res, final(store)@) == receive_delete_spec(old(store)@, self@, payload@, now),
    {
        match insert_activity(&self.id, payload, false, false, &mut store.ledger, now) {
            InsertOutcome::Duplicate => Ok(ReceiveOutcome::Duplicate),
            InsertOutcome::Inserted => {
                let res = match self.summary {
                    Some(summary) => {
                        let reason = normalize_reason(summary);
                        receive_remove_action(&self.actor, &self.object, reason, store)
                    },
                    None => receive_delete_action(&self.object, true, store),
                };
                match res {
                    Ok(_) => Ok(ReceiveOutcome::Applied),
                    Err(e) => Err(e),
                }
            },
        }
    }

    /// Puts a deletion together from its id and what it is about: it goes to `to`, and to
    /// the community, if there is one, as copy and audience.
    pub fn with_id(
        id: Iri,
        actor: &Actor,
        object: &DeletableObject,
        to: Iri,
        community: Option<&Actor>,
        summary: Option<String>,
    ) -> (delete: Delete)
        ensures
            delete@ == delete_fields(
                id@,
                actor@,
                object@,
                to@,
                match community {
                    Some(c) => Some(c@),
                    None => None,
                },
                summary.deep_view(),
            ),
    {
        let mut cc: Vec<Iri> = Vec::new();
        let audience = match community {
            Some(c) => {
                cc.push(c.actor_id.clone());
                Some(c.actor_id.clone())
            },
            None => None,
        };
        let mut recipients: Vec<Iri> = Vec::new();
        recipients.push(to);
        let delete = Delete {
            actor: actor.actor_id.clone(),
            to: recipients,
            object: object.id(),
            cc,
            summary,
            id,
            audience,
        };
        proof {
            assert(delete.to.deep_view() =~= seq![to@]);
            match community {
                Some(c) => {
                    assert(delete.cc.deep_view() =~= seq![c@.actor_id]);
                },
                None => {
                    assert(delete.cc.deep_view() =~= Seq::<IriView>::empty());
                },
            }
        }
        delete
    }

    /// Builds a deletion with a fresh id. The id's nonce is random; the rest is as
    /// `with_id` has it. It fails only where the text that some nonce makes is no URL.
    pub fn new(
        actor: &Actor,
        object: &DeletableObject,
        to: Iri,
        community: Option<&Actor>,
        summary: Option<String>,
        settings: &Settings,
    ) -> (res: Result<Delete, FederationError>)
        ensures
            match res {
                Ok(delete) => {
                    &&& is_activity_id(
                        settings.protocol_and_hostname(),
                        ActivityKind::Delete,
                        delete@.id,
                    )
                    &&& delete@ == delete_fields(
                        delete@.id,
                        actor@,
                        object@,
                        to@,
                        match community {
                            Some(c) => Some(c@),
                            None => None,
                        },
                        summary.deep_view(),
                    )
                },
                Err(e) => e == FederationError::MalformedActivity && some_nonce_gives_no_id(
                    settings.protocol_and_hostname(),
                    ActivityKind::Delete,
                ),
            },
    {
        let base = settings.get_protocol_and_hostname();
        match generate_activity_id(ActivityKind::Delete, base.as_str()) {
            Ok(id) => Ok(Delete::with_id(id, actor, object, to, community, summary)),
            Err(e) => Err(e),
        }
    }
}

} // verus!

//! Follows and their withdrawal.

use crate::activity_id::{generate_activity_id, is_activity_id, some_nonce_gives_no_id};
use crate::deletion::{find_person, find_person_spec, verify_domains, verify_domains_spec};
use crate::error::{FederationError, ReceiveOutcome};
use crate::followers::{follow, follow_spec, unfollow, unfollow_spec, FollowRelationship, Followee};
use crate::iri::{Iri, IriView};
use crate::ledger::{insert_activity, insert_spec, InsertOutcome, LedgerEntryView};
use crate::objects::{find_actor, find_actor_spec, Actor, ActorKind, ActorView};
use crate::policy::{LocalSiteData, PolicySnapshot};
use crate::protocol::{
    Activity, ActivityKind, ActivityView, Follow, FollowView, UndoFollow, UndoFollowView,
};
use crate::settings::Settings;
use crate::store::{Store, StoreView};
use vstd::prelude::*;
use vstd::string::*;

verus! {

/// Checks that two identifiers name the same thing.
pub fn verify_urls_match(a: &Iri, b: &Iri) -> (res: Result<(), FederationError>)
    ensures
        res == if a@.text == b@.text {
            Ok::<(), FederationError>(())
        } else {
            Err::<(), FederationError>(FederationError::ActorMismatch)
        },
{
    if a.same(b) {
        Ok(())
    } else {
        Err(FederationError::ActorMismatch)
    }
}

/// An actor as something to follow.
pub open spec fn followee_of(actor: ActorView) -> Followee {
    match actor.kind {
        ActorKind::Person => Followee::Person(actor.id),
        ActorKind::Community => Followee::Community(actor.id),
    }
}

/// The relationship between the person and the actor that two identifiers name; both must
/// be known.
pub open spec fn relationship_spec(store: StoreView, follower: Seq<char>, followee: Seq<char>) -> Result<
    FollowRelationship,
    FederationError,
> {
    match find_person_spec(store.actors, follower) {
        None => Err(FederationError::ObjectNotFound),
        Some(person) => match find_actor_spec(store.actors, followee) {
            None => Err(FederationError::ObjectNotFound),
            Some(target) => Ok(
                FollowRelationship {
                    follower: person.id,
                    followee: followee_of(target),
                    pending: false,
                },
            ),
        },
    }
}

/// Finds the follower and the followee and names the relationship between them.
pub fn relationship(store: &Store, follower: &Iri, followee: &Iri) -> (res: Result<
    FollowRelationship,
    FederationError,
>)
    ensures
        res == relationship_spec(store@, follower@.text, followee@.text),
{
    let person = match find_person(&store.actors, follower) {
        Some(person) => person,
        None => {
            return Err(FederationError::ObjectNotFound);
        },
    };
    let target = match find_actor(&store.actors, followee) {
        Some(target) => target,
        None => {
            return Err(FederationError::ObjectNotFound);
        },
    };
    let followee = match target.kind {
        ActorKind::Person => Followee::Person(target.id),
        ActorKind::Community => Followee::Community(target.id),
    };
    Ok(FollowRelationship { follower: person.id, followee, pending: false })
}

/// Whether a follow is checked in strict mode: when what is followed is a community.
pub open spec fn follow_is_strict(store: StoreView, followee: Seq<char>) -> bool {
    match find_actor_spec(store.actors, followee) {
        Some(target) => target.kind == ActorKind::Community,
        None => false,
    }
}

/// What the checks of a follow come to: the domain policy on its id and actor, then that
/// the follower and the followee are known.
pub open spec fn verify_follow_spec(
    store: StoreView,
    follow: FollowView,
    policy: PolicySnapshot,
    settings: Settings,
) -> Result<(), FederationError> {
    match verify_domains_spec(
        follow.id,
        follow.actor,
        policy,
        settings,
        follow_is_strict(store, follow.object.text),
    ) {
        Err(e) => Err(e),
        Ok(_) => match relationship_spec(store, follow.actor.text, follow.object.text) {
            Err(e) => Err(e),
            Ok(_) => Ok(()),
        },
    }
}

/// What the checks of a withdrawal come to: its actor must be the actor of the follow
/// inside; then the domain policy on its id and actor; then the checks of the follow.
pub open spec fn verify_undo_follow_spec(
    store: StoreView,
    undo: UndoFollowView,
    policy: PolicySnapshot,
    settings: Settings,
) -> Result<(), FederationError> {
    if undo.actor.text != undo.object.actor.text {
        Err(FederationError::ActorMismatch)
    } else {
        match verify_domains_spec(
            undo.id,
            undo.actor,
            policy,
            settings,
            follow_is_strict(store, undo.object.object.text),
        ) {
            Err(e) => Err(e),
            Ok(_) => verify_follow_spec(store, undo.object, policy, settings),
        }
    }
}

/// The ledger entry of a received follow or withdrawal: not local, and sensitive.
pub open spec fn follow_entry(id: IriView, payload: Seq<char>, now: u64) -> LedgerEntryView {
    LedgerEntryView { ap_id: id.text, payload, local: false, sensitive: true, inserted_at: now }
}

/// What becomes of a received follow.
pub open spec fn receive_follow_spec(
    store: StoreView,
    follow: FollowView,
    payload: Seq<char>,
    now: u64,
) -> (Result<ReceiveOutcome, FederationError>, StoreView) {
    let (outcome, ledger) = insert_spec(store.ledger, follow_entry(follow.id, payload, now));
    match outcome {
        InsertOutcome::Duplicate => (Ok(ReceiveOutcome::Duplicate), store),
        InsertOutcome::Inserted => {
            let logged = StoreView { ledger, ..store };
            match relationship_spec(logged, follow.actor.text, follow.object.text) {
                Err(e) => (Err(e), logged),
                Ok(form) => (
                    Ok(ReceiveOutcome::Applied),
                    StoreView { followers: follow_spec(logged.followers, form), ..logged },
                ),
            }
        },
    }
}

/// What becomes of a received withdrawal of a follow.
pub open spec fn receive_undo_follow_spec(
    store: StoreView,
    undo: UndoFollowView,
    payload: Seq<char>,
    now: u64,
) -> (Result<ReceiveOutcome, FederationError>, StoreView) {
    let (outcome, ledger) = insert_spec(store.ledger, follow_entry(undo.id, payload, now));
    match outcome {
        InsertOutcome::Duplicate => (Ok(ReceiveOutcome::Duplicate), store),
        InsertOutcome::Inserted => {
            let logged = StoreView { ledger, ..store };
            match relationship_spec(logged, undo.actor.text, undo.object.object.text) {
                Err(e) => (Err(e), logged),
                Ok(form) => (
                    Ok(ReceiveOutcome::Applied),
                    StoreView { followers: unfollow_spec(logged.followers, form), ..logged },
                ),
            }
        },
    }
}

impl Follow {
    /// Puts a follow together from its id.
    pub fn with_id(id: Iri, actor: &Actor, followee: &Actor) -> (follow: Follow)
        ensures
            follow@ == (FollowView { actor: actor@.actor_id, object: followee@.actor_id, id: id@ }),
    {
        Follow { actor: actor.actor_id.clone(), object: followee.actor_id.clone(), id }
    }

    /// Builds a follow with a fresh id. It fails only where the text that some nonce makes
    /// is no URL.
    pub fn new(actor: &Actor, followee: &Actor, settings: &Settings) -> (res: Result<
        Follow,
        FederationError,
    >)
        ensures
            match res {
                Ok(follow) => {
                    &&& is_activity_id(
                        settings.protocol_and_hostname(),
                        ActivityKind::Follow,
                        follow@.id,
                    )
                    &&& follow@.actor == actor@.actor_id
                    &&& follow@.object == followee@.actor_id
                },
                Err(e) => e == FederationError::MalformedActivity && some_nonce_gives_no_id(
                    settings.protocol_and_hostname(),
                    ActivityKind::Follow,
                ),
            },
    {
        let base = settings.get_protocol_and_hostname();
        match generate_activity_id(ActivityKind::Follow, base.as_str()) {
            Ok(id) => Ok(Follow::with_id(id, actor, followee)),
            Err(e) => Err(e),
        }
    }

    /// The activity's id.
    pub fn id(&self) -> (id: &Iri)
        ensures
            id == self.id,
    {
        &self.id
    }

    /// The actor that sent the activity.
    pub fn actor(&self) -> (actor: &Iri)
        ensures
            actor == self.actor,
    {
        &self.actor
    }

    /// Checks the follow's id and actor against the domain policy, and that the follower
    /// and the followee are known.
    pub fn verify(&self, store: &Store, local_site_data: &LocalSiteData, settings: &Settings) -> (res:
        Result<(), FederationError>)
        ensures
            res == verify_follow_spec(store@, self@, local_site_data@, *settings),
    {
        let strict = match find_actor(&store.actors, &self.object) {
            Some(target) => target.kind == ActorKind::Community,
            None => false,
        };
        match verify_domains(&self.id, &self.actor, local_site_data, settings, strict) {
            Ok(_) => {},
            Err(e) => {
                return Err(e);
            },
        }
        match relationship(store, &self.actor, &self.object) {
            Ok(_) => Ok(()),
            Err(e) => Err(e),
        }
    }

    /// Records the follow in the ledger and, unless it was there already, stores the
    /// relationship.
    pub fn receive(self, payload: String, store: &mut Store, now: u64) -> (res: Result<
        ReceiveOutcome,
        FederationError,
    >)
        ensures
            (res, final(store)@) == receive_follow_spec(old(store)@, self@, payload@, now),
    {
        match insert_activity(&self.id, payload, false, true, &mut store.ledger, now) {
            InsertOutcome::Duplicate => Ok(ReceiveOutcome::Duplicate),
            InsertOutcome::Inserted => {
                match relationship(store, &self.actor, &self.object) {
                    Ok(form) => {
                        follow(&mut store.followers, form);
                        Ok(ReceiveOutcome::Applied)
                    },
                    Err(e) => Err(e),
                }
            },
        }
    }
}

/// An activity on its way out: what is sent, and to which inboxes.
pub struct Delivery {
    pub activity: Activity,
    pub inboxes: Vec<Iri>,
    /// Whether the ledger is to withhold the payload from readers.
    pub sensitive: bool,
}

pub struct DeliveryView {
    pub activity: ActivityView,
    pub inboxes: Seq<IriView>,
    pub sensitive: bool,
}

impl View for Delivery {
    type V = DeliveryView;

    open spec fn view(&self) -> DeliveryView {
        DeliveryView {
            activity: self.activity@,
            inboxes: self.inboxes.deep_view(),
            sensitive: self.sensitive,
        }
    }
}

/// The withdrawal that a person sends to a community, with the ids given.
pub open spec fn undo_follow_delivery(
    follow_id: IriView,
    undo_id: IriView,
    actor: ActorView,
    community: ActorView,
) -> DeliveryView {
    DeliveryView {
        activity: ActivityView::UndoFollow(
            UndoFollowView {
                actor: actor.actor_id,
                object: FollowView {
                    actor: actor.actor_id,
                    object: community.actor_id,
                    id: follow_id,
                },
                id: undo_id,
            },
        ),
        inboxes: seq![community.shared_inbox_or_inbox()],
        sensitive: true,
    }
}

impl UndoFollow {
    /// Puts together the withdrawal of a follow and addresses it to the community's inbox.
    pub fn prepare(follow_id: Iri, undo_id: Iri, actor: &Actor, community: &Actor) -> (delivery:
        Delivery)
        ensures
            delivery@ == undo_follow_delivery(follow_id@, undo_id@, actor@, community@),
    {
        let object = Follow::with_id(follow_id, actor, community);
        let undo = UndoFollow { actor: actor.actor_id.clone(), object, id: undo_id };
        let mut inboxes: Vec<Iri> = Vec::new();
        let inbox = community.shared_inbox_or_inbox();
        inboxes.push(inbox);
        let delivery = Delivery { activity: Activity::UndoFollow(undo), inboxes, sensitive: true };
        assert(delivery.inboxes.deep_view() =~= seq![community@.shared_inbox_or_inbox()]);
        delivery
    }

    /// Builds the withdrawal of a person's follow of a community, with fresh ids for the
    /// follow and for the withdrawal, and hands it over for delivery to the community's
    /// inbox. The ids' nonces are random; the rest is as `prepare` has it. It fails only
    /// where the text that some nonce makes, for the follow or for the withdrawal, is no URL.
    pub fn send(actor: &Actor, community: &Actor, settings: &Settings) -> (res: Result<
        Delivery,
        FederationError,
    >)
        ensures
            match res {
                Ok(delivery) => match delivery@.activity {
                    ActivityView::UndoFollow(undo) => {
                        &&& is_activity_id(
                            settings.protocol_and_hostname(),
                            ActivityKind::Follow,
                            undo.object.id,
                        )
                        &&& is_activity_id(
                            settings.protocol_and_hostname(),
                            ActivityKind::Undo,
                            undo.id,
                        )
                        &&& delivery@ == undo_follow_delivery(
                            undo.object.id,
                            undo.id,
                            actor@,
                            community@,
                        )
                    },
                    _ => false,
                },
                Err(e) => e == FederationError::MalformedActivity && (some_nonce_gives_no_id(
                    settings.protocol_and_hostname(),
                    ActivityKind::Follow,
                ) || some_nonce_gives_no_id(
                    settings.protocol_and_hostname(),
                    ActivityKind::Undo,
                )),
            },
    {
        let base = settings.get_protocol_and_hostname();
        let follow_id = match generate_activity_id(ActivityKind::Follow, base.as_str()) {
            Ok(id) => id,
            Err(e) => {
                return Err(e);
            },
        };
        let undo_id = match generate_activity_id(ActivityKind::Undo, base.as_str()) {
            Ok(id) => id,
            Err(e) => {
                return Err(e);
            },
        };
        Ok(UndoFollow::prepare(follow_id, undo_id, actor, community))
    }

    /// The activity's id.
    pub fn id(&self) -> (id: &Iri)
        ensures
            id == self.id,
    {
        &self.id
    }

    /// The actor that sent the activity.
    pub fn actor(&self) -> (actor: &Iri)
        ensures
            actor == self.actor,
    {
        &self.actor
    }

    /// Checks that the withdrawal comes from the actor of the follow inside, then its id
    /// and actor against the domain policy, then the follow.
    pub fn verify(&self, store: &Store, local_site_data: &LocalSiteData, settings: &Settings) -> (res:
        Result<(), FederationError>)
        ensures
            res == verify_undo_follow_spec(store@, self@, local_site_data@, *settings),
    {
        match verify_urls_match(&self.actor, &self.object.actor) {
            Ok(_) => {},
            Err(e) => {
                return Err(e);
            },
        }
        let strict = match find_actor(&store.actors, &self.object.object) {
            Some(target) => target.kind == ActorKind::Community,
            None => false,
        };
        match verify_domains(&self.id, &self.actor, local_site_data, settings, strict) {
            Ok(_) => {},
            Err(e) => {
                return Err(e);
            },
        }
        self.object.verify(store, local_site_data, settings)
    }

    /// Records the withdrawal in the ledger and, unless it was there already, removes the
    /// relationship. Where there was none to remove, that is no failure.
    pub fn receive(self, payload: String, store: &mut Store, now: u64) -> (res: Result<
        ReceiveOutcome,
        FederationError,
    >)
        ensures
            (res, final(store)@) == receive_undo_follow_spec(old(store)@, self@, payload@, now),
    {
        match insert_activity(&self.id, payload, false, true, &mut store.ledger, now) {
            InsertOutcome::Duplicate => Ok(ReceiveOutcome::Duplicate),
            InsertOutcome::Inserted => {
                match relationship(store, &self.actor, &self.object.object) {
                    Ok(form) => {
                        unfollow(&mut store.followers, form);
                        Ok(ReceiveOutcome::Applied)
                    },
                    Err(e) => Err(e),
                }
            },
        }
    }
}

} // verus!

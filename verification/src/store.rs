//! The state that activities act on: the ledger, the actors and objects, the moderation log,
//! the follow relationships, and the notifications asked for.

use crate::followers::FollowRelationship;
use crate::ledger::{Ledger, LedgerEntryView};
use crate::objects::{
    Actor, ActorView, DeletableObject, DeletableObjectView, EntityId, ObjectKind, PersonId,
};
use vstd::prelude::*;
use vstd::string::*;

verus! {

/// The entry that a moderator's removal leaves in the log.
pub struct ModerationRecord {
    /// The kind of what was removed.
    pub kind: ObjectKind,
    pub moderator: PersonId,
    pub target: EntityId,
    /// The reason given; never an empty text.
    pub reason: Option<String>,
    pub removed: bool,
    pub expires: Option<u64>,
}

pub struct ModerationRecordView {
    pub kind: ObjectKind,
    pub moderator: PersonId,
    pub target: EntityId,
    pub reason: Option<Seq<char>>,
    pub removed: bool,
    pub expires: Option<u64>,
}

impl View for ModerationRecord {
    type V = ModerationRecordView;

    open spec fn view(&self) -> ModerationRecordView {
        ModerationRecordView {
            kind: self.kind,
            moderator: self.moderator,
            target: self.target,
            reason: self.reason.deep_view(),
            removed: self.removed,
            expires: self.expires,
        }
    }
}

impl DeepView for ModerationRecord {
    type V = ModerationRecordView;

    open spec fn deep_view(&self) -> ModerationRecordView {
        self@
    }
}

/// What a notification tells the clients.
#[derive(Clone, Copy, Debug, PartialEq, Eq, Structural)]
pub enum UserOperationCrud {
    RemoveCommunity,
    RemovePost,
    RemoveComment,
}

/// A notification for the broadcaster: sent and forgotten.
#[derive(Clone, Copy, Debug, PartialEq, Eq, Structural)]
pub struct Notification {
    pub kind: ObjectKind,
    pub entity_id: EntityId,
    pub operation: UserOperationCrud,
}

/// Everything that activities read and change.
pub struct Store {
    pub ledger: Ledger,
    pub actors: Vec<Actor>,
    pub objects: Vec<DeletableObject>,
    pub mod_log: Vec<ModerationRecord>,
    pub followers: Vec<FollowRelationship>,
    pub notifications: Vec<Notification>,
}

pub struct StoreView {
    pub ledger: Seq<LedgerEntryView>,
    pub actors: Seq<ActorView>,
    pub objects: Seq<DeletableObjectView>,
    pub mod_log: Seq<ModerationRecordView>,
    pub followers: Seq<FollowRelationship>,
    pub notifications: Seq<Notification>,
}

impl View for Store {
    type V = StoreView;

    open spec fn view(&self) -> StoreView {
        StoreView {
            ledger: self.ledger@,
            actors: self.actors.deep_view(),
            objects: self.objects.deep_view(),
            mod_log: self.mod_log.deep_view(),
            followers: self.followers@,
            notifications: self.notifications@,
        }
    }
}

impl StoreView {
    /// Whether two states differ in the ledger at most.
    pub open spec fn same_entities(self, other: StoreView) -> bool {
        &&& self.actors == other.actors
        &&& self.objects == other.objects
        &&& self.mod_log == other.mod_log
        &&& self.followers == other.followers
        &&& self.notifications == other.notifications
    }
}

impl Store {
    /// A store that holds nothing.
    pub fn new() -> (store: Store)
        ensures
            store@.ledger.len() == 0,
            store@.actors.len() == 0,
            store@.objects.len() == 0,
            store@.mod_log.len() == 0,
            store@.followers.len() == 0,
            store@.notifications.len() == 0,
    {
        Store {
            ledger: Ledger::new(),
            actors: Vec::new(),
            objects: Vec::new(),
            mod_log: Vec::new(),
            followers: Vec::new(),
            notifications: Vec::new(),
        }
    }
}

} // verus!

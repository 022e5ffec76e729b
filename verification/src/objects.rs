//! The actors and the deletable objects that this instance knows.

use crate::iri::{Iri, IriView};
use crate::lookup::{find_keyed, first_index, keys_of, Keyed};
use vstd::prelude::*;
use vstd::string::*;

verus! {

pub type PersonId = i32;

pub type EntityId = i32;

/// What an actor is.
#[derive(Clone, Copy, Debug, PartialEq, Eq, Structural)]
pub enum ActorKind {
    Person,
    Community,
}

/// Someone who sends and receives activities.
pub struct Actor {
    pub kind: ActorKind,
    pub id: EntityId,
    pub actor_id: Iri,
    pub inbox: Iri,
    pub shared_inbox: Option<Iri>,
    /// Whether this instance hosts the actor.
    pub local: bool,
}

pub struct ActorView {
    pub kind: ActorKind,
    pub id: EntityId,
    pub actor_id: IriView,
    pub inbox: IriView,
    pub shared_inbox: Option<IriView>,
    pub local: bool,
}

impl View for Actor {
    type V = ActorView;

    open spec fn view(&self) -> ActorView {
        ActorView {
            kind: self.kind,
            id: self.id,
            actor_id: self.actor_id@,
            inbox: self.inbox@,
            shared_inbox: self.shared_inbox.deep_view(),
            local: self.local,
        }
    }
}

impl DeepView for Actor {
    type V = ActorView;

    open spec fn deep_view(&self) -> ActorView {
        self@
    }
}

impl Keyed for Actor {
    open spec fn key(&self) -> Seq<char> {
        self.actor_id.text@
    }

    fn key_text(&self) -> (text: &String) {
        &self.actor_id.text
    }
}

impl Clone for Actor {
    fn clone(&self) -> (copy: Self)
        ensures
            copy == *self,
    {
        Actor {
            kind: self.kind,
            id: self.id,
            actor_id: self.actor_id.clone(),
            inbox: self.inbox.clone(),
            shared_inbox: match &self.shared_inbox {
                Some(iri) => Some(iri.clone()),
                None => None,
            },
            local: self.local,
        }
    }
}

impl ActorView {
    /// Where deliveries to this actor go: the shared inbox where there is one.
    pub open spec fn shared_inbox_or_inbox(self) -> IriView {
        match self.shared_inbox {
            Some(shared) => shared,
            None => self.inbox,
        }
    }
}

impl Actor {
    /// Where deliveries to this actor go: the shared inbox where there is one.
    pub fn shared_inbox_or_inbox(&self) -> (inbox: Iri)
        ensures
            inbox@ == self@.shared_inbox_or_inbox(),
    {
        match &self.shared_inbox {
            Some(shared) => shared.clone(),
            None => self.inbox.clone(),
        }
    }
}

/// The kinds of object that a deletion can name.
#[derive(Clone, Copy, Debug, PartialEq, Eq, Structural)]
pub enum ObjectKind {
    Community,
    Post,
    Comment,
    PrivateMessage,
}

/// An object that a deletion can name: its kind, the key of its row, and the row's flags.
pub struct DeletableObject {
    pub kind: ObjectKind,
    pub id: EntityId,
    pub ap_id: Iri,
    /// Whether this instance is the authority for the object.
    pub local: bool,
    /// Set by a moderator's removal.
    pub removed: bool,
    /// Set by the owner's deletion.
    pub deleted: bool,
}

pub struct DeletableObjectView {
    pub kind: ObjectKind,
    pub id: EntityId,
    pub ap_id: IriView,
    pub local: bool,
    pub removed: bool,
    pub deleted: bool,
}

impl View for DeletableObject {
    type V = DeletableObjectView;

    open spec fn view(&self) -> DeletableObjectView {
        DeletableObjectView {
            kind: self.kind,
            id: self.id,
            ap_id: self.ap_id@,
            local: self.local,
            removed: self.removed,
            deleted: self.deleted,
        }
    }
}

impl DeepView for DeletableObject {
    type V = DeletableObjectView;

    open spec fn deep_view(&self) -> DeletableObjectView {
        self@
    }
}

impl Keyed for DeletableObject {
    open spec fn key(&self) -> Seq<char> {
        self.ap_id.text@
    }

    fn key_text(&self) -> (text: &String) {
        &self.ap_id.text
    }
}

impl Clone for DeletableObject {
    fn clone(&self) -> (copy: Self)
        ensures
            copy == *self,
    {
        DeletableObject {
            kind: self.kind,
            id: self.id,
            ap_id: self.ap_id.clone(),
            local: self.local,
            removed: self.removed,
            deleted: self.deleted,
        }
    }
}

impl DeletableObject {
    /// The object's identifier.
    pub fn id(&self) -> (iri: Iri)
        ensures
            iri@ == self@.ap_id,
    {
        self.ap_id.clone()
    }
}

/// The identifiers of the actors, row by row.
pub open spec fn actor_ids(actors: Seq<ActorView>) -> Seq<Seq<char>> {
    Seq::new(actors.len(), |i: int| actors[i].actor_id.text)
}

/// The actor that an identifier names: the first row that carries it.
pub open spec fn find_actor_spec(actors: Seq<ActorView>, iri: Seq<char>) -> Option<ActorView> {
    match first_index(actor_ids(actors), iri) {
        Some(i) => Some(actors[i]),
        None => None,
    }
}

/// The identifiers of the objects, row by row.
pub open spec fn object_ids(objects: Seq<DeletableObjectView>) -> Seq<Seq<char>> {
    Seq::new(objects.len(), |i: int| objects[i].ap_id.text)
}

/// The object that an identifier names: the first row that carries it.
pub open spec fn resolve_spec(objects: Seq<DeletableObjectView>, iri: Seq<char>) -> Option<
    DeletableObjectView,
> {
    match first_index(object_ids(objects), iri) {
        Some(i) => Some(objects[i]),
        None => None,
    }
}

/// The table with the `removed` flag of the rows of one kind and key set.
pub open spec fn with_removed(
    objects: Seq<DeletableObjectView>,
    kind: ObjectKind,
    id: EntityId,
    removed: bool,
) -> Seq<DeletableObjectView> {
    Seq::new(
        objects.len(),
        |i: int|
            if objects[i].kind == kind && objects[i].id == id {
                DeletableObjectView { removed, ..objects[i] }
            } else {
                objects[i]
            },
    )
}

/// The table with the `deleted` flag of the rows of one kind and key set.
pub open spec fn with_deleted(
    objects: Seq<DeletableObjectView>,
    kind: ObjectKind,
    id: EntityId,
    deleted: bool,
) -> Seq<DeletableObjectView> {
    Seq::new(
        objects.len(),
        |i: int|
            if objects[i].kind == kind && objects[i].id == id {
                DeletableObjectView { deleted, ..objects[i] }
            } else {
                objects[i]
            },
    )
}

/// Finds the actor that an identifier names.
pub fn find_actor(actors: &Vec<Actor>, iri: &Iri) -> (actor: Option<Actor>)
    ensures
        actor.deep_view() == find_actor_spec(actors.deep_view(), iri@.text),
{
    proof {
        assert(keys_of(actors@) =~= actor_ids(actors.deep_view()));
    }
    match find_keyed(actors, &iri.text) {
        Some(i) => Some(actors[i].clone()),
        None => None,
    }
}

/// Finds the object that an identifier names.
pub fn resolve(objects: &Vec<DeletableObject>, iri: &Iri) -> (object: Option<DeletableObject>)
    ensures
        object.deep_view() == resolve_spec(objects.deep_view(), iri@.text),
{
    proof {
        assert(keys_of(objects@) =~= object_ids(objects.deep_view()));
    }
    match find_keyed(objects, &iri.text) {
        Some(i) => Some(objects[i].clone()),
        None => None,
    }
}

/// Sets the `removed` flag of the rows of one kind and key.
pub fn update_removed_flag(
    objects: &mut Vec<DeletableObject>,
    kind: ObjectKind,
    id: EntityId,
    removed: bool,
)
    ensures
        final(objects).deep_view() == with_removed(old(objects).deep_view(), kind, id, removed),
{
    let ghost before = objects.deep_view();
    let mut i: usize = 0;
    assert forall|j: int| 0 <= j < objects.len() implies (#[trigger] objects@[j])@ == before[j] by {}
    while i < objects.len()
        invariant
            i <= objects.len(),
            objects.len() == before.len(),
            forall|j: int|
                0 <= j < i ==> (#[trigger] objects@[j])@ == with_removed(before, kind, id, removed)[j],
            forall|j: int| i <= j < objects.len() ==> (#[trigger] objects@[j])@ == before[j],
        decreases objects.len() - i,
    {
        let ghost prev = objects@;
        if objects[i].kind == kind && objects[i].id == id {
            objects[i].removed = removed;
        }
        proof {
            assert forall|j: int| 0 <= j < objects.len() && j != i implies objects@[j]
                == prev[j] by {}
        }
        i += 1;
    }
    assert(objects.deep_view() =~= with_removed(before, kind, id, removed));
}

/// Sets the `deleted` flag of the rows of one kind and key.
pub fn update_deleted_flag(
    objects: &mut Vec<DeletableObject>,
    kind: ObjectKind,
    id: EntityId,
    deleted: bool,
)
    ensures
        final(objects).deep_view() == with_deleted(old(objects).deep_view(), kind, id, deleted),
{
    let ghost before = objects.deep_view();
    let mut i: usize = 0;
    assert forall|j: int| 0 <= j < objects.len() implies (#[trigger] objects@[j])@ == before[j] by {}
    while i < objects.len()
        invariant
            i <= objects.len(),
            objects.len() == before.len(),
            forall|j: int|
                0 <= j < i ==> (#[trigger] objects@[j])@ == with_deleted(before, kind, id, deleted)[j],
            forall|j: int| i <= j < objects.len() ==> (#[trigger] objects@[j])@ == before[j],
        decreases objects.len() - i,
    {
        let ghost prev = objects@;
        if objects[i].kind == kind && objects[i].id == id {
            objects[i].deleted = deleted;
        }
        proof {
            assert forall|j: int| 0 <= j < objects.len() && j != i implies objects@[j]
                == prev[j] by {}
        }
        i += 1;
    }
    assert(objects.deep_view() =~= with_deleted(before, kind, id, deleted));
}

} // verus!

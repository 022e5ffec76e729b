//! The activities that the engine understands, and the envelope they travel in.

use crate::error::FederationError;
use crate::iri::{iri_of_parts, parsed_url, Iri, IriView};
use vstd::prelude::*;
use vstd::string::*;

verus! {

/// The kinds of activity.
#[derive(Clone, Copy, Debug, PartialEq, Eq, Structural)]
pub enum ActivityKind {
    Delete,
    Follow,
    Undo,
}

impl ActivityKind {
    /// The kind as it stands in an envelope.
    pub open spec fn name_spec(self) -> Seq<char> {
        match self {
            ActivityKind::Delete => "Delete"@,
            ActivityKind::Follow => "Follow"@,
            ActivityKind::Undo => "Undo"@,
        }
    }

    /// The kind as it stands in an activity id.
    pub open spec fn path_segment_spec(self) -> Seq<char> {
        match self {
            ActivityKind::Delete => "delete"@,
            ActivityKind::Follow => "follow"@,
            ActivityKind::Undo => "undo"@,
        }
    }

    pub fn name(&self) -> (name: &'static str)
        ensures
            name@ == self.name_spec(),
    {
        match self {
            ActivityKind::Delete => "Delete",
            ActivityKind::Follow => "Follow",
            ActivityKind::Undo => "Undo",
        }
    }

    pub fn path_segment(&self) -> (segment: &'static str)
        ensures
            segment@ == self.path_segment_spec(),
    {
        match self {
            ActivityKind::Delete => "delete",
            ActivityKind::Follow => "follow",
            ActivityKind::Undo => "undo",
        }
    }
}

/// The kind that a name stands for.
pub open spec fn kind_of_name(name: Seq<char>) -> Option<ActivityKind> {
    if name == "Delete"@ {
        Some(ActivityKind::Delete)
    } else if name == "Follow"@ {
        Some(ActivityKind::Follow)
    } else if name == "Undo"@ {
        Some(ActivityKind::Undo)
    } else {
        None
    }
}

/// Reads a kind from its name.
pub fn parse_kind(name: &String) -> (kind: Option<ActivityKind>)
    ensures
        kind == kind_of_name(name@),
{
    if *name == String::from_str("Delete") {
        Some(ActivityKind::Delete)
    } else if *name == String::from_str("Follow") {
        Some(ActivityKind::Follow)
    } else if *name == String::from_str("Undo") {
        Some(ActivityKind::Undo)
    } else {
        None
    }
}

/// A deletion or removal of an object. A missing summary marks the owner's own deletion;
/// a summary, even an empty one, marks a moderator's removal and carries the reason.
pub struct Delete {
    pub actor: Iri,
    pub to: Vec<Iri>,
    pub object: Iri,
    pub cc: Vec<Iri>,
    pub summary: Option<String>,
    pub id: Iri,
    pub audience: Option<Iri>,
}

pub struct DeleteView {
    pub actor: IriView,
    pub to: Seq<IriView>,
    pub object: IriView,
    pub cc: Seq<IriView>,
    pub summary: Option<Seq<char>>,
    pub id: IriView,
    pub audience: Option<IriView>,
}

impl View for Delete {
    type V = DeleteView;

    open spec fn view(&self) -> DeleteView {
        DeleteView {
            actor: self.actor@,
            to: self.to.deep_view(),
            object: self.object@,
            cc: self.cc.deep_view(),
            summary: self.summary.deep_view(),
            id: self.id@,
            audience: self.audience.deep_view(),
        }
    }
}

/// A request to follow a person or a community.
pub struct Follow {
    pub actor: Iri,
    pub object: Iri,
    pub id: Iri,
}

pub struct FollowView {
    pub actor: IriView,
    pub object: IriView,
    pub id: IriView,
}

impl View for Follow {
    type V = FollowView;

    open spec fn view(&self) -> FollowView {
        FollowView { actor: self.actor@, object: self.object@, id: self.id@ }
    }
}

/// The withdrawal of a follow.
pub struct UndoFollow {
    pub actor: Iri,
    pub object: Follow,
    pub id: Iri,
}

pub struct UndoFollowView {
    pub actor: IriView,
    pub object: FollowView,
    pub id: IriView,
}

impl View for UndoFollow {
    type V = UndoFollowView;

    open spec fn view(&self) -> UndoFollowView {
        UndoFollowView { actor: self.actor@, object: self.object@, id: self.id@ }
    }
}

/// An activity of any kind.
pub enum Activity {
    Delete(Delete),
    Follow(Follow),
    UndoFollow(UndoFollow),
}

pub enum ActivityView {
    Delete(DeleteView),
    Follow(FollowView),
    UndoFollow(UndoFollowView),
}

impl View for Activity {
    type V = ActivityView;

    open spec fn view(&self) -> ActivityView {
        match self {
            Activity::Delete(a) => ActivityView::Delete(a@),
            Activity::Follow(a) => ActivityView::Follow(a@),
            Activity::UndoFollow(a) => ActivityView::UndoFollow(a@),
        }
    }
}

impl ActivityView {
    pub open spec fn id(self) -> IriView {
        match self {
            ActivityView::Delete(a) => a.id,
            ActivityView::Follow(a) => a.id,
            ActivityView::UndoFollow(a) => a.id,
        }
    }

    pub open spec fn actor(self) -> IriView {
        match self {
            ActivityView::Delete(a) => a.actor,
            ActivityView::Follow(a) => a.actor,
            ActivityView::UndoFollow(a) => a.actor,
        }
    }
}

impl Activity {
    /// The activity's id.
    pub fn id(&self) -> (id: &Iri)
        ensures
            id@ == self@.id(),
    {
        match self {
            Activity::Delete(a) => &a.id,
            Activity::Follow(a) => &a.id,
            Activity::UndoFollow(a) => &a.id,
        }
    }

    /// The actor that the activity names as its sender.
    pub fn actor(&self) -> (actor: &Iri)
        ensures
            actor@ == self@.actor(),
    {
        match self {
            Activity::Delete(a) => &a.actor,
            Activity::Follow(a) => &a.actor,
            Activity::UndoFollow(a) => &a.actor,
        }
    }
}

/// An activity that lies inside another, as it arrives.
pub struct InnerEnvelope {
    pub id: Option<String>,
    pub kind: Option<String>,
    pub actor: Option<String>,
    pub object: Option<String>,
}

pub struct InnerEnvelopeView {
    pub id: Option<Seq<char>>,
    pub kind: Option<Seq<char>>,
    pub actor: Option<Seq<char>>,
    pub object: Option<Seq<char>>,
}

impl View for InnerEnvelope {
    type V = InnerEnvelopeView;

    open spec fn view(&self) -> InnerEnvelopeView {
        InnerEnvelopeView {
            id: self.id.deep_view(),
            kind: self.kind.deep_view(),
            actor: self.actor.deep_view(),
            object: self.object.deep_view(),
        }
    }
}

impl DeepView for InnerEnvelope {
    type V = InnerEnvelopeView;

    open spec fn deep_view(&self) -> InnerEnvelopeView {
        self@
    }
}

/// What an envelope's `object` holds: an identifier, or an activity or object of its own.
pub enum EnvelopeObject {
    Id(String),
    Nested(InnerEnvelope),
}

pub enum EnvelopeObjectView {
    Id(Seq<char>),
    Nested(InnerEnvelopeView),
}

impl View for EnvelopeObject {
    type V = EnvelopeObjectView;

    open spec fn view(&self) -> EnvelopeObjectView {
        match self {
            EnvelopeObject::Id(text) => EnvelopeObjectView::Id(text@),
            EnvelopeObject::Nested(inner) => EnvelopeObjectView::Nested(inner@),
        }
    }
}

impl DeepView for EnvelopeObject {
    type V = EnvelopeObjectView;

    open spec fn deep_view(&self) -> EnvelopeObjectView {
        self@
    }
}

/// An activity as it arrives: every field may be missing, and nothing has been checked.
pub struct Envelope {
    pub id: Option<String>,
    pub kind: Option<String>,
    pub actor: Option<String>,
    pub object: Option<EnvelopeObject>,
    pub to: Vec<String>,
    pub cc: Vec<String>,
    pub audience: Option<String>,
    pub summary: Option<String>,
}

pub struct EnvelopeView {
    pub id: Option<Seq<char>>,
    pub kind: Option<Seq<char>>,
    pub actor: Option<Seq<char>>,
    pub object: Option<EnvelopeObjectView>,
    pub to: Seq<Seq<char>>,
    pub cc: Seq<Seq<char>>,
    pub audience: Option<Seq<char>>,
    pub summary: Option<Seq<char>>,
}

impl View for Envelope {
    type V = EnvelopeView;

    open spec fn view(&self) -> EnvelopeView {
        EnvelopeView {
            id: self.id.deep_view(),
            kind: self.kind.deep_view(),
            actor: self.actor.deep_view(),
            object: self.object.deep_view(),
            to: self.to.deep_view(),
            cc: self.cc.deep_view(),
            audience: self.audience.deep_view(),
            summary: self.summary.deep_view(),
        }
    }
}

/// The identifier that a required field holds, if it is there and parses.
pub open spec fn required_iri(field: Option<Seq<char>>) -> Option<IriView> {
    match field {
        Some(text) => match parsed_url(text) {
            Some(parts) => Some(iri_of_parts(parts)),
            None => None,
        },
        None => None,
    }
}

/// The identifier that an optional field holds: `Some(None)` where the field is missing,
/// `None` where it is there and does not parse.
pub open spec fn optional_iri(field: Option<Seq<char>>) -> Option<Option<IriView>> {
    match field {
        Some(text) => match parsed_url(text) {
            Some(parts) => Some(Some(iri_of_parts(parts))),
            None => None,
        },
        None => Some(None),
    }
}

/// The identifiers that a list holds, if each entry parses.
pub open spec fn iri_list(texts: Seq<Seq<char>>) -> Option<Seq<IriView>>
    decreases texts.len(),
{
    if texts.len() == 0 {
        Some(Seq::empty())
    } else {
        match (iri_list(texts.drop_last()), parsed_url(texts.last())) {
            (Some(front), Some(parts)) => Some(front.push(iri_of_parts(parts))),
            _ => None,
        }
    }
}

/// The identifier of what an envelope's `object` names: the identifier itself, or the id of
/// what lies inside.
pub open spec fn object_iri(object: Option<EnvelopeObjectView>) -> Option<IriView> {
    match object {
        Some(EnvelopeObjectView::Id(text)) => required_iri(Some(text)),
        Some(EnvelopeObjectView::Nested(inner)) => required_iri(inner.id),
        None => None,
    }
}

/// The follow that lies inside an envelope, if it is one and is complete.
pub open spec fn inner_follow(inner: InnerEnvelopeView) -> Option<FollowView> {
    if inner.kind is Some && kind_of_name(inner.kind->0) == Some(ActivityKind::Follow) {
        match (required_iri(inner.id), required_iri(inner.actor), required_iri(inner.object)) {
            (Some(id), Some(actor), Some(object)) => Some(FollowView { actor, object, id }),
            _ => None,
        }
    } else {
        None
    }
}

/// The activity that a well-formed envelope holds. An envelope is well formed when its kind
/// is known, the fields that the kind requires are there, and every identifier parses.
pub open spec fn parse_spec(envelope: EnvelopeView) -> Option<ActivityView> {
    match envelope.kind {
        None => None,
        Some(name) => match kind_of_name(name) {
            None => None,
            Some(ActivityKind::Delete) => match (
                required_iri(envelope.id),
                required_iri(envelope.actor),
                object_iri(envelope.object),
                iri_list(envelope.to),
                iri_list(envelope.cc),
                optional_iri(envelope.audience),
            ) {
                (Some(id), Some(actor), Some(object), Some(to), Some(cc), Some(audience)) => Some(
                    ActivityView::Delete(
                        DeleteView { actor, to, object, cc, summary: envelope.summary, id, audience },
                    ),
                ),
                _ => None,
            },
            Some(ActivityKind::Follow) => match (
                required_iri(envelope.id),
                required_iri(envelope.actor),
                envelope.object,
            ) {
                (Some(id), Some(actor), Some(EnvelopeObjectView::Id(text))) => match required_iri(
                    Some(text),
                ) {
                    Some(object) => Some(ActivityView::Follow(FollowView { actor, object, id })),
                    None => None,
                },
                _ => None,
            },
            Some(ActivityKind::Undo) => match (
                required_iri(envelope.id),
                required_iri(envelope.actor),
                envelope.object,
            ) {
                (Some(id), Some(actor), Some(EnvelopeObjectView::Nested(inner))) => match inner_follow(
                    inner,
                ) {
                    Some(object) => Some(
                        ActivityView::UndoFollow(UndoFollowView { actor, object, id }),
                    ),
                    None => None,
                },
                _ => None,
            },
        },
    }
}

fn parse_required(field: &Option<String>) -> (iri: Option<Iri>)
    ensures
        iri.deep_view() == required_iri(field.deep_view()),
{
    match field {
        Some(text) => Iri::parse(text.as_str()),
        None => None,
    }
}

fn parse_optional(field: &Option<String>) -> (iri: Option<Option<Iri>>)
    ensures
        iri.deep_view() == optional_iri(field.deep_view()),
{
    match field {
        Some(text) => match Iri::parse(text.as_str()) {
            Some(iri) => Some(Some(iri)),
            None => None,
        },
        None => Some(None),
    }
}

fn parse_list(texts: &Vec<String>) -> (iris: Option<Vec<Iri>>)
    ensures
        iris.deep_view() == iri_list(texts.deep_view()),
{
    let ghost all = texts.deep_view();
    let mut iris: Vec<Iri> = Vec::new();
    let mut i: usize = 0;
    assert(all.take(0) =~= Seq::<Seq<char>>::empty());
    assert(iris.deep_view() =~= Seq::<IriView>::empty());
    while i < texts.len()
        invariant
            i <= texts.len(),
            all == texts.deep_view(),
            iri_list(all.take(i as int)) == Some(iris.deep_view()),
        decreases texts.len() - i,
    {
        proof {
            assert(all.take(i + 1).drop_last() =~= all.take(i as int));
            assert(all.take(i + 1).last() == texts@[i as int]@);
            lemma_iri_list_prefix(all, i + 1);
        }
        match Iri::parse(texts[i].as_str()) {
            Some(iri) => {
                let ghost before = iris.deep_view();
                iris.push(iri);
                assert(iris.deep_view() =~= before.push(iri@));
            },
            None => {
                return None;
            },
        }
        i += 1;
    }
    proof {
        assert(all.take(texts.len() as int) =~= all);
    }
    Some(iris)
}

/// A list with a prefix that does not parse does not parse.
proof fn lemma_iri_list_prefix(texts: Seq<Seq<char>>, n: int)
    requires
        0 <= n <= texts.len(),
    ensures
        iri_list(texts.take(n)) is None ==> iri_list(texts) is None,
    decreases texts.len(),
{
    if n < texts.len() {
        assert(texts.drop_last().take(n) =~= texts.take(n));
        lemma_iri_list_prefix(texts.drop_last(), n);
    } else {
        assert(texts.take(n) =~= texts);
    }
}

fn parse_inner_follow(inner: &InnerEnvelope) -> (follow: Option<Follow>)
    ensures
        match inner_follow(inner@) {
            Some(view) => follow is Some && follow->0@ == view,
            None => follow is None,
        },
{
    let kind = match &inner.kind {
        Some(name) => parse_kind(name),
        None => None,
    };
    match kind {
        Some(ActivityKind::Follow) => {},
        _ => {
            return None;
        },
    }
    let id = parse_required(&inner.id);
    let actor = parse_required(&inner.actor);
    let object = parse_required(&inner.object);
    match (id, actor, object) {
        (Some(id), Some(actor), Some(object)) => Some(Follow { actor, object, id }),
        _ => None,
    }
}

fn parse_object(object: &Option<EnvelopeObject>) -> (iri: Option<Iri>)
    ensures
        iri.deep_view() == object_iri(object.deep_view()),
{
    match object {
        Some(EnvelopeObject::Id(text)) => Iri::parse(text.as_str()),
        Some(EnvelopeObject::Nested(inner)) => parse_required(&inner.id),
        None => None,
    }
}

impl Activity {
    /// Checks an envelope's structure and reads the activity out of it.
    pub fn parse(envelope: &Envelope) -> (activity: Result<Activity, FederationError>)
        ensures
            match parse_spec(envelope@) {
                Some(view) => activity is Ok && activity->Ok_0@ == view,
                None => activity == Err::<Activity, FederationError>(
                    FederationError::MalformedActivity,
                ),
            },
    {
        let kind = match &envelope.kind {
            Some(name) => parse_kind(name),
            None => None,
        };
        match kind {
            None => Err(FederationError::MalformedActivity),
            Some(ActivityKind::Delete) => {
                let id = parse_required(&envelope.id);
                let actor = parse_required(&envelope.actor);
                let object = parse_object(&envelope.object);
                let to = parse_list(&envelope.to);
                let cc = parse_list(&envelope.cc);
                let audience = parse_optional(&envelope.audience);
                match (id, actor, object, to, cc, audience) {
                    (Some(id), Some(actor), Some(object), Some(to), Some(cc), Some(audience)) => {
                        let summary = match &envelope.summary {
                            Some(text) => Some(text.clone()),
                            None => None,
                        };
                        Ok(Activity::Delete(Delete { actor, to, object, cc, summary, id, audience }))
                    },
                    _ => Err(FederationError::MalformedActivity),
                }
            },
            Some(ActivityKind::Follow) => {
                let id = parse_required(&envelope.id);
                let actor = parse_required(&envelope.actor);
                match (id, actor, &envelope.object) {
                    (Some(id), Some(actor), Some(EnvelopeObject::Id(text))) => {
                        match Iri::parse(text.as_str()) {
                            Some(object) => Ok(Activity::Follow(Follow { actor, object, id })),
                            None => Err(FederationError::MalformedActivity),
                        }
                    },
                    _ => Err(FederationError::MalformedActivity),
                }
            },
            Some(ActivityKind::Undo) => {
                let id = parse_required(&envelope.id);
                let actor = parse_required(&envelope.actor);
                match (id, actor, &envelope.object) {
                    (Some(id), Some(actor), Some(EnvelopeObject::Nested(inner))) => {
                        match parse_inner_follow(inner) {
                            Some(object) => Ok(
                                Activity::UndoFollow(UndoFollow { actor, object, id }),
                            ),
                            None => Err(FederationError::MalformedActivity),
                        }
                    },
                    _ => Err(FederationError::MalformedActivity),
                }
            },
        }
    }
}

} // verus!

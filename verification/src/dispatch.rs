//! The way of an inbound activity: its structure is checked, then who sent it and from
//! where, then the ledger decides whether it is new, and only then is it applied.

use crate::deletion::{
    delete_is_strict, normalized_reason, receive_delete_spec, verify_domains_spec,
};
use crate::error::{FederationError, ReceiveOutcome};
use crate::followers::{
    follows, lemma_follow_idempotent, lemma_unfollow_absent, lemma_unfollow_removes, pairs_unique,
};
use crate::following::{
    receive_follow_spec, receive_undo_follow_spec, relationship_spec, verify_follow_spec,
    verify_undo_follow_spec, verify_urls_match,
};
use crate::iri::{Iri, IriView};
use crate::ledger::{
    ids_unique, insert_spec, ledger_holds, lemma_insert_keeps_ids_unique,
    lemma_second_insert_is_duplicate, LedgerEntryView,
};
use crate::objects::{resolve_spec, ObjectKind};
use crate::policy::{LocalSiteData, PolicySnapshot};
use crate::protocol::{parse_spec, Activity, ActivityView, DeleteView, Envelope, EnvelopeView, UndoFollowView};
use crate::settings::Settings;
use crate::store::{Store, StoreView};
use vstd::prelude::*;
use vstd::string::*;

verus! {

/// What the checks of an activity come to. The actor that the transport authenticated must
/// be the activity's own; the rest depends on the kind.
pub open spec fn verify_spec(
    store: StoreView,
    activity: ActivityView,
    claimed_actor: IriView,
    policy: PolicySnapshot,
    settings: Settings,
) -> Result<(), FederationError> {
    if activity.actor().text != claimed_actor.text {
        Err(FederationError::ActorMismatch)
    } else {
        match activity {
            ActivityView::Delete(delete) => verify_domains_spec(
                delete.id,
                delete.actor,
                policy,
                settings,
                delete_is_strict(store, delete),
            ),
            ActivityView::Follow(follow) => verify_follow_spec(store, follow, policy, settings),
            ActivityView::UndoFollow(undo) => verify_undo_follow_spec(
                store,
                undo,
                policy,
                settings,
            ),
        }
    }
}

/// What becomes of a received activity: the outcome and the store after it.
pub open spec fn receive_spec(store: StoreView, activity: ActivityView, payload: Seq<char>, now: u64) -> (
    Result<ReceiveOutcome, FederationError>,
    StoreView,
) {
    match activity {
        ActivityView::Delete(delete) => receive_delete_spec(store, delete, payload, now),
        ActivityView::Follow(follow) => receive_follow_spec(store, follow, payload, now),
        ActivityView::UndoFollow(undo) => receive_undo_follow_spec(store, undo, payload, now),
    }
}

/// What becomes of an envelope. One that is malformed or fails a check leaves the store as
/// it was, ledger included.
pub open spec fn process_spec(
    store: StoreView,
    envelope: EnvelopeView,
    payload: Seq<char>,
    claimed_actor: IriView,
    policy: PolicySnapshot,
    settings: Settings,
    now: u64,
) -> (Result<ReceiveOutcome, FederationError>, StoreView) {
    match parse_spec(envelope) {
        None => (Err(FederationError::MalformedActivity), store),
        Some(activity) => match verify_spec(store, activity, claimed_actor, policy, settings) {
            Err(e) => (Err(e), store),
            Ok(_) => receive_spec(store, activity, payload, now),
        },
    }
}

/// Checks an activity before anything is written: that it comes from the actor that the
/// transport authenticated, and what its kind asks for.
pub fn verify(
    activity: &Activity,
    claimed_actor: &Iri,
    store: &Store,
    local_site_data: &LocalSiteData,
    settings: &Settings,
) -> (res: Result<(), FederationError>)
    ensures
        res == verify_spec(store@, activity@, claimed_actor@, local_site_data@, *settings),
{
    match verify_urls_match(activity.actor(), claimed_actor) {
        Ok(_) => {},
        Err(e) => {
            return Err(e);
        },
    }
    match activity {
        Activity::Delete(delete) => delete.verify(store, local_site_data, settings),
        Activity::Follow(follow) => follow.verify(store, local_site_data, settings),
        Activity::UndoFollow(undo) => undo.verify(store, local_site_data, settings),
    }
}

/// Records an activity in the ledger and, unless it was there already, applies it.
pub fn receive(activity: Activity, payload: String, store: &mut Store, now: u64) -> (res: Result<
    ReceiveOutcome,
    FederationError,
>)
    ensures
        (res, final(store)@) == receive_spec(old(store)@, activity@, payload@, now),
{
    match activity {
        Activity::Delete(delete) => delete.receive(payload, store, now),
        Activity::Follow(follow) => follow.receive(payload, store, now),
        Activity::UndoFollow(undo) => undo.receive(payload, store, now),
    }
}

/// Takes an envelope through the whole way: structure, checks, ledger, effects. `payload`
/// is the envelope as it was serialized, for the ledger.
pub fn process(
    envelope: &Envelope,
    payload: String,
    claimed_actor: &Iri,
    store: &mut Store,
    local_site_data: &LocalSiteData,
    settings: &Settings,
    now: u64,
) -> (res: Result<ReceiveOutcome, FederationError>)
    ensures
        (res, final(store)@) == process_spec(
            old(store)@,
            envelope@,
            payload@,
            claimed_actor@,
            local_site_data@,
            *settings,
            now,
        ),
{
    let activity = match Activity::parse(envelope) {
        Ok(activity) => activity,
        Err(e) => {
            return Err(e);
        },
    };
    match verify(&activity, claimed_actor, store, local_site_data, settings) {
        Ok(_) => {},
        Err(e) => {
            return Err(e);
        },
    }
    receive(activity, payload, store, now)
}

/// After an activity was received, whatever came of it, the ledger holds its id, and the
/// ledger is all that a failed receive has changed.
pub proof fn lemma_receive_records(store: StoreView, activity: ActivityView, payload: Seq<char>, now: u64)
    ensures
        ledger_holds(receive_spec(store, activity, payload, now).1.ledger, activity.id().text),
        receive_spec(store, activity, payload, now).0 is Err ==> receive_spec(
            store,
            activity,
            payload,
            now,
        ).1.same_entities(store),
        receive_spec(store, activity, payload, now).0 == Ok::<ReceiveOutcome, FederationError>(
            ReceiveOutcome::Duplicate,
        ) <==> ledger_holds(store.ledger, activity.id().text),
        ledger_holds(store.ledger, activity.id().text) ==> receive_spec(
            store,
            activity,
            payload,
            now,
        ).1 == store,
{
    let entry = LedgerEntryView {
        ap_id: activity.id().text,
        payload,
        local: false,
        sensitive: activity is Follow || activity is UndoFollow,
        inserted_at: now,
    };
    lemma_second_insert_is_duplicate(store.ledger, entry, entry);
}

/// An activity delivered twice is applied once: the second receive reports a duplicate and
/// leaves the store exactly as the first left it, and the two together add at most one
/// entry to the moderation log.
pub proof fn lemma_receive_twice(
    store: StoreView,
    activity: ActivityView,
    payload: Seq<char>,
    now: u64,
    payload_again: Seq<char>,
    later: u64,
)
    ensures
        ({
            let first = receive_spec(store, activity, payload, now);
            let second = receive_spec(first.1, activity, payload_again, later);
            &&& second.0 == Ok::<ReceiveOutcome, FederationError>(ReceiveOutcome::Duplicate)
            &&& second.1 == first.1
            &&& first.1.mod_log.len() <= store.mod_log.len() + 1
        }),
{
    lemma_receive_records(store, activity, payload, now);
    let first = receive_spec(store, activity, payload, now);
    lemma_receive_records(first.1, activity, payload_again, later);
}

/// A deletion without a summary is the owner's own: it writes no entry to the moderation
/// log. One with a summary is a removal: where it is applied, it writes exactly one entry,
/// whose reason is the summary, or none where the summary is empty.
pub proof fn lemma_reason_normalization(store: StoreView, delete: DeleteView, payload: Seq<char>, now: u64)
    ensures
        delete.summary is None ==> receive_delete_spec(store, delete, payload, now).1.mod_log
            == store.mod_log,
        delete.summary is Some && receive_delete_spec(store, delete, payload, now).0 == Ok::<
            ReceiveOutcome,
            FederationError,
        >(ReceiveOutcome::Applied) ==> {
            let log = receive_delete_spec(store, delete, payload, now).1.mod_log;
            &&& log.len() == store.mod_log.len() + 1
            &&& log.drop_last() == store.mod_log
            &&& log.last().reason == normalized_reason(delete.summary->0)
            &&& log.last().removed
        },
        normalized_reason(Seq::<char>::empty()) is None,
        forall|summary: Seq<char>|
            summary.len() > 0 ==> #[trigger] normalized_reason(summary) == Some(summary),
{
    let after = receive_delete_spec(store, delete, payload, now);
    if delete.summary is Some && after.0 == Ok::<ReceiveOutcome, FederationError>(
        ReceiveOutcome::Applied,
    ) {
        assert(after.1.mod_log.drop_last() =~= store.mod_log);
    }
}

/// Two removals that differ in their summary alone take the same way: they end alike, and
/// the stores they leave differ at most in the reason of the entry they wrote.
pub proof fn lemma_summary_only_sets_reason(
    store: StoreView,
    delete: DeleteView,
    other_summary: Seq<char>,
    payload: Seq<char>,
    now: u64,
)
    requires
        delete.summary is Some,
    ensures
        ({
            let other = DeleteView { summary: Some(other_summary), ..delete };
            let a = receive_delete_spec(store, delete, payload, now);
            let b = receive_delete_spec(store, other, payload, now);
            &&& a.0 == b.0
            &&& a.1.ledger == b.1.ledger
            &&& a.1.same_entities(StoreView { mod_log: a.1.mod_log, ..b.1 })
            &&& a.1.mod_log.len() == b.1.mod_log.len()
        }),
{
}

/// A removal of a community that this instance hosts is forbidden, whoever sends it and
/// whatever the reason: unless the activity is a duplicate, the receive fails with
/// `Forbidden` and changes nothing but the ledger.
pub proof fn lemma_authority_guard(store: StoreView, delete: DeleteView, payload: Seq<char>, now: u64)
    requires
        delete.summary is Some,
        resolve_spec(store.objects, delete.object.text) is Some,
        resolve_spec(store.objects, delete.object.text)->0.kind == ObjectKind::Community,
        resolve_spec(store.objects, delete.object.text)->0.local,
    ensures
        receive_delete_spec(store, delete, payload, now).1.same_entities(store),
        !ledger_holds(store.ledger, delete.id.text) ==> receive_delete_spec(
            store,
            delete,
            payload,
            now,
        ).0 == Err::<ReceiveOutcome, FederationError>(FederationError::Forbidden),
        ledger_holds(store.ledger, delete.id.text) ==> receive_delete_spec(
            store,
            delete,
            payload,
            now,
        ) == (Ok::<ReceiveOutcome, FederationError>(ReceiveOutcome::Duplicate), store),
{
}

/// A withdrawal of a follow that does not exist succeeds and leaves every relationship as
/// it was.
pub proof fn lemma_undo_without_follow(store: StoreView, undo: UndoFollowView, payload: Seq<char>, now: u64)
    requires
        !ledger_holds(store.ledger, undo.id.text),
        relationship_spec(store, undo.actor.text, undo.object.object.text) is Ok,
        !follows(
            store.followers,
            relationship_spec(store, undo.actor.text, undo.object.object.text)->Ok_0,
        ),
    ensures
        receive_undo_follow_spec(store, undo, payload, now).0 == Ok::<
            ReceiveOutcome,
            FederationError,
        >(ReceiveOutcome::Applied),
        receive_undo_follow_spec(store, undo, payload, now).1.same_entities(store),
{
    let form = relationship_spec(store, undo.actor.text, undo.object.object.text)->Ok_0;
    lemma_unfollow_absent(store.followers, form);
}

/// What holds of every store that activities have built: no two ledger entries share an id,
/// no pair has two follow relationships, and no moderation entry keeps an empty reason.
pub open spec fn consistent(store: StoreView) -> bool {
    &&& ids_unique(store.ledger)
    &&& pairs_unique(store.followers)
    &&& forall|i: int|
        0 <= i < store.mod_log.len() ==> (#[trigger] store.mod_log[i]).reason != Some(
            Seq::<char>::empty(),
        )
}

/// Receiving an activity keeps the store consistent, and never changes or drops a ledger
/// entry: the ledger before is the beginning of the ledger after.
pub proof fn lemma_receive_keeps_consistent(
    store: StoreView,
    activity: ActivityView,
    payload: Seq<char>,
    now: u64,
)
    requires
        consistent(store),
    ensures
        consistent(receive_spec(store, activity, payload, now).1),
        store.ledger.len() <= receive_spec(store, activity, payload, now).1.ledger.len(),
        receive_spec(store, activity, payload, now).1.ledger.take(store.ledger.len() as int)
            == store.ledger,
{
    let after = receive_spec(store, activity, payload, now).1;
    let entry = LedgerEntryView {
        ap_id: activity.id().text,
        payload,
        local: false,
        sensitive: activity is Follow || activity is UndoFollow,
        inserted_at: now,
    };
    lemma_insert_keeps_ids_unique(store.ledger, entry);
    assert(after.ledger == insert_spec(store.ledger, entry).1);
    assert(after.ledger.take(store.ledger.len() as int) =~= store.ledger);
    match activity {
        ActivityView::Delete(delete) => {
            assert forall|i: int| 0 <= i < after.mod_log.len() implies (
            #[trigger] after.mod_log[i]).reason != Some(Seq::<char>::empty()) by {
                if i < store.mod_log.len() {
                    assert(after.mod_log[i] == store.mod_log[i]);
                }
            }
        },
        ActivityView::Follow(follow) => {
            let form = relationship_spec(store, follow.actor.text, follow.object.text);
            if form is Ok {
                lemma_follow_idempotent(store.followers, form->Ok_0);
            }
        },
        ActivityView::UndoFollow(undo) => {
            let form = relationship_spec(store, undo.actor.text, undo.object.object.text);
            if form is Ok {
                lemma_unfollow_removes(store.followers, form->Ok_0);
            }
        },
    }
}

/// An envelope that is malformed or fails a check writes nothing, not even to the ledger.
pub proof fn lemma_rejected_writes_nothing(
    store: StoreView,
    envelope: EnvelopeView,
    payload: Seq<char>,
    claimed_actor: IriView,
    policy: PolicySnapshot,
    settings: Settings,
    now: u64,
)
    requires
        parse_spec(envelope) is None || verify_spec(
            store,
            parse_spec(envelope)->0,
            claimed_actor,
            policy,
            settings,
        ) is Err,
    ensures
        process_spec(store, envelope, payload, claimed_actor, policy, settings, now).1 == store,
        process_spec(store, envelope, payload, claimed_actor, policy, settings, now).0 is Err,
{
}

} // verus!

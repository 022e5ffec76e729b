//! Ids for the activities that this instance sends.

use crate::error::FederationError;
use crate::iri::{iri_of_parts, parsed_url, Iri, IriView};
use crate::protocol::ActivityKind;
use vstd::prelude::*;
use vstd::string::*;

verus! {

/// The text of an activity's address: the instance's protocol and host name, the kind as it
/// stands in a path, and what tells the activity from others of its kind.
pub open spec fn activity_path_text(
    protocol_and_hostname: Seq<char>,
    segment: Seq<char>,
    nonce: Seq<char>,
) -> Seq<char> {
    protocol_and_hostname + "/activities/"@ + segment + "/"@ + nonce
}

/// The text of an activity id: the instance's protocol and host name, the kind, and a nonce.
pub open spec fn activity_id_text(
    protocol_and_hostname: Seq<char>,
    kind: ActivityKind,
    nonce: Seq<char>,
) -> Seq<char> {
    activity_path_text(protocol_and_hostname, kind.path_segment_spec(), nonce)
}

/// Writes out an activity's address.
pub fn activity_path(protocol_and_hostname: &str, segment: &str, nonce: &str) -> (text: String)
    ensures
        text@ == activity_path_text(protocol_and_hostname@, segment@, nonce@),
{
    let mut text = String::from_str(protocol_and_hostname);
    text.append("/activities/");
    text.append(segment);
    text.append("/");
    text.append(nonce);
    text
}

/// The activity id that a nonce gives, where its text parses.
pub open spec fn activity_id_spec(
    protocol_and_hostname: Seq<char>,
    kind: ActivityKind,
    nonce: Seq<char>,
) -> Option<IriView> {
    match parsed_url(activity_id_text(protocol_and_hostname, kind, nonce)) {
        Some(parts) => Some(iri_of_parts(parts)),
        None => None,
    }
}

/// Whether an identifier is an activity id of this instance and kind, for some nonce.
pub open spec fn is_activity_id(protocol_and_hostname: Seq<char>, kind: ActivityKind, id: IriView) -> bool {
    exists|nonce: Seq<char>| activity_id_spec(protocol_and_hostname, kind, nonce) == Some(id)
}

/// Whether some nonce gives no activity id for this instance and kind: the text that it makes
/// is no URL.
pub open spec fn some_nonce_gives_no_id(protocol_and_hostname: Seq<char>, kind: ActivityKind) -> bool {
    exists|nonce: Seq<char>| activity_id_spec(protocol_and_hostname, kind, nonce) is None
}

/// Builds the id of an activity of the given kind from a nonce. It fails where the text put
/// together is no URL, which the host name decides.
pub fn activity_id_from_nonce(kind: ActivityKind, protocol_and_hostname: &str, nonce: &str) -> (id:
    Result<Iri, FederationError>)
    ensures
        match activity_id_spec(protocol_and_hostname@, kind, nonce@) {
            Some(view) => id is Ok && id->Ok_0@ == view,
            None => id == Err::<Iri, FederationError>(FederationError::MalformedActivity),
        },
{
    let text = activity_path(protocol_and_hostname, kind.path_segment(), nonce);
    match Iri::parse(text.as_str()) {
        Some(iri) => Ok(iri),
        None => Err(FederationError::MalformedActivity),
    }
}

/// Calls `uuid::Uuid::new_v4` and writes the value out. It is random, so nothing is claimed
/// of the text. Where the system has no randomness to give, the call does not return.
#[verifier::external_body]
fn fresh_nonce() -> String {
    uuid::Uuid::new_v4().to_string()
}

/// Builds a fresh id for an activity of the given kind. The nonce is random: the id is the
/// one that some nonce gives, and the call fails only where the text that some nonce makes
/// is no URL.
pub fn generate_activity_id(kind: ActivityKind, protocol_and_hostname: &str) -> (id: Result<
    Iri,
    FederationError,
>)
    ensures
        match id {
            Ok(iri) => is_activity_id(protocol_and_hostname@, kind, iri@),
            Err(e) => e == FederationError::MalformedActivity && some_nonce_gives_no_id(
                protocol_and_hostname@,
                kind,
            ),
        },
{
    let nonce = fresh_nonce();
    let id = activity_id_from_nonce(kind, protocol_and_hostname, nonce.as_str());
    proof {
        if id is Err {
            assert(activity_id_spec(protocol_and_hostname@, kind, nonce@) is None);
        }
    }
    id
}

} // verus!

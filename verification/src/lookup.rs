//! What a lookup comes to, given the system's answer.

use vstd::prelude::*;
use vstd::utf8::{decode_utf8, decode_utf8_encode_utf8, encode_utf8, valid_utf8};
use crate::text::decode_text;

verus! {

/// Why a lookup gave no path. Neither is a fault of the caller: both mean
/// that there is no path to hand out.
#[derive(Clone, Copy, Debug, PartialEq, Eq, Structural)]
pub enum LookupFailure {
    /// The system knows no such directory in the domain asked for.
    NoLocation,
    /// The system named a location, but its path is not readable text.
    UndecodableText,
}

/// What a lookup comes to when the system answers `reply`: nothing, or the
/// bytes in which it spells the path of the location.
pub open spec fn location_outcome(reply: Option<Seq<u8>>) -> Result<Seq<char>, LookupFailure> {
    match reply {
        None => Err(LookupFailure::NoLocation),
        Some(bytes) => if valid_utf8(bytes) {
            Ok(decode_utf8(bytes))
        } else {
            Err(LookupFailure::UndecodableText)
        },
    }
}

/// The system's answer as the sequence of bytes that it holds, if any.
pub open spec fn reply_bytes(reply: Option<&[u8]>) -> Option<Seq<u8>> {
    match reply {
        Some(bytes) => Some(bytes@),
        None => None,
    }
}

/// An outcome with its path as a sequence of characters.
pub open spec fn outcome_text(outcome: Result<String, LookupFailure>) -> Result<
    Seq<char>,
    LookupFailure,
> {
    match outcome {
        Ok(path) => Ok(path@),
        Err(failure) => Err(failure),
    }
}

/// The outcome of a directory lookup that the system answered with `reply`.
/// `reply` is `None` where the system found no location, else the bytes in
/// which it spells the location's path. The outcome is the path, or which of
/// the two things stood in its way.
pub fn resolve_location(reply: Option<&[u8]>) -> (outcome: Result<String, LookupFailure>)
    ensures
        outcome_text(outcome) == location_outcome(reply_bytes(reply)),
{
    match reply {
        None => Err(LookupFailure::NoLocation),
        Some(bytes) => match decode_text(bytes) {
            Some(path) => Ok(path),
            None => Err(LookupFailure::UndecodableText),
        },
    }
}

/// The outcome of the lookup of the user's home directory, which the system
/// answered with the bytes of its path. Inside a sandbox the system answers
/// with the container that stands for the home directory there.
pub fn resolve_home(bytes: &[u8]) -> (outcome: Result<String, LookupFailure>)
    ensures
        outcome_text(outcome) == location_outcome(Some(bytes@)),
{
    resolve_location(Some(bytes))
}

/// What the caller of a lookup gets: the path, or nothing. Why there is no
/// path is not passed on.
pub fn found_path(outcome: Result<String, LookupFailure>) -> (path: Option<String>)
    ensures
        outcome matches Ok(found) ==> path == Some(found),
        outcome is Err ==> path is None,
{
    match outcome {
        Ok(found) => Some(found),
        Err(_) => None,
    }
}

/// A lookup hands out a path with something in it, or none at all: where the
/// system spells the location with at least one byte, the path that is
/// resolved from it is not empty.
pub proof fn lemma_resolved_path_not_empty(reply: Option<Seq<u8>>)
    requires
        reply matches Some(bytes) ==> bytes.len() > 0,
    ensures
        location_outcome(reply) matches Ok(path) ==> path.len() > 0,
{
}

/// Asking twice gives the same: whatever two lookups hand back on the same
/// answer of the system, it is the same path or the same failure.
pub proof fn lemma_lookup_repeatable(
    reply: Option<Seq<u8>>,
    first: Result<String, LookupFailure>,
    second: Result<String, LookupFailure>,
)
    requires
        outcome_text(first) == location_outcome(reply),
        outcome_text(second) == location_outcome(reply),
    ensures
        outcome_text(first) == outcome_text(second),
        first is Ok <==> second is Ok,
{
}

/// A resolved path keeps all of the system's answer: written out as UTF-8
/// again, it is the very bytes that the system gave.
pub proof fn lemma_path_spells_reply(bytes: Seq<u8>)
    ensures
        location_outcome(Some(bytes)) matches Ok(path) ==> encode_utf8(path) == bytes,
{
    if valid_utf8(bytes) {
        decode_utf8_encode_utf8(bytes);
    }
}

/// Two answers that resolve to the same path are the same answer.
pub proof fn lemma_path_tells_reply(bytes: Seq<u8>, other: Seq<u8>)
    requires
        location_outcome(Some(bytes)) is Ok,
        location_outcome(Some(bytes)) == location_outcome(Some(other)),
    ensures
        bytes == other,
{
    lemma_path_spells_reply(bytes);
    lemma_path_spells_reply(other);
}

/// Once the system has named a location, the only thing that can still go
/// wrong is its text: the lookup succeeds exactly where the bytes are
/// well-formed UTF-8, and never reports that nothing was found.
pub proof fn lemma_located_fails_only_on_text(bytes: Seq<u8>)
    ensures
        location_outcome(Some(bytes)) is Ok <==> valid_utf8(bytes),
        location_outcome(Some(bytes)) != Err::<Seq<char>, LookupFailure>(LookupFailure::NoLocation),
{
}

} // verus!

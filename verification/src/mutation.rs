//! Fire-and-forget mutations: persist or discard one entry.
//!
//! A mutation is never cached and never single-flighted: every call yields
//! its own transport request, carrying the operator's credential, compactly
//! serialized, as the body.  The transport layer issues the request and
//! reports its outcome to the caller alone; no cache entry is touched.

use vstd::prelude::*;

verus! {

/// Which mutation to submit for an entry.
#[derive(Clone, Copy, Debug, PartialEq, Eq)]
pub enum MutationKind {
    /// Ask the remote service to persist the entry (an HTTP POST).
    Persist,
    /// Ask the remote service to discard the entry (an HTTP DELETE).
    Discard,
}

/// A mutation request the transport layer must issue against `{base}/{id}`.
#[derive(Clone, Debug, PartialEq, Eq)]
pub struct MutationRequest {
    /// Persist or discard.
    pub kind: MutationKind,
    /// Identifier of the entry the mutation targets.
    pub id: u64,
    /// The request body: the credential, compactly serialized.
    pub body: Vec<u8>,
}

/// What the compact serialization of a credential string is: its
/// length-prefixed UTF-8 bytes, a function of the string alone.
pub uninterp spec fn credential_encoding(credential: Seq<char>) -> Seq<u8>;

/// Relies on postcard::to_allocvec: serializing a string yields its varint
/// length prefix followed by its UTF-8 bytes, depending on the string
/// alone; into a growable buffer the serializer has no failure path for
/// strings, so the call always succeeds.
#[verifier::external_body]
fn encode_credential(credential: &str) -> (r: Result<Vec<u8>, String>)
    ensures
        r is Ok,
        r matches Ok(v) ==> v@ == credential_encoding(credential@),
{
    postcard::to_allocvec(credential).map_err(|e| format!("{}", e))
}

/// The HTTP method of a mutation: POST persists, DELETE discards.
pub fn method_name(kind: MutationKind) -> (m: &'static str)
    ensures
        kind is Persist ==> m@ == "POST"@,
        kind is Discard ==> m@ == "DELETE"@,
{
    match kind {
        MutationKind::Persist => "POST",
        MutationKind::Discard => "DELETE",
    }
}

/// Builds the mutation request for an already-serialized credential.
/// Verified for every body value the serializer may hand back.
pub fn build_mutation_request(kind: MutationKind, id: u64, body: Vec<u8>) -> (r: MutationRequest)
    ensures
        r == (MutationRequest { kind, id, body }),
{
    MutationRequest { kind, id, body }
}

/// Prepares the fire-and-forget mutation call for `id`: serializes the
/// credential and names the target.  The serializer has no failure path
/// for strings, so the request is always returned.
pub fn submit_mutation(kind: MutationKind, id: u64, credential: &str) -> (r: Option<MutationRequest>)
    ensures
        r is Some,
        r matches Some(req) ==> req.kind == kind && req.id == id && req.body@ == credential_encoding(
            credential@,
        ),
{
    match encode_credential(credential) {
        Ok(body) => Some(build_mutation_request(kind, id, body)),
        Err(_) => None,
    }
}

} // verus!

//! The signing coordinator: it turns a challenge and a registered key pair
//! into a remote authenticate request, and the remote DER-encoded answer
//! into an SSH signature wire blob.

use vstd::prelude::*;
use crate::codec::{algorithm_id, spec_algorithm_id, SshFido2KeyPair};
use crate::der::{parse_ecdsa_der, spec_parse_ecdsa_der};
use crate::errors::AgentError;
use crate::registry::clone_bytes;
use crate::wire::{lemma_be32_round_trip, spec_lv, spec_take_lv, spec_u32_be, write_lv, write_u32_be, write_u8};

verus! {

/// The SHA-256 digest of a byte string, as the trusted hash routine
/// computes it: it depends on the message bytes alone.
pub uninterp spec fn spec_sha256(data: Seq<u8>) -> Seq<u8>;

/// Relies on sodiumoxide::crypto::hash::sha256::hash: a 32-byte SHA-256
/// digest of the message, a function of the message bytes alone.
#[verifier::external_body]
pub fn sha256(data: &[u8]) -> (r: Vec<u8>)
    ensures
        r@ == spec_sha256(data@),
        r@.len() == 32,
{
    sodiumoxide::crypto::hash::sha256::hash(data).0.to_vec()
}

/// The request sent to the remote signing service for one authentication
/// challenge.
pub struct AuthenticateRequest {
    /// SHA-256 fingerprint of the challenge bytes; always 32 bytes.
    pub challenge_fingerprint: Vec<u8>,
    /// The relying-party identifier of the selected credential.
    pub relying_party_id: Vec<u8>,
    /// The key handle of the selected credential.
    pub key_handle: Vec<u8>,
}

/// The remote signing service's answer: a DER-encoded ECDSA signature and
/// the authenticator's usage counter.
pub struct AuthenticateResponse {
    pub signature: Vec<u8>,
    pub counter: u32,
}

/// Failure of the transport or of the remote signing service itself.
#[derive(Clone, Copy, Debug, PartialEq, Eq, Structural)]
pub struct RemoteFailure;

/// The outbound channel to the remote signing service. The agent core never
/// performs the network round trip itself: callers hand it an implementation
/// of this port, and nothing is assumed of what comes back.
pub trait RemoteSigner {
    /// Performs one remote authenticate round trip.
    fn authenticate(&mut self, request: &AuthenticateRequest) -> Result<
        AuthenticateResponse,
        RemoteFailure,
    >;
}

/// Builds the remote authenticate request for one challenge: the SHA-256
/// fingerprint of the challenge bytes, with the relying-party identifier
/// and the key handle stored for the selected credential.
pub fn build_authenticate_request(key_pair: &SshFido2KeyPair, data: &[u8]) -> (r:
    AuthenticateRequest)
    ensures
        r.challenge_fingerprint@ == spec_sha256(data@),
        r.challenge_fingerprint@.len() == 32,
        r.relying_party_id@ == key_pair@.application,
        r.key_handle@ == key_pair@.key_handle,
{
    AuthenticateRequest {
        challenge_fingerprint: sha256(data),
        relying_party_id: clone_bytes(&key_pair.application),
        key_handle: clone_bytes(&key_pair.key_handle),
    }
}

/// The inner ECDSA signature blob: `r` then `s`, each length-prefixed, both
/// kept byte-for-byte as DER emitted them.
pub open spec fn spec_encode_ecdsa_wire(r: Seq<u8>, s: Seq<u8>) -> Seq<u8> {
    spec_lv(r) + spec_lv(s)
}

/// The outer SSH signature wire blob: the length-prefixed algorithm
/// identifier, the length-prefixed inner ECDSA blob, one flags byte fixed to
/// `0x01` (user-present), and the 4-byte big-endian counter.
pub open spec fn spec_encode_signature_blob(r: Seq<u8>, s: Seq<u8>, counter: u32) -> Seq<u8> {
    spec_lv(spec_algorithm_id()) + spec_lv(spec_encode_ecdsa_wire(r, s)) + seq![0x01u8]
        + spec_u32_be(counter)
}

/// Whether the machine can length-prefix the inner blob of `r` and `s`: its
/// total length must fit the 4-byte length field.
pub open spec fn spec_signature_fits(r: Seq<u8>, s: Seq<u8>) -> bool {
    8 + r.len() + s.len() < 0x1_0000_0000
}

/// Encodes the inner ECDSA signature blob, exactly as
/// `spec_encode_ecdsa_wire` says.
pub fn encode_ecdsa_wire(r: &[u8], s: &[u8]) -> (out: Vec<u8>)
    requires
        spec_signature_fits(r@, s@),
    ensures
        out@ == spec_encode_ecdsa_wire(r@, s@),
{
    let mut out: Vec<u8> = Vec::new();
    write_lv(&mut out, r);
    write_lv(&mut out, s);
    out
}

/// Turns the remote signing service's answer into the SSH signature wire
/// blob. It fails with `MalformedSignature` if and only if the signature
/// bytes are not a valid DER-encoded ECDSA signature, or their integers are
/// too long for the 4-byte length fields of the wire blob.
pub fn encode_signature_response(sig_der: &[u8], counter: u32) -> (result: Result<
    Vec<u8>,
    AgentError,
>)
    ensures
        match result {
            Ok(sig) => {
                &&& spec_parse_ecdsa_der(sig_der@) matches Some(pair) && sig@
                    == spec_encode_signature_blob(pair.0, pair.1, counter) && spec_signature_fits(
                    pair.0,
                    pair.1,
                )
            },
            Err(e) => {
                &&& e == AgentError::MalformedSignature
                &&& match spec_parse_ecdsa_der(sig_der@) {
                    None => true,
                    Some(pair) => !spec_signature_fits(pair.0, pair.1),
                }
            },
        },
{
    let pair = match parse_ecdsa_der(sig_der) {
        None => { return Err(AgentError::MalformedSignature); },
        Some(p) => p,
    };
    let r_len = pair.r.len();
    let s_len = pair.s.len();
    let limit: usize = 0xffff_ffff;
    if r_len > limit - 8 || s_len > limit - 8 - r_len {
        return Err(AgentError::MalformedSignature);
    }
    let inner = encode_ecdsa_wire(pair.r.as_slice(), pair.s.as_slice());
    let mut out: Vec<u8> = Vec::new();
    let alg = algorithm_id();
    write_lv(&mut out, alg.as_slice());
    write_lv(&mut out, inner.as_slice());
    write_u8(&mut out, 0x01);
    write_u32_be(&mut out, counter);
    Ok(out)
}

/// Wire-encoding the integers decoded from a DER-encoded ECDSA signature
/// preserves their exact byte length and content: reading the two
/// length-prefixed fields of the inner blob gives `r` and `s` back verbatim.
pub proof fn lemma_wire_encode_preserves_der_integers(der: Seq<u8>, r: Seq<u8>, s: Seq<u8>)
    requires
        spec_parse_ecdsa_der(der) == Some((r, s)),
        spec_signature_fits(r, s),
    ensures
        spec_encode_ecdsa_wire(r, s).len() == 8 + r.len() + s.len(),
        spec_take_lv(spec_encode_ecdsa_wire(r, s), 0) == Some((r, 4 + r.len() as int)),
        spec_take_lv(spec_encode_ecdsa_wire(r, s), 4 + r.len() as int) == Some(
            (s, spec_encode_ecdsa_wire(r, s).len() as int),
        ),
{
    let inner = spec_encode_ecdsa_wire(r, s);
    let rn = r.len() as u32;
    let sn = s.len() as u32;
    lemma_be32_round_trip(rn);
    lemma_be32_round_trip(sn);
    assert(inner[0] == spec_u32_be(rn)[0]);
    assert(inner[1] == spec_u32_be(rn)[1]);
    assert(inner[2] == spec_u32_be(rn)[2]);
    assert(inner[3] == spec_u32_be(rn)[3]);
    assert(inner.subrange(4, 4 + r.len() as int) =~= r);
    let p = 4 + r.len() as int;
    assert(inner[p] == spec_u32_be(sn)[0]);
    assert(inner[p + 1] == spec_u32_be(sn)[1]);
    assert(inner[p + 2] == spec_u32_be(sn)[2]);
    assert(inner[p + 3] == spec_u32_be(sn)[3]);
    assert(inner.subrange(p + 4, p + 4 + s.len() as int) =~= s);
}

} // verus!

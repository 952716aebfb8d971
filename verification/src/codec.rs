//! Codec for the fixed-field FIDO2 registration blob and for the SSH-format
//! public key blob that the agent hands out and later matches on.

use vstd::prelude::*;
use crate::wire::{spec_lv, spec_take_lv, read_lv, write_lv, write_u8};

verus! {

/// A hardware-backed FIDO2 key pair as the registry stores it.
pub struct SshFido2KeyPair {
    /// Relying-party identifier the credential is scoped to (typically `ssh:`).
    pub application: Vec<u8>,
    /// Authenticator-issued opaque reference to the credential.
    pub key_handle: Vec<u8>,
    /// The EC point of the public key.
    pub public_key: Vec<u8>,
    /// The authenticator flags byte recorded at registration.
    pub flags: u8,
}

/// The mathematical model of a stored key pair.
pub struct KeyPairModel {
    pub application: Seq<u8>,
    pub key_handle: Seq<u8>,
    pub public_key: Seq<u8>,
    pub flags: u8,
}

impl View for SshFido2KeyPair {
    type V = KeyPairModel;

    open spec fn view(&self) -> KeyPairModel {
        KeyPairModel {
            application: self.application@,
            key_handle: self.key_handle@,
            public_key: self.public_key@,
            flags: self.flags,
        }
    }
}

/// Failure of the registration-blob decoder: a declared length runs past the
/// remaining buffer, or the buffer ends early.
#[derive(Clone, Copy, Debug, PartialEq, Eq, Structural)]
pub struct FormatError;

/// The byte string `sk-ecdsa-sha2-nistp256@openssh.com`, the one supported
/// algorithm identifier, used both in public key blobs and signature blobs.
pub open spec fn spec_algorithm_id() -> Seq<u8> {
    seq![
        0x73u8, 0x6bu8, 0x2du8, 0x65u8, 0x63u8, 0x64u8, 0x73u8, 0x61u8, 0x2du8, 0x73u8, 0x68u8,
        0x61u8, 0x32u8, 0x2du8, 0x6eu8, 0x69u8, 0x73u8, 0x74u8, 0x70u8, 0x32u8, 0x35u8, 0x36u8,
        0x40u8, 0x6fu8, 0x70u8, 0x65u8, 0x6eu8, 0x73u8, 0x73u8, 0x68u8, 0x2eu8, 0x63u8, 0x6fu8,
        0x6du8,
    ]
}

/// The bytes of `sk-ecdsa-sha2-nistp256@openssh.com`.
pub fn algorithm_id() -> (r: Vec<u8>)
    ensures
        r@ == spec_algorithm_id(),
{
    let mut v: Vec<u8> = Vec::new();
    v.push(0x73);
    v.push(0x6b);
    v.push(0x2d);
    v.push(0x65);
    v.push(0x63);
    v.push(0x64);
    v.push(0x73);
    v.push(0x61);
    v.push(0x2d);
    v.push(0x73);
    v.push(0x68);
    v.push(0x61);
    v.push(0x32);
    v.push(0x2d);
    v.push(0x6e);
    v.push(0x69);
    v.push(0x73);
    v.push(0x74);
    v.push(0x70);
    v.push(0x32);
    v.push(0x35);
    v.push(0x36);
    v.push(0x40);
    v.push(0x6f);
    v.push(0x70);
    v.push(0x65);
    v.push(0x6e);
    v.push(0x73);
    v.push(0x73);
    v.push(0x68);
    v.push(0x2e);
    v.push(0x63);
    v.push(0x6f);
    v.push(0x6d);
    proof {
        assert(v@ =~= spec_algorithm_id());
    }
    v
}

/// The decoded form of a registration blob: in strict order, a length-prefixed
/// curve name (discarded), a length-prefixed EC point, a length-prefixed
/// application string, one flags byte, a length-prefixed key handle, and a
/// trailing length-prefixed reserved field (discarded). Nothing when a
/// declared length exceeds the remaining buffer or the buffer ends early.
pub open spec fn spec_decode_registration(s: Seq<u8>) -> Option<KeyPairModel> {
    match spec_take_lv(s, 0) {
        None => None,
        Some((curve_name, i1)) => match spec_take_lv(s, i1) {
            None => None,
            Some((public_key, i2)) => match spec_take_lv(s, i2) {
                None => None,
                Some((application, i3)) => if i3 >= s.len() {
                    None
                } else {
                    match spec_take_lv(s, i3 + 1) {
                        None => None,
                        Some((key_handle, i4)) => match spec_take_lv(s, i4) {
                            None => None,
                            Some(_reserved) => Some(
                                KeyPairModel {
                                    application,
                                    key_handle,
                                    public_key,
                                    flags: s[i3],
                                },
                            ),
                        },
                    }
                },
            },
        },
    }
}

/// Decodes a registration blob, exactly as `spec_decode_registration` says:
/// it fails if and only if a declared length exceeds the remaining buffer or
/// the buffer ends early.
pub fn decode_registration_blob(blob: &[u8]) -> (r: Result<SshFido2KeyPair, FormatError>)
    ensures
        match r {
            Ok(key_pair) => spec_decode_registration(blob@) == Some(key_pair@),
            Err(_) => spec_decode_registration(blob@) is None,
        },
{
    let r1 = read_lv(blob, 0);
    let (_curve_name, i1) = match r1 {
        None => { return Err(FormatError); },
        Some(p) => p,
    };
    let r2 = read_lv(blob, i1);
    let (public_key, i2) = match r2 {
        None => { return Err(FormatError); },
        Some(p) => p,
    };
    let r3 = read_lv(blob, i2);
    let (application, i3) = match r3 {
        None => { return Err(FormatError); },
        Some(p) => p,
    };
    if i3 >= blob.len() {
        return Err(FormatError);
    }
    let flags = blob[i3];
    let r4 = read_lv(blob, i3 + 1);
    let (key_handle, i4) = match r4 {
        None => { return Err(FormatError); },
        Some(p) => p,
    };
    let r5 = read_lv(blob, i4);
    if r5.is_none() {
        return Err(FormatError);
    }
    Ok(SshFido2KeyPair { application, key_handle, public_key, flags })
}

/// The SSH-format public key blob of a stored key pair: the length-prefixed
/// algorithm identifier, then the length-prefixed EC point, the
/// length-prefixed application string, and the flags byte.
pub open spec fn spec_encode_public_key(key_pair: KeyPairModel) -> Seq<u8> {
    spec_lv(spec_algorithm_id()) + spec_lv(key_pair.public_key) + spec_lv(key_pair.application)
        + seq![key_pair.flags]
}

impl SshFido2KeyPair {
    /// The key type identifier under which this kind of key pair is added.
    pub open spec fn spec_type_id() -> Seq<char> {
        "FIDO2-ecdsa-sk"@
    }

    /// The one supported key type identifier, `FIDO2-ecdsa-sk`.
    pub fn type_id() -> (r: String)
        ensures
            r@ == Self::spec_type_id(),
    {
        "FIDO2-ecdsa-sk".to_owned()
    }

    /// Produces the full SSH-format public key blob for this key pair,
    /// exactly as `spec_encode_public_key` says.
    pub fn encode_public_key(&self) -> (r: Vec<u8>)
        requires
            self.public_key@.len() < 0x1_0000_0000,
            self.application@.len() < 0x1_0000_0000,
        ensures
            r@ == spec_encode_public_key(self@),
    {
        let mut out: Vec<u8> = Vec::new();
        let alg = algorithm_id();
        write_lv(&mut out, alg.as_slice());
        write_lv(&mut out, self.public_key.as_slice());
        write_lv(&mut out, self.application.as_slice());
        write_u8(&mut out, self.flags);
        out
    }
}

/// Every field decoded from a registration blob is a part of that blob, so
/// none is longer than the blob itself.
pub proof fn lemma_decoded_fields_bounded(blob: Seq<u8>, key_pair: KeyPairModel)
    requires
        spec_decode_registration(blob) == Some(key_pair),
    ensures
        key_pair.public_key.len() <= blob.len(),
        key_pair.application.len() <= blob.len(),
        key_pair.key_handle.len() <= blob.len(),
{
}

/// Decoding a valid registration blob and re-encoding the public key is
/// deterministic: identical input bytes always yield identical output bytes.
pub proof fn lemma_codec_deterministic(blob1: Seq<u8>, blob2: Seq<u8>)
    requires
        blob1 == blob2,
        spec_decode_registration(blob1) is Some,
    ensures
        spec_encode_public_key(spec_decode_registration(blob1)->Some_0) == spec_encode_public_key(
            spec_decode_registration(blob2)->Some_0,
        ),
{
}

} // verus!

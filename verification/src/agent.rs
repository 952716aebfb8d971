//! The protocol handler: the single entry point the outer dispatcher drives.
//! It composes the registration-blob codec, the identity registry and the
//! signing coordinator into the three SSH-agent operations.

use vstd::prelude::*;
use crate::codec::{
    decode_registration_blob, lemma_decoded_fields_bounded, spec_decode_registration,
    spec_encode_public_key, KeyPairModel, SshFido2KeyPair,
};
use crate::errors::AgentError;
use crate::registry::{
    spec_has_key, Identity, IdentityModel, IdentityRegistry, RegistryEntryModel,
};
use crate::sign::{
    build_authenticate_request, encode_signature_response, spec_encode_signature_blob,
    spec_signature_fits, RemoteSigner,
};

verus! {

/// The registry entry built for one successfully decoded registration blob:
/// the exposed identity carries the re-encoded public key blob and an empty
/// comment, paired with the decoded key pair itself.
pub open spec fn spec_registered_entry(key_pair: KeyPairModel) -> RegistryEntryModel {
    RegistryEntryModel {
        id: IdentityModel {
            key_blob: spec_encode_public_key(key_pair),
            key_comment: Seq::<char>::empty(),
        },
        key_pair,
    }
}

/// The application-level SSH agent: a remote-signing client and the registry
/// of identities it answers for.
pub struct Agent<S> {
    /// The outbound channel to the remote signing service.
    pub client: S,
    registry: IdentityRegistry,
}

impl<S> Agent<S> {
    /// The remote-signing client this agent drives.
    pub closed spec fn spec_client(&self) -> S {
        self.client
    }
}

impl<S> View for Agent<S> {
    type V = Seq<RegistryEntryModel>;

    closed spec fn view(&self) -> Seq<RegistryEntryModel> {
        self.registry@
    }
}

impl<S> Agent<S> {
    /// An agent with the given client and no registered identities.
    pub fn new(client: S) -> (r: Agent<S>)
        ensures
            r@ == Seq::<RegistryEntryModel>::empty(),
            r.spec_client() == client,
    {
        Agent { client, registry: IdentityRegistry::new() }
    }
}

impl<S: RemoteSigner> Agent<S> {
    /// The registered identities, in registration order; no side effects.
    pub fn identities(&self) -> (r: Vec<Identity>)
        ensures
            r@.len() == self@.len(),
            forall|i: int| 0 <= i < r@.len() ==> r@[i]@ == self@[i].id,
    {
        self.registry.list()
    }

    /// Registers one identity from its registration blob. An unsupported
    /// key type fails with `UnsupportedKeyType` and a blob that does not
    /// decode fails with `MalformedBlob`, each leaving the registry
    /// unchanged; otherwise the decoded key pair and its re-encoded public
    /// key blob are appended as the newest entry.
    pub fn add_identity(&mut self, key_type: String, key_blob: Vec<u8>) -> (r: Result<
        (),
        AgentError,
    >)
        requires
            key_blob@.len() < 0x1_0000_0000,
        ensures
            final(self).spec_client() == old(self).spec_client(),
            key_type@ != SshFido2KeyPair::spec_type_id() ==> r == Err::<(), AgentError>(
                AgentError::UnsupportedKeyType,
            ) && final(self)@ == old(self)@,
            key_type@ == SshFido2KeyPair::spec_type_id() && spec_decode_registration(key_blob@)
                is None ==> r == Err::<(), AgentError>(AgentError::MalformedBlob) && final(self)@
                == old(self)@,
            key_type@ == SshFido2KeyPair::spec_type_id() ==> (spec_decode_registration(key_blob@)
                matches Some(key_pair) ==> r == Ok::<(), AgentError>(()) && final(self)@ == old(
                self,
            )@.push(spec_registered_entry(key_pair))),
    {
        let supported = SshFido2KeyPair::type_id();
        if !(key_type == supported) {
            return Err(AgentError::UnsupportedKeyType);
        }
        let decoded = match decode_registration_blob(key_blob.as_slice()) {
            Err(_) => { return Err(AgentError::MalformedBlob); },
            Ok(key_pair) => key_pair,
        };
        proof {
            lemma_decoded_fields_bounded(key_blob@, decoded@);
        }
        let public_blob = decoded.encode_public_key();
        let identity = Identity { key_blob: public_blob, key_comment: String::new() };
        self.registry.register(identity, decoded);
        Ok(())
    }

    /// Produces a signature for an authentication challenge. A public key
    /// blob absent from the registry fails with `UnknownKey`, if and only
    /// if, without contacting the remote service; otherwise the challenge
    /// fingerprint, the stored relying-party identifier and the stored key
    /// handle go to the remote service, and its DER-encoded answer comes
    /// back re-encoded as the SSH signature wire blob. The registry is
    /// never changed. The `flags` input is accepted but not consulted.
    pub fn sign_request(&mut self, pubkey: Vec<u8>, data: Vec<u8>, flags: u32) -> (r: Result<
        Vec<u8>,
        AgentError,
    >)
        ensures
            final(self)@ == old(self)@,
            r == Err::<Vec<u8>, AgentError>(AgentError::UnknownKey) <==> !spec_has_key(
                old(self)@,
                pubkey@,
            ),
            !spec_has_key(old(self)@, pubkey@) ==> final(self).spec_client() == old(
                self,
            ).spec_client(),
            r matches Ok(sig) ==> exists|p: (Seq<u8>, Seq<u8>), counter: u32|
                sig@ == spec_encode_signature_blob(p.0, p.1, counter) && spec_signature_fits(
                    p.0,
                    p.1,
                ),
            r matches Err(e) ==> e == AgentError::UnknownKey || e
                == AgentError::RemoteSigningFailure || e == AgentError::MalformedSignature,
    {
        let found = self.registry.find_by_public_key(pubkey.as_slice());
        let key_pair = match found {
            None => { return Err(AgentError::UnknownKey); },
            Some(key_pair) => key_pair,
        };
        let request = build_authenticate_request(key_pair, data.as_slice());
        let response = match self.client.authenticate(&request) {
            Err(_) => { return Err(AgentError::RemoteSigningFailure); },
            Ok(response) => response,
        };
        let result = encode_signature_response(response.signature.as_slice(), response.counter);
        match result {
            Ok(sig) => {
                proof {
                    let pair = crate::der::spec_parse_ecdsa_der(response.signature@)->Some_0;
                    assert(sig@ == spec_encode_signature_blob(pair.0, pair.1, response.counter)
                        && spec_signature_fits(pair.0, pair.1));
                }
                Ok(sig)
            },
            Err(e) => Err(e),
        }
    }
}

/// After a successful registration the registry holds exactly one more
/// entry: the earlier entries are unchanged, in order, and the entry built
/// from the decoded blob is last.
pub proof fn lemma_add_identity_appends(
    pre: Seq<RegistryEntryModel>,
    post: Seq<RegistryEntryModel>,
    key_blob: Seq<u8>,
)
    requires
        spec_decode_registration(key_blob) is Some,
        post == pre.push(spec_registered_entry(spec_decode_registration(key_blob)->Some_0)),
    ensures
        post.len() == pre.len() + 1,
        post.last() == spec_registered_entry(spec_decode_registration(key_blob)->Some_0),
        forall|i: int| 0 <= i < pre.len() ==> post[i] == pre[i],
{
}

} // verus!

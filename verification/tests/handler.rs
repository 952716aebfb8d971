use sk_agent::agent::Agent;
use sk_agent::errors::AgentError;
use sk_agent::sign::{AuthenticateRequest, AuthenticateResponse, RemoteFailure, RemoteSigner};

const ALGORITHM_ID: &[u8] = b"sk-ecdsa-sha2-nistp256@openssh.com";
const KEY_TYPE: &str = "FIDO2-ecdsa-sk";

fn lv(data: &[u8]) -> Vec<u8> {
    let mut out = (data.len() as u32).to_be_bytes().to_vec();
    out.extend_from_slice(data);
    out
}

fn registration_blob(
    public_key: &[u8],
    application: &[u8],
    flags: u8,
    key_handle: &[u8],
) -> Vec<u8> {
    let mut blob = lv(b"nistp256");
    blob.extend_from_slice(&lv(public_key));
    blob.extend_from_slice(&lv(application));
    blob.push(flags);
    blob.extend_from_slice(&lv(key_handle));
    blob.extend_from_slice(&lv(b""));
    blob
}

/// A stub remote service that answers every request with fixed bytes and
/// records what it was asked.
struct StubSigner {
    signature: Vec<u8>,
    counter: u32,
    fail: bool,
    calls: u32,
    last_fingerprint: Vec<u8>,
    last_relying_party_id: Vec<u8>,
    last_key_handle: Vec<u8>,
}

impl StubSigner {
    fn answering(signature: Vec<u8>, counter: u32) -> StubSigner {
        StubSigner {
            signature,
            counter,
            fail: false,
            calls: 0,
            last_fingerprint: Vec::new(),
            last_relying_party_id: Vec::new(),
            last_key_handle: Vec::new(),
        }
    }

    fn failing() -> StubSigner {
        let mut stub = StubSigner::answering(Vec::new(), 0);
        stub.fail = true;
        stub
    }
}

impl RemoteSigner for StubSigner {
    fn authenticate(
        &mut self,
        request: &AuthenticateRequest,
    ) -> Result<AuthenticateResponse, RemoteFailure> {
        self.calls += 1;
        self.last_fingerprint = request.challenge_fingerprint.clone();
        self.last_relying_party_id = request.relying_party_id.clone();
        self.last_key_handle = request.key_handle.clone();
        if self.fail {
            Err(RemoteFailure)
        } else {
            Ok(AuthenticateResponse { signature: self.signature.clone(), counter: self.counter })
        }
    }
}

/// A remote service that must never be reached.
struct UnreachableSigner;

impl RemoteSigner for UnreachableSigner {
    fn authenticate(
        &mut self,
        _request: &AuthenticateRequest,
    ) -> Result<AuthenticateResponse, RemoteFailure> {
        panic!("the remote signing service must not be contacted");
    }
}

#[test]
fn unsupported_key_type_is_rejected_and_registry_unchanged() {
    let mut agent = Agent::new(UnreachableSigner);
    let blob = registration_blob(&[4; 65], b"ssh:", 0x01, &[0xAB; 16]);
    assert_eq!(
        agent.add_identity("ssh-rsa".to_owned(), blob.clone()),
        Err(AgentError::UnsupportedKeyType)
    );
    assert_eq!(agent.identities().len(), 0);
    assert_eq!(agent.add_identity(KEY_TYPE.to_owned(), blob.clone()), Ok(()));
    assert_eq!(
        agent.add_identity("sk-ssh-ed25519@openssh.com".to_owned(), blob),
        Err(AgentError::UnsupportedKeyType)
    );
    assert_eq!(agent.identities().len(), 1);
}

#[test]
fn malformed_blob_is_rejected_and_registry_unchanged() {
    let mut agent = Agent::new(UnreachableSigner);
    assert_eq!(
        agent.add_identity(KEY_TYPE.to_owned(), vec![0, 0, 0, 9, 1]),
        Err(AgentError::MalformedBlob)
    );
    assert_eq!(agent.identities().len(), 0);
}

#[test]
fn successful_registration_appends_one_entry_last() {
    let mut agent = Agent::new(UnreachableSigner);
    let first = registration_blob(&[1; 65], b"ssh:", 0x01, &[0x11; 16]);
    let second = registration_blob(&[2; 65], b"ssh:other", 0x01, &[0x22; 16]);
    assert_eq!(agent.add_identity(KEY_TYPE.to_owned(), first), Ok(()));
    assert_eq!(agent.identities().len(), 1);
    assert_eq!(agent.add_identity(KEY_TYPE.to_owned(), second), Ok(()));
    let listed = agent.identities();
    assert_eq!(listed.len(), 2);
    let first_blob = listed[0].key_blob.clone();
    let second_blob = listed[1].key_blob.clone();
    // Registration order is preserved: the newest entry is last.
    let mut expected_last = lv(ALGORITHM_ID);
    expected_last.extend_from_slice(&lv(&[2; 65]));
    expected_last.extend_from_slice(&lv(b"ssh:other"));
    expected_last.push(0x01);
    assert_ne!(first_blob, second_blob);
    assert_eq!(second_blob, expected_last);
    assert_eq!(listed[1].key_comment, String::new());
}

#[test]
fn unknown_key_never_contacts_the_remote_service() {
    let mut agent = Agent::new(UnreachableSigner);
    let blob = registration_blob(&[4; 65], b"ssh:", 0x01, &[0xAB; 16]);
    assert_eq!(agent.add_identity(KEY_TYPE.to_owned(), blob), Ok(()));
    let absent = vec![1, 2, 3, 4];
    assert_eq!(
        agent.sign_request(absent, b"challenge".to_vec(), 0),
        Err(AgentError::UnknownKey)
    );
}

#[test]
fn remote_failure_surfaces_as_remote_signing_failure() {
    let mut agent = Agent::new(StubSigner::failing());
    let blob = registration_blob(&[4; 65], b"ssh:", 0x01, &[0xAB; 16]);
    agent.add_identity(KEY_TYPE.to_owned(), blob).unwrap();
    let pubkey = agent.identities()[0].key_blob.clone();
    assert_eq!(
        agent.sign_request(pubkey, b"challenge".to_vec(), 0),
        Err(AgentError::RemoteSigningFailure)
    );
}

#[test]
fn undecodable_remote_signature_is_malformed() {
    let mut agent = Agent::new(StubSigner::answering(b"junk".to_vec(), 3));
    let blob = registration_blob(&[4; 65], b"ssh:", 0x01, &[0xAB; 16]);
    agent.add_identity(KEY_TYPE.to_owned(), blob).unwrap();
    let pubkey = agent.identities()[0].key_blob.clone();
    assert_eq!(
        agent.sign_request(pubkey, b"challenge".to_vec(), 0),
        Err(AgentError::MalformedSignature)
    );
}

#[test]
fn end_to_end_registration_and_signing() {
    let der = vec![0x30, 0x06, 0x02, 0x01, 0x01, 0x02, 0x01, 0x02];
    let mut agent = Agent::new(StubSigner::answering(der, 7));
    let blob = registration_blob(&[0; 32], b"ssh:", 0x01, &[0xAB; 16]);
    assert_eq!(agent.add_identity(KEY_TYPE.to_owned(), blob), Ok(()));

    let listed = agent.identities();
    assert_eq!(listed.len(), 1);
    let pubkey = listed[0].key_blob.clone();
    let mut expected_prefix = vec![0, 0, 0, 34];
    expected_prefix.extend_from_slice(ALGORITHM_ID);
    assert_eq!(&pubkey[..expected_prefix.len()], &expected_prefix[..]);

    let signature = agent.sign_request(pubkey, b"hello".to_vec(), 0).unwrap();

    // The request carried the stored credential and a 32-byte fingerprint.
    assert_eq!(agent.client.calls, 1);
    assert_eq!(agent.client.last_fingerprint.len(), 32);
    assert_eq!(agent.client.last_relying_party_id, b"ssh:".to_vec());
    assert_eq!(agent.client.last_key_handle, vec![0xAB; 16]);

    // The signature blob decodes to the algorithm identifier, r, s, the
    // user-present flags byte and the counter.
    let mut expected = lv(ALGORITHM_ID);
    let mut inner = lv(&[0x01]);
    inner.extend_from_slice(&lv(&[0x02]));
    expected.extend_from_slice(&lv(&inner));
    expected.push(0x01);
    expected.extend_from_slice(&[0, 0, 0, 7]);
    assert_eq!(signature, expected);
}

#[test]
fn error_names_are_stable() {
    assert_eq!(AgentError::UnsupportedKeyType.name(), "unsupported key type");
    assert_eq!(AgentError::MalformedBlob.name(), "malformed blob");
    assert_eq!(AgentError::UnknownKey.name(), "unknown key");
    assert_eq!(AgentError::RemoteSigningFailure.name(), "remote signing failure");
    assert_eq!(AgentError::MalformedSignature.name(), "malformed signature");
}

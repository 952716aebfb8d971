//! The in-memory identity registry: an ordered, append-only store of
//! registered identities with exact-match lookup by public key bytes.

use vstd::prelude::*;
use crate::codec::{KeyPairModel, SshFido2KeyPair};

verus! {

/// One identity as the listing operation exposes it.
pub struct Identity {
    /// The full SSH-format public key blob; also the exact-match lookup key.
    pub key_blob: Vec<u8>,
    /// The comment shown beside the key.
    pub key_comment: String,
}

/// The mathematical model of an exposed identity.
pub struct IdentityModel {
    pub key_blob: Seq<u8>,
    pub key_comment: Seq<char>,
}

impl View for Identity {
    type V = IdentityModel;

    open spec fn view(&self) -> IdentityModel {
        IdentityModel { key_blob: self.key_blob@, key_comment: self.key_comment@ }
    }
}

impl Identity {
    /// A copy of this identity with the same blob and comment.
    pub fn duplicate(&self) -> (r: Identity)
        ensures
            r@ == self@,
    {
        Identity {
            key_blob: clone_bytes(&self.key_blob),
            key_comment: self.key_comment.clone(),
        }
    }
}

/// A copy of a byte vector with the same contents.
pub fn clone_bytes(v: &Vec<u8>) -> (r: Vec<u8>)
    ensures
        r@ == v@,
{
    let r = v.clone();
    proof {
        assert(r@ =~= v@);
    }
    r
}

/// One registry entry: the exposed identity, 1:1 paired with the stored
/// FIDO2 key pair it was built from.
pub struct RegistryEntry {
    pub id: Identity,
    pub key_pair: SshFido2KeyPair,
}

/// The mathematical model of a registry entry.
pub struct RegistryEntryModel {
    pub id: IdentityModel,
    pub key_pair: KeyPairModel,
}

impl View for RegistryEntry {
    type V = RegistryEntryModel;

    open spec fn view(&self) -> RegistryEntryModel {
        RegistryEntryModel { id: self.id@, key_pair: self.key_pair@ }
    }
}

/// Whether some entry's public key blob is byte-identical to `blob`.
pub open spec fn spec_has_key(entries: Seq<RegistryEntryModel>, blob: Seq<u8>) -> bool {
    exists|i: int| 0 <= i < entries.len() && entries[i].id.key_blob == blob
}

/// The in-memory ordered store of registered identities.
pub struct IdentityRegistry {
    entries: Vec<RegistryEntry>,
}

impl View for IdentityRegistry {
    type V = Seq<RegistryEntryModel>;

    closed spec fn view(&self) -> Seq<RegistryEntryModel> {
        self.entries@.map_values(|e: RegistryEntry| e@)
    }
}

impl IdentityRegistry {
    /// An empty registry.
    pub fn new() -> (r: IdentityRegistry)
        ensures
            r@ == Seq::<RegistryEntryModel>::empty(),
    {
        let r = IdentityRegistry { entries: Vec::new() };
        proof {
            assert(r@ =~= Seq::<RegistryEntryModel>::empty());
        }
        r
    }

    /// Appends one identity and its key pair; always succeeds, keeps
    /// registration order, and never deduplicates.
    pub fn register(&mut self, id: Identity, key_pair: SshFido2KeyPair)
        ensures
            final(self)@ == old(self)@.push(
                RegistryEntryModel { id: id@, key_pair: key_pair@ },
            ),
    {
        let ghost pre = self.entries@;
        self.entries.push(RegistryEntry { id, key_pair });
        proof {
            assert(self@ =~= pre.map_values(|e: RegistryEntry| e@).push(
                RegistryEntryModel { id: id@, key_pair: key_pair@ },
            ));
        }
    }

    /// A snapshot of the identities in registration order; no side effects.
    pub fn list(&self) -> (r: Vec<Identity>)
        ensures
            r@.len() == self@.len(),
            forall|i: int| 0 <= i < r@.len() ==> r@[i]@ == self@[i].id,
    {
        let mut r: Vec<Identity> = Vec::new();
        let n = self.entries.len();
        for i in 0..n
            invariant
                n == self.entries@.len(),
                r@.len() == i,
                forall|j: int| 0 <= j < i ==> r@[j]@ == self@[j].id,
        {
            r.push(self.entries[i].id.duplicate());
        }
        r
    }

    /// The first entry whose stored public key blob is byte-identical to
    /// `blob`, or nothing when no entry matches. Matching is exact: no
    /// fuzzy or canonicalized comparison.
    pub fn find_by_public_key(&self, blob: &[u8]) -> (r: Option<&SshFido2KeyPair>)
        ensures
            match r {
                Some(key_pair) => exists|i: int|
                    0 <= i < self@.len() && self@[i].id.key_blob == blob@ && key_pair@
                        == self@[i].key_pair && (forall|j: int|
                        0 <= j < i ==> self@[j].id.key_blob != blob@),
                None => !spec_has_key(self@, blob@),
            },
    {
        let n = self.entries.len();
        for i in 0..n
            invariant
                n == self.entries@.len(),
                forall|j: int| 0 <= j < i ==> self@[j].id.key_blob != blob@,
        {
            if bytes_equal(self.entries[i].id.key_blob.as_slice(), blob) {
                proof {
                    assert(self@[i as int] == self.entries@[i as int]@);
                    assert(0 <= i < self@.len() && self@[i as int].id.key_blob == blob@
                        && self.entries@[i as int]@.key_pair == self@[i as int].key_pair && (
                    forall|j: int| 0 <= j < i ==> self@[j].id.key_blob != blob@));
                }
                return Some(&self.entries[i].key_pair);
            }
        }
        None
    }
}

/// Whether two byte strings are byte-identical.
pub fn bytes_equal(a: &[u8], b: &[u8]) -> (r: bool)
    ensures
        r == (a@ == b@),
{
    if a.len() != b.len() {
        proof {
            assert(a@ != b@);
        }
        return false;
    }
    let n = a.len();
    for i in 0..n
        invariant
            n == a@.len(),
            n == b@.len(),
            forall|j: int| 0 <= j < i ==> a@[j] == b@[j],
    {
        if a[i] != b[i] {
            return false;
        }
    }
    proof {
        assert(a@ =~= b@);
    }
    true
}

} // verus!

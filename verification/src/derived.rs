//! A key derived from the hub's identity: the Ed25519 private key, with the
//! seed and the comment it was built from. The only way to get one is to
//! build the key from a seed, so what a `DerivedKey` shows of itself is all
//! that its key is built from.
use vstd::prelude::*;

verus! {

/// `russh::keys::PrivateKey` (from `ssh-key`), carried through opaquely.
#[verifier::external_type_specification]
#[verifier::external_body]
pub struct ExPrivateKey(russh::keys::PrivateKey);

/// `ssh_key::Error`, carried through opaquely.
#[verifier::external_type_specification]
#[verifier::external_body]
pub struct ExSshKeyError(russh::keys::ssh_key::Error);

/// The 32-byte Ed25519 public key (RFC 8032 encoding) of the keypair that the
/// 32-byte `seed` expands to.
pub uninterp spec fn ed25519_public_of_seed(seed: Seq<u8>) -> Seq<u8>;

/// What a derived key is: its 32-byte Ed25519 seed, the public key that seed
/// expands to, and its comment.
pub struct DerivedKeyView {
    pub seed: Seq<u8>,
    pub public: Seq<u8>,
    pub comment: Seq<char>,
}

/// An Ed25519 private key together with the seed and comment it was built from.
pub struct DerivedKey {
    seed: [u8; 32],
    public: [u8; 32],
    comment: String,
    key: russh::keys::PrivateKey,
}

impl View for DerivedKey {
    type V = DerivedKeyView;

    closed spec fn view(&self) -> DerivedKeyView {
        DerivedKeyView { seed: self.seed@, public: self.public@, comment: self.comment@ }
    }
}

/// `Ed25519Keypair::from_seed(&seed)`, then
/// `PrivateKey::new(KeypairData::from(keypair), comment)`, kept with the seed,
/// the keypair's public half and the comment. `from_seed` expands the seed into
/// the Ed25519 keypair, a pure function of the seed; `PrivateKey::new` attaches
/// the comment and, for Ed25519 key data, which is never encrypted, returns
/// `Ok` (ssh-key's source). The key in the result is thus the Ed25519 key of
/// `seed` with comment `comment`, and the result's view records that seed, the
/// public key it expands to, and that comment.
#[verifier::external_body]
pub(crate) fn derived_key_from_seed(
    seed: [u8; 32],
    comment: &str,
) -> (key: Result<DerivedKey, russh::keys::ssh_key::Error>)
    ensures
        key is Ok,
        key->Ok_0@.seed == seed@,
        key->Ok_0@.public == ed25519_public_of_seed(seed@),
        key->Ok_0@.comment == comment@,
{
    let keypair = russh::keys::ssh_key::private::Ed25519Keypair::from_seed(&seed);
    let public = keypair.public.0;
    match russh::keys::PrivateKey::new(
        russh::keys::ssh_key::private::KeypairData::from(keypair),
        comment,
    ) {
        Ok(key) => Ok(DerivedKey { seed, public, comment: comment.to_string(), key }),
        Err(e) => Err(e),
    }
}

impl DerivedKey {
    /// The seed the key was expanded from.
    pub fn seed(&self) -> (seed: [u8; 32])
        ensures
            seed@ == self@.seed,
    {
        self.seed
    }

    /// The key's 32-byte Ed25519 public key.
    pub fn public_key_bytes(&self) -> (public: [u8; 32])
        ensures
            public@ == self@.public,
    {
        self.public
    }

    /// The comment the key carries.
    pub fn comment(&self) -> (comment: &str)
        ensures
            comment@ == self@.comment,
    {
        self.comment.as_str()
    }

    /// The private key: the Ed25519 key of `seed()`, whose public half is
    /// `public_key_bytes()`, with comment `comment()`.
    pub fn private_key(&self) -> &russh::keys::PrivateKey {
        &self.key
    }

    /// The private key, giving up the rest.
    pub fn into_private_key(self) -> russh::keys::PrivateKey {
        self.key
    }
}

} // verus!

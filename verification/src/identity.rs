//! The hub's identity: a 32-byte master secret from which one Ed25519 key
//! per (game, client key) pair is derived, so that every game sees a stable
//! key for a returning player without the hub storing one key per player.
use vstd::prelude::*;
use vstd::string::StringSliceAdditionalSpecFns;
use vstd::utf8::encode_utf8;
use crate::derived::{derived_key_from_seed, ed25519_public_of_seed, DerivedKey, DerivedKeyView};

verus! {

/// Number of bytes of the master secret.
pub const MASTER_SIZE: usize = 32;

/// Domain-separation prefix of every derivation context.
pub const DERIVE_DOMAIN: &'static str = "frittura-hub/v1";

/// Comment attached to every derived private key.
pub const DERIVED_KEY_COMMENT: &'static str = "frittura-hub derived";

/// The 32-byte BLAKE3 digest of `input` in keyed mode under `key`.
pub uninterp spec fn blake3_keyed_hash(key: Seq<u8>, input: Seq<u8>) -> Seq<u8>;

/// `blake3::keyed_hash(key, input)`: the keyed BLAKE3 digest, a pure function
/// of its two arguments, handed back as its 32 bytes.
#[verifier::external_body]
fn keyed_hash(key: &[u8; MASTER_SIZE], input: &[u8]) -> (digest: [u8; 32])
    ensures
        digest@ == blake3_keyed_hash(key@, input@),
{
    *blake3::keyed_hash(key, input).as_bytes()
}

/// `rand::rng().random::<[u8; 32]>()`: 32 bytes from the thread-local CSPRNG.
/// Nothing is claimed of the bytes. The call panics only when the operating
/// system's random source cannot seed the generator, which no argument decides.
#[verifier::external_body]
fn random_master() -> [u8; MASTER_SIZE] {
    rand::RngExt::random::<[u8; MASTER_SIZE]>(&mut rand::rng())
}

/// Why a key could not be derived.
pub enum KeyError {
    Encoding(russh::keys::ssh_key::Error),
}

/// The bytes of the domain prefix.
pub open spec fn domain_bytes() -> Seq<u8> {
    DERIVE_DOMAIN.spec_bytes()
}

/// The context a key is derived from:
/// `DERIVE_DOMAIN || 0x00 || game_key || 0x00 || identifier`.
pub open spec fn derivation_context(game_key: Seq<u8>, identifier: Seq<u8>) -> Seq<u8> {
    domain_bytes() + seq![0u8] + game_key + seq![0u8] + identifier
}

/// The seed of the key derived for a game and a client identifier.
pub open spec fn derived_seed(master: Seq<u8>, game_key: Seq<u8>, identifier: Seq<u8>) -> Seq<u8> {
    blake3_keyed_hash(master, derivation_context(game_key, identifier))
}

/// The key derived from `master` for the game `game_key` and the client
/// `identifier` (both as text): the Ed25519 key of the seed above, taken over
/// the UTF-8 bytes of the two, the public key that seed expands to, and the
/// comment `DERIVED_KEY_COMMENT`.
pub open spec fn derived_key_for(
    master: Seq<u8>,
    game_key: Seq<char>,
    identifier: Seq<char>,
) -> DerivedKeyView {
    let seed = derived_seed(master, encode_utf8(game_key), encode_utf8(identifier));
    DerivedKeyView { seed, public: ed25519_public_of_seed(seed), comment: DERIVED_KEY_COMMENT@ }
}

/// What reading back a stored master gives: an identity exactly when the
/// stored bytes have the master's length.
pub open spec fn stored_master(bytes: Seq<u8>) -> Option<Seq<u8>> {
    if bytes.len() == MASTER_SIZE {
        Some(bytes)
    } else {
        None
    }
}

/// `identity` is a master that `draw` can hand back.
pub open spec fn drawn_by<F: FnOnce() -> [u8; MASTER_SIZE]>(draw: F, identity: Seq<u8>) -> bool {
    exists|master: [u8; MASTER_SIZE]| #[trigger] draw.ensures((), master) && master@ == identity
}

/// No byte of `s` is zero.
pub open spec fn free_of_nul(s: Seq<u8>) -> bool {
    forall|i: int| 0 <= i < s.len() ==> #[trigger] s[i] != 0u8
}

/// Appends `src` to `dst`.
fn append_bytes(dst: &mut Vec<u8>, src: &[u8])
    ensures
        final(dst)@ == old(dst)@ + src@,
{
    dst.extend_from_slice(src);
    assert(final(dst)@ =~= old(dst)@ + src@);
}

/// Builds the derivation context for a game key and a client identifier.
pub fn derivation_context_bytes(game_key: &str, identifier: &str) -> (ctx: Vec<u8>)
    ensures
        ctx@ == derivation_context(game_key.spec_bytes(), identifier.spec_bytes()),
        ctx@ == DERIVE_DOMAIN.spec_bytes() + seq![0u8] + game_key.spec_bytes() + seq![0u8]
            + identifier.spec_bytes(),
{
    let mut ctx: Vec<u8> = Vec::new();
    append_bytes(&mut ctx, DERIVE_DOMAIN.as_bytes());
    ctx.push(0u8);
    append_bytes(&mut ctx, game_key.as_bytes());
    ctx.push(0u8);
    append_bytes(&mut ctx, identifier.as_bytes());
    ctx
}

/// The hub's identity master secret.
pub struct HubIdentity {
    master: [u8; MASTER_SIZE],
}

impl View for HubIdentity {
    type V = Seq<u8>;

    closed spec fn view(&self) -> Seq<u8> {
        self.master@
    }
}

/// The result of loading the identity from what was found on disk.
pub enum LoadOutcome {
    /// The stored master was usable and is the identity.
    Loaded(HubIdentity),
    /// A fresh master was generated; it must be persisted. `discarded_len`
    /// is the length of stored bytes that were rejected, if any were found.
    Generated { identity: HubIdentity, discarded_len: Option<usize> },
}

impl HubIdentity {
    /// Every identity holds exactly `MASTER_SIZE` bytes.
    pub proof fn lemma_master_len(&self)
        ensures
            self@.len() == MASTER_SIZE,
    {
    }

    /// The identity with the given master.
    pub fn from_master(master: [u8; MASTER_SIZE]) -> (id: Self)
        ensures
            id@ == master@,
    {
        HubIdentity { master }
    }

    /// The master bytes, as they are persisted.
    pub fn master(&self) -> (master: [u8; MASTER_SIZE])
        ensures
            master@ == self@,
    {
        self.master
    }

    /// Reads a stored master: an identity when exactly `MASTER_SIZE` bytes
    /// were stored, `None` otherwise.
    pub fn from_stored_bytes(bytes: &[u8]) -> (id: Option<Self>)
        ensures
            id is Some <==> stored_master(bytes@) is Some,
            id matches Some(id) ==> Some(id@) == stored_master(bytes@),
    {
        if bytes.len() != MASTER_SIZE {
            return None;
        }
        let mut master = [0u8; MASTER_SIZE];
        let mut i: usize = 0;
        while i < MASTER_SIZE
            invariant
                bytes@.len() == MASTER_SIZE,
                i <= MASTER_SIZE,
                forall|j: int| 0 <= j < i ==> master@[j] == bytes@[j],
            decreases MASTER_SIZE - i,
        {
            master[i] = bytes[i];
            i = i + 1;
        }
        assert(master@ =~= bytes@);
        Some(HubIdentity { master })
    }

    /// Takes the identity from what was stored, or generates a fresh master
    /// from the thread-local random generator when nothing usable was stored.
    /// What is stated of the outcome is that of `load_or_generate_with`; the
    /// fresh master is whatever the random generator drew.
    pub fn load_or_generate(stored: Option<Vec<u8>>) -> (outcome: LoadOutcome)
        ensures
            match stored {
                Some(bytes) => if bytes@.len() == MASTER_SIZE {
                    outcome matches LoadOutcome::Loaded(id) && id@ == bytes@
                } else {
                    outcome matches LoadOutcome::Generated { discarded_len, .. }
                        && discarded_len == Some(bytes@.len() as usize)
                },
                None => outcome matches LoadOutcome::Generated { discarded_len, .. }
                    && discarded_len is None,
            },
    {
        HubIdentity::load_or_generate_with(stored, random_master)
    }

    /// Takes the identity from what was stored; when nothing usable was
    /// stored, calls `draw` once for a fresh master and takes that. `draw` is
    /// not called when the stored master is used.
    pub fn load_or_generate_with<F: FnOnce() -> [u8; MASTER_SIZE]>(
        stored: Option<Vec<u8>>,
        draw: F,
    ) -> (outcome: LoadOutcome)
        requires
            draw.requires(()),
        ensures
            match stored {
                Some(bytes) => if bytes@.len() == MASTER_SIZE {
                    outcome matches LoadOutcome::Loaded(id) && id@ == bytes@
                } else {
                    outcome matches LoadOutcome::Generated { identity, discarded_len }
                        && discarded_len == Some(bytes@.len() as usize)
                        && drawn_by(draw, identity@)
                },
                None => outcome matches LoadOutcome::Generated { identity, discarded_len }
                    && discarded_len is None && drawn_by(draw, identity@),
            },
    {
        let usable = match &stored {
            Some(bytes) => HubIdentity::from_stored_bytes(bytes.as_slice()),
            None => None,
        };
        match usable {
            Some(id) => LoadOutcome::Loaded(id),
            None => {
                let master = draw();
                let identity = HubIdentity::from_master(master);
                let discarded_len = match &stored {
                    Some(bytes) => Some(bytes.len()),
                    None => None,
                };
                LoadOutcome::Generated { identity, discarded_len }
            },
        }
    }

    /// The seed of the key this identity derives for `game_key` and a client
    /// `identifier`.
    pub fn derive_seed(&self, game_key: &str, identifier: &str) -> (seed: [u8; 32])
        ensures
            seed@ == derived_seed(self@, game_key.spec_bytes(), identifier.spec_bytes()),
            seed@ == blake3_keyed_hash(
                self@,
                DERIVE_DOMAIN.spec_bytes() + seq![0u8] + game_key.spec_bytes() + seq![0u8]
                    + identifier.spec_bytes(),
            ),
    {
        let ctx = derivation_context_bytes(game_key, identifier);
        keyed_hash(&self.master, ctx.as_slice())
    }

    /// The Ed25519 key this identity presents to the game `game_key` on behalf
    /// of the client known by `identifier`: the key expanded from the seed
    /// `derive_seed(game_key, identifier)`, with comment `DERIVED_KEY_COMMENT`.
    pub fn derive_for(&self, game_key: &str, identifier: &str) -> (key: Result<
        DerivedKey,
        KeyError,
    >)
        ensures
            key matches Ok(derived) && derived@ == derived_key_for(self@, game_key@, identifier@),
    {
        let seed = self.derive_seed(game_key, identifier);
        match derived_key_from_seed(seed, DERIVED_KEY_COMMENT) {
            Ok(key) => Ok(key),
            Err(e) => Err(KeyError::Encoding(e)),
        }
    }
}

/// Reading back the persisted master of an identity gives that identity.
pub proof fn lemma_stored_master_round_trip(id: HubIdentity)
    ensures
        stored_master(id@) == Some(id@),
{
}

/// Domain separation: when game keys hold no zero byte, two derivation
/// contexts are equal only if both the game keys and the identifiers are.
pub proof fn lemma_context_separates(g1: Seq<u8>, i1: Seq<u8>, g2: Seq<u8>, i2: Seq<u8>)
    requires
        free_of_nul(g1),
        free_of_nul(g2),
        derivation_context(g1, i1) == derivation_context(g2, i2),
    ensures
        g1 == g2,
        i1 == i2,
{
    let c = derivation_context(g1, i1);
    let n: int = domain_bytes().len() as int + 1;
    assert(c =~= derivation_context(g2, i2));
    if g1.len() < g2.len() {
        assert(c[n + g1.len()] == 0u8);
        assert(c[n + g1.len()] == g2[g1.len() as int]);
        assert(false);
    }
    if g2.len() < g1.len() {
        assert(c[n + g2.len()] == 0u8);
        assert(c[n + g2.len()] == g1[g2.len() as int]);
        assert(false);
    }
    assert(g1.len() == g2.len());
    assert forall|k: int| 0 <= k < g1.len() implies g1[k] == g2[k] by {
        assert(c[n + k] == g1[k]);
        assert(derivation_context(g2, i2)[n + k] == g2[k]);
    }
    assert(g1 =~= g2);
    assert(c.len() == n + g1.len() + 1 + i1.len());
    assert(derivation_context(g2, i2).len() == n + g2.len() + 1 + i2.len());
    assert(i1.len() == i2.len());
    assert forall|k: int| 0 <= k < i1.len() implies i1[k] == i2[k] by {
        assert(c[n + g1.len() + 1 + k] == i1[k]);
        assert(derivation_context(g2, i2)[n + g2.len() + 1 + k] == i2[k]);
    }
    assert(i1 =~= i2);
}

/// Equal masters give equal keys: the key derived for a game and a client is
/// a function of the master, the game key and the client identifier.
pub proof fn lemma_equal_masters_equal_keys(
    a: HubIdentity,
    b: HubIdentity,
    game_key: Seq<char>,
    identifier: Seq<char>,
)
    requires
        a@ == b@,
    ensures
        derived_key_for(a@, game_key, identifier) == derived_key_for(b@, game_key, identifier),
{
}

/// Reloading a persisted master gives an identity that derives the same keys.
pub proof fn lemma_reload_derives_same_keys(
    id: HubIdentity,
    game_key: Seq<char>,
    identifier: Seq<char>,
)
    ensures
        stored_master(id@) matches Some(master) && derived_key_for(master, game_key, identifier)
            == derived_key_for(id@, game_key, identifier),
{
}

/// The seed of a derived key is the keyed BLAKE3, under the master, of the
/// whole context: the domain, a zero byte, the whole game key, a zero byte and
/// the whole identifier. Nothing of either is left out, so every byte of the
/// identifier reaches the hash.
pub proof fn lemma_seed_hashes_whole_context(master: Seq<u8>, game_key: Seq<u8>, identifier: Seq<u8>)
    ensures
        derived_seed(master, game_key, identifier) == blake3_keyed_hash(
            master,
            DERIVE_DOMAIN.spec_bytes() + seq![0u8] + game_key + seq![0u8] + identifier,
        ),
        derivation_context(game_key, identifier).len() == DERIVE_DOMAIN.spec_bytes().len()
            + game_key.len() + identifier.len() + 2,
        derivation_context(game_key, identifier).subrange(
            derivation_context(game_key, identifier).len() - identifier.len(),
            derivation_context(game_key, identifier).len() as int,
        ) == identifier,
{
    let c = derivation_context(game_key, identifier);
    assert(c.subrange(c.len() - identifier.len(), c.len() as int) =~= identifier);
}

/// The key derived for a game and a client is the Ed25519 key of the keyed
/// BLAKE3 of the domain, the game key and the identifier (as UTF-8 bytes),
/// with the comment "frittura-hub derived".
pub proof fn lemma_derived_key_contents(master: Seq<u8>, game_key: Seq<char>, identifier: Seq<char>)
    ensures
        ({
            let seed = blake3_keyed_hash(
                master,
                DERIVE_DOMAIN.spec_bytes() + seq![0u8] + encode_utf8(game_key) + seq![0u8]
                    + encode_utf8(identifier),
            );
            derived_key_for(master, game_key, identifier) == DerivedKeyView {
                seed,
                public: ed25519_public_of_seed(seed),
                comment: DERIVED_KEY_COMMENT@,
            }
        }),
{
}

/// Stored bytes are read back as a master exactly when there are 32 of them,
/// and then the master is those bytes.
pub proof fn lemma_stored_master_exact(bytes: Seq<u8>)
    ensures
        stored_master(bytes) is Some <==> bytes.len() == 32,
        stored_master(bytes) matches Some(master) ==> master == bytes,
{
}

/// A master drawn by `draw` is one that `draw` can hand back: a fresh
/// identity holds exactly 32 bytes that came out of the draw.
pub proof fn lemma_drawn_master_came_from_draw<F: FnOnce() -> [u8; MASTER_SIZE]>(
    draw: F,
    identity: Seq<u8>,
)
    requires
        drawn_by(draw, identity),
    ensures
        exists|master: [u8; MASTER_SIZE]| #[trigger] draw.ensures((), master) && master@ == identity,
        identity.len() == MASTER_SIZE,
{
    let master = choose|master: [u8; MASTER_SIZE]| #[trigger] draw.ensures((), master) && master@ == identity;
    assert(master@.len() == MASTER_SIZE);
}

} // verus!

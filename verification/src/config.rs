//! What the hub knows of a game in its lobby and of the credential a player
//! connected with.
use vstd::prelude::*;

verus! {

/// How the hub authenticates to an upstream game server.
#[derive(Clone, Copy, Debug, PartialEq, Eq, Structural)]
pub enum AuthMethod {
    Password,
    Publickey,
}

/// The credential a player authenticated to the hub with.
pub enum Credential {
    /// A password, as typed.
    Password(String),
    /// A public key, in OpenSSH text form (`<algorithm> <base64> [comment]`).
    PublicKey(String),
}

/// One row of the lobby: a game and where its server listens.
pub struct GameMetadata {
    pub key: String,
    pub name: String,
    pub description: String,
    pub host: String,
    pub port: u16,
    /// The method the game's server expects, when it insists on one.
    pub auth: Option<AuthMethod>,
}

/// The method that matches a credential's own kind.
pub open spec fn method_for(credential: Credential) -> AuthMethod {
    match credential {
        Credential::Password(_) => AuthMethod::Password,
        Credential::PublicKey(_) => AuthMethod::Publickey,
    }
}

/// The method used towards a game: its own when it insists on one, else the
/// one preferred.
pub open spec fn chosen_method(game: GameMetadata, preferred: AuthMethod) -> AuthMethod {
    match game.auth {
        Some(method) => method,
        None => preferred,
    }
}

/// The SHA-256 fingerprint text (`SHA256:<unpadded base64>`) of the public key
/// written in OpenSSH form, or `None` when the text is no OpenSSH public key.
pub uninterp spec fn openssh_sha256_fingerprint(openssh: Seq<char>) -> Option<Seq<char>>;

/// `PublicKey::from_openssh(openssh)`, then `fingerprint(HashAlg::Sha256)`
/// displayed as text. Parsing is a pure function of the text, and so is the
/// fingerprint of the parsed key; the result is the name above applied to it.
#[verifier::external_body]
fn sha256_fingerprint(openssh: &str) -> (fingerprint: Option<String>)
    ensures
        match fingerprint {
            Some(f) => openssh_sha256_fingerprint(openssh@) == Some(f@),
            None => openssh_sha256_fingerprint(openssh@) is None,
        },
{
    match russh::keys::PublicKey::from_openssh(openssh) {
        Ok(key) => Some(key.fingerprint(russh::keys::HashAlg::Sha256).to_string()),
        Err(_) => None,
    }
}

impl AuthMethod {
    /// The method that matches the kind of `credential`.
    pub fn for_credential(credential: &Credential) -> (method: AuthMethod)
        ensures
            method == method_for(*credential),
    {
        match credential {
            Credential::Password(_) => AuthMethod::Password,
            Credential::PublicKey(_) => AuthMethod::Publickey,
        }
    }
}

impl Credential {
    /// The fingerprint of a public-key credential; `None` for a password, or
    /// for key text that does not parse.
    pub fn key_fingerprint(&self) -> (fingerprint: Option<String>)
        ensures
            match *self {
                Credential::Password(_) => fingerprint is None,
                Credential::PublicKey(text) => match fingerprint {
                    Some(f) => openssh_sha256_fingerprint(text@) == Some(f@),
                    None => openssh_sha256_fingerprint(text@) is None,
                },
            },
    {
        match self {
            Credential::Password(_) => None,
            Credential::PublicKey(text) => sha256_fingerprint(text.as_str()),
        }
    }

    /// A copy of the credential.
    pub fn duplicate(&self) -> (copy: Credential)
        ensures
            same_credential(copy, *self),
    {
        match self {
            Credential::Password(p) => Credential::Password(p.clone()),
            Credential::PublicKey(k) => Credential::PublicKey(k.clone()),
        }
    }
}

/// Two credentials of the same kind with the same text.
pub open spec fn same_credential(a: Credential, b: Credential) -> bool {
    match (a, b) {
        (Credential::Password(x), Credential::Password(y)) => x@ == y@,
        (Credential::PublicKey(x), Credential::PublicKey(y)) => x@ == y@,
        _ => false,
    }
}

impl GameMetadata {
    /// The method the hub uses towards this game, given the one that matches
    /// the player's credential.
    pub fn outbound_method(&self, preferred: AuthMethod) -> (method: AuthMethod)
        ensures
            method == chosen_method(*self, preferred),
    {
        match self.auth {
            Some(method) => method,
            None => preferred,
        }
    }
}

/// A copy of a credential is of the same kind and holds the same text.
pub proof fn lemma_same_credential(a: Credential, b: Credential)
    ensures
        same_credential(a, b) <==> ({
            ||| (a matches Credential::Password(x) && b matches Credential::Password(y) && x@ == y@)
            ||| (a matches Credential::PublicKey(x) && b matches Credential::PublicKey(y) && x@
                == y@)
        }),
{
}

/// The method matching a credential is its kind; a game's own method, when
/// it has one, wins over the one preferred.
pub proof fn lemma_method_rules(credential: Credential, game: GameMetadata, preferred: AuthMethod)
    ensures
        credential is Password ==> method_for(credential) == AuthMethod::Password,
        credential is PublicKey ==> method_for(credential) == AuthMethod::Publickey,
        game.auth matches Some(m) ==> chosen_method(game, preferred) == m,
        game.auth is None ==> chosen_method(game, preferred) == preferred,
{
}

} // verus!

use sshhub::config::{AuthMethod, Credential, GameMetadata};
use sshhub::identity::HubIdentity;

fn game(auth: Option<AuthMethod>) -> GameMetadata {
    GameMetadata {
        key: "sshattrick".to_string(),
        name: "ssHattrick".to_string(),
        description: "Hockey in your terminal.".to_string(),
        host: "127.0.0.1".to_string(),
        port: 3020,
        auth,
    }
}

fn some_public_key_text() -> String {
    let id = HubIdentity::from_master([5u8; 32]);
    let key = match id.derive_for("k", "v") {
        Ok(derived) => derived.into_private_key(),
        Err(_) => panic!("derivation never fails"),
    };
    key.public_key().to_openssh().unwrap()
}

#[test]
fn method_follows_credential_kind() {
    assert_eq!(
        AuthMethod::for_credential(&Credential::Password("pw".to_string())),
        AuthMethod::Password
    );
    assert_eq!(
        AuthMethod::for_credential(&Credential::PublicKey(some_public_key_text())),
        AuthMethod::Publickey
    );
}

#[test]
fn game_method_overrides_preference() {
    assert_eq!(game(None).outbound_method(AuthMethod::Publickey), AuthMethod::Publickey);
    assert_eq!(game(None).outbound_method(AuthMethod::Password), AuthMethod::Password);
    assert_eq!(
        game(Some(AuthMethod::Password)).outbound_method(AuthMethod::Publickey),
        AuthMethod::Password
    );
    assert_eq!(
        game(Some(AuthMethod::Publickey)).outbound_method(AuthMethod::Password),
        AuthMethod::Publickey
    );
}

#[test]
fn password_has_no_fingerprint() {
    assert_eq!(Credential::Password("ssh-ed25519 x".to_string()).key_fingerprint(), None);
}

#[test]
fn key_fingerprint_is_sha256_of_the_key() {
    let text = some_public_key_text();
    let fp = Credential::PublicKey(text.clone()).key_fingerprint().expect("valid key");
    assert!(fp.starts_with("SHA256:"));
    assert_ne!(fp, text);
    let parsed = russh::keys::PublicKey::from_openssh(&text).unwrap();
    assert_eq!(fp, parsed.fingerprint(russh::keys::HashAlg::Sha256).to_string());
}

#[test]
fn fingerprint_ignores_the_comment() {
    let text = some_public_key_text();
    let mut parts: Vec<&str> = text.split(' ').collect();
    parts.truncate(2);
    let bare = parts.join(" ");
    let with_comment = format!("{} player@example.org", bare);
    assert_eq!(
        Credential::PublicKey(bare).key_fingerprint(),
        Credential::PublicKey(with_comment).key_fingerprint()
    );
}

#[test]
fn unparseable_key_has_no_fingerprint() {
    assert_eq!(Credential::PublicKey("not a key".to_string()).key_fingerprint(), None);
}

#[test]
fn duplicate_keeps_kind_and_text() {
    match Credential::Password("s3cret".to_string()).duplicate() {
        Credential::Password(p) => assert_eq!(p, "s3cret"),
        Credential::PublicKey(_) => panic!("kind changed"),
    }
    match Credential::PublicKey("ssh-ed25519 AAAA".to_string()).duplicate() {
        Credential::PublicKey(k) => assert_eq!(k, "ssh-ed25519 AAAA"),
        Credential::Password(_) => panic!("kind changed"),
    }
}

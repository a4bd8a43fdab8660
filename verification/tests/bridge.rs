use std::sync::Arc;
use sshhub::bridge::{
    Bridge, BridgeAction, BridgeError, BridgeEvent, BridgeFailure, BridgePhase, OutboundMsg,
    RequestKind,
};
use sshhub::config::{AuthMethod, Credential, GameMetadata};
use sshhub::identity::HubIdentity;

fn game(auth: Option<AuthMethod>) -> GameMetadata {
    GameMetadata {
        key: "sshattrick".to_string(),
        name: "ssHattrick".to_string(),
        description: "Hockey in your terminal.".to_string(),
        host: "127.0.0.1".to_string(),
        port: 3020,
        auth,
    }
}

fn identity() -> Arc<HubIdentity> {
    Arc::new(HubIdentity::from_master([11u8; 32]))
}

fn player_key_text() -> String {
    let player = HubIdentity::from_master([42u8; 32]);
    let key = match player.derive_for("player", "own") {
        Ok(derived) => derived.into_private_key(),
        Err(_) => panic!("derivation never fails"),
    };
    key.public_key().to_openssh().unwrap()
}

fn bridge(auth: Option<AuthMethod>, credential: Credential) -> Bridge {
    let (bridge, action) = Bridge::new(
        game(auth),
        "alice".to_string(),
        credential,
        identity(),
        "xterm-256color".to_string(),
        80,
        24,
    );
    match action {
        BridgeAction::Connect { host, port, inactivity_secs } => {
            assert_eq!(host, "127.0.0.1");
            assert_eq!(port, 3020);
            assert_eq!(inactivity_secs, 3600);
        }
        _ => panic!("a bridge starts by connecting"),
    }
    assert_eq!(bridge.current_phase(), BridgePhase::Connecting);
    bridge
}

fn pumping_bridge() -> Bridge {
    let mut b = bridge(None, Credential::Password("pw".to_string()));
    b.step(BridgeEvent::Connected);
    b.step(BridgeEvent::AuthAnswered(true));
    b.step(BridgeEvent::ChannelOpened);
    b.step(BridgeEvent::Reply(Some(OutboundMsg::Success)));
    assert!(matches!(b.step(BridgeEvent::Reply(Some(OutboundMsg::Success))), BridgeAction::Listen));
    assert_eq!(b.current_phase(), BridgePhase::Pumping);
    b
}

#[test]
fn password_credential_is_forwarded() {
    let mut b = bridge(None, Credential::Password("hunter2".to_string()));
    match b.step(BridgeEvent::Connected) {
        BridgeAction::AuthenticatePassword { user, password } => {
            assert_eq!(user, "alice");
            assert_eq!(password, "hunter2");
        }
        _ => panic!("expected password authentication"),
    }
    assert_eq!(b.current_phase(), BridgePhase::Authenticating(AuthMethod::Password));
}

#[test]
fn key_text_is_sent_as_password_when_game_wants_password() {
    let text = player_key_text();
    let mut b = bridge(Some(AuthMethod::Password), Credential::PublicKey(text.clone()));
    match b.step(BridgeEvent::Connected) {
        BridgeAction::AuthenticatePassword { user, password } => {
            assert_eq!(user, "alice");
            assert_eq!(password, text);
        }
        _ => panic!("expected password authentication"),
    }
}

#[test]
fn public_key_credential_uses_derived_key() {
    let text = player_key_text();
    let mut b = bridge(None, Credential::PublicKey(text.clone()));
    let fingerprint = Credential::PublicKey(text).key_fingerprint().unwrap();
    let expected = match identity().derive_for("sshattrick", &fingerprint) {
        Ok(derived) => derived,
        Err(_) => panic!("derivation never fails"),
    };
    match b.step(BridgeEvent::Connected) {
        BridgeAction::AuthenticatePublickey { user, identifier, key } => {
            assert_eq!(user, "alice");
            assert_eq!(identifier, fingerprint);
            assert_eq!(key.seed(), expected.seed());
            assert_eq!(key.comment(), "frittura-hub derived");
            assert!(*key.private_key() == *expected.private_key());
            let swapped = match identity().derive_for(&fingerprint, "sshattrick") {
                Ok(derived) => derived,
                Err(_) => panic!("derivation never fails"),
            };
            assert_ne!(key.seed(), swapped.seed());
        }
        _ => panic!("expected public-key authentication"),
    }
    assert_eq!(b.current_phase(), BridgePhase::Authenticating(AuthMethod::Publickey));
}

#[test]
fn password_player_rejected_by_publickey_game() {
    let mut b = bridge(Some(AuthMethod::Publickey), Credential::Password("pw".to_string()));
    assert!(matches!(
        b.step(BridgeEvent::Connected),
        BridgeAction::Fail(BridgeError::AuthRejected)
    ));
    assert!(b.is_finished());
}

#[test]
fn unreadable_key_fails() {
    let mut b = bridge(None, Credential::PublicKey("garbage".to_string()));
    assert!(matches!(
        b.step(BridgeEvent::Connected),
        BridgeAction::Fail(BridgeError::Other(BridgeFailure::Fingerprint))
    ));
    assert!(b.is_finished());
}

#[test]
fn connect_failure_names_the_server() {
    let mut b = bridge(None, Credential::Password("pw".to_string()));
    match b.step(BridgeEvent::ConnectFailed) {
        BridgeAction::Fail(BridgeError::Other(BridgeFailure::Connect { host, port })) => {
            assert_eq!(host, "127.0.0.1");
            assert_eq!(port, 3020);
        }
        _ => panic!("expected a connection failure"),
    }
    assert!(b.is_finished());
}

#[test]
fn server_rejection_is_recoverable_error() {
    let mut b = bridge(None, Credential::Password("pw".to_string()));
    b.step(BridgeEvent::Connected);
    assert!(matches!(
        b.step(BridgeEvent::AuthAnswered(false)),
        BridgeAction::Fail(BridgeError::AuthRejected)
    ));
    assert!(b.is_finished());
}

#[test]
fn auth_exchange_failure_names_the_method() {
    let mut b = bridge(None, Credential::Password("pw".to_string()));
    b.step(BridgeEvent::Connected);
    assert!(matches!(
        b.step(BridgeEvent::AuthFailed),
        BridgeAction::Fail(BridgeError::Other(BridgeFailure::PasswordAuth))
    ));
    let mut k = bridge(None, Credential::PublicKey(player_key_text()));
    k.step(BridgeEvent::Connected);
    assert!(matches!(
        k.step(BridgeEvent::AuthFailed),
        BridgeAction::Fail(BridgeError::Other(BridgeFailure::PublickeyAuth))
    ));
}

#[test]
fn pty_then_shell_then_pumping() {
    let mut b = bridge(None, Credential::Password("pw".to_string()));
    b.step(BridgeEvent::Connected);
    assert!(matches!(b.step(BridgeEvent::AuthAnswered(true)), BridgeAction::OpenChannel));
    match b.step(BridgeEvent::ChannelOpened) {
        BridgeAction::RequestPty { term, width, height } => {
            assert_eq!(term, "xterm-256color");
            assert_eq!((width, height), (80, 24));
        }
        _ => panic!("expected a pty request"),
    }
    assert_eq!(b.current_phase(), BridgePhase::AwaitingReply(RequestKind::PtyReq));
    assert!(matches!(
        b.step(BridgeEvent::Reply(Some(OutboundMsg::Data(b"banner".to_vec())))),
        BridgeAction::AwaitReply
    ));
    assert!(matches!(
        b.step(BridgeEvent::Reply(Some(OutboundMsg::Success))),
        BridgeAction::RequestShell
    ));
    assert_eq!(b.current_phase(), BridgePhase::AwaitingReply(RequestKind::Shell));
    assert!(matches!(b.step(BridgeEvent::Reply(Some(OutboundMsg::Success))), BridgeAction::Listen));
    assert_eq!(b.current_phase(), BridgePhase::Pumping);
}

#[test]
fn refused_pty_request() {
    let mut b = bridge(None, Credential::Password("pw".to_string()));
    b.step(BridgeEvent::Connected);
    b.step(BridgeEvent::AuthAnswered(true));
    b.step(BridgeEvent::ChannelOpened);
    assert!(matches!(
        b.step(BridgeEvent::Reply(Some(OutboundMsg::Failure))),
        BridgeAction::Fail(BridgeError::Other(BridgeFailure::Refused(RequestKind::PtyReq)))
    ));
    assert!(b.is_finished());
}

#[test]
fn shell_request_closed_timed_out_or_unsent() {
    let shell_waiting = || {
        let mut b = bridge(None, Credential::Password("pw".to_string()));
        b.step(BridgeEvent::Connected);
        b.step(BridgeEvent::AuthAnswered(true));
        b.step(BridgeEvent::ChannelOpened);
        b.step(BridgeEvent::Reply(Some(OutboundMsg::Success)));
        b
    };
    assert!(matches!(
        shell_waiting().step(BridgeEvent::Reply(None)),
        BridgeAction::Fail(BridgeError::Other(BridgeFailure::ClosedBeforeReply(RequestKind::Shell)))
    ));
    assert!(matches!(
        shell_waiting().step(BridgeEvent::ReplyTimedOut),
        BridgeAction::Fail(BridgeError::Other(BridgeFailure::TimedOut(RequestKind::Shell)))
    ));
    assert!(matches!(
        shell_waiting().step(BridgeEvent::RequestFailed),
        BridgeAction::Fail(BridgeError::Other(BridgeFailure::SendRequest(RequestKind::Shell)))
    ));
}

#[test]
fn channel_open_failure() {
    let mut b = bridge(None, Credential::Password("pw".to_string()));
    b.step(BridgeEvent::Connected);
    b.step(BridgeEvent::AuthAnswered(true));
    assert!(matches!(
        b.step(BridgeEvent::ChannelOpenFailed),
        BridgeAction::Fail(BridgeError::Other(BridgeFailure::OpenChannel))
    ));
}

#[test]
fn pumping_forwards_bytes_unchanged() {
    let mut b = pumping_bridge();
    match b.step(BridgeEvent::ClientData(Some(b"jk\r".to_vec()))) {
        BridgeAction::SendOutbound(bytes) => assert_eq!(bytes, b"jk\r".to_vec()),
        _ => panic!("client bytes go upstream"),
    }
    match b.step(BridgeEvent::Outbound(Some(OutboundMsg::Data(b"frame".to_vec())))) {
        BridgeAction::ForwardInbound(bytes) => assert_eq!(bytes, b"frame".to_vec()),
        _ => panic!("game bytes go to the player"),
    }
    match b.step(BridgeEvent::Outbound(Some(OutboundMsg::ExtendedData {
        data: b"err".to_vec(),
        ext: 1,
    }))) {
        BridgeAction::ForwardInbound(bytes) => assert_eq!(bytes, b"err".to_vec()),
        _ => panic!("extended data goes to the player"),
    }
    match b.step(BridgeEvent::ClientResize(Some((120, 40)))) {
        BridgeAction::WindowChange { width, height } => assert_eq!((width, height), (120, 40)),
        _ => panic!("resizes go upstream"),
    }
    assert!(matches!(b.step(BridgeEvent::Outbound(Some(OutboundMsg::Success))), BridgeAction::Listen));
    assert!(matches!(b.step(BridgeEvent::Outbound(Some(OutboundMsg::Other))), BridgeAction::Listen));
    assert_eq!(b.current_phase(), BridgePhase::Pumping);
}

#[test]
fn pumping_ends_cleanly() {
    let enders = vec![
        BridgeEvent::ClientData(None),
        BridgeEvent::ClientResize(None),
        BridgeEvent::Outbound(None),
        BridgeEvent::Outbound(Some(OutboundMsg::Eof)),
        BridgeEvent::Outbound(Some(OutboundMsg::Close)),
        BridgeEvent::Outbound(Some(OutboundMsg::ExitStatus(0))),
        BridgeEvent::WriteFailed,
    ];
    for event in enders {
        let mut b = pumping_bridge();
        assert!(matches!(b.step(event), BridgeAction::CloseAndFinish));
        assert!(b.is_finished());
    }
}

#[test]
fn finished_bridge_ignores_everything() {
    let mut b = pumping_bridge();
    b.step(BridgeEvent::WriteFailed);
    assert!(matches!(b.step(BridgeEvent::Connected), BridgeAction::Ignore));
    assert!(matches!(b.step(BridgeEvent::ClientData(Some(vec![1]))), BridgeAction::Ignore));
    assert!(b.is_finished());
}

#[test]
fn out_of_phase_events_change_nothing() {
    let mut b = bridge(None, Credential::Password("pw".to_string()));
    assert!(matches!(b.step(BridgeEvent::ChannelOpened), BridgeAction::Ignore));
    assert!(matches!(b.step(BridgeEvent::ClientData(Some(vec![1]))), BridgeAction::Ignore));
    assert_eq!(b.current_phase(), BridgePhase::Connecting);
}

#[test]
fn request_names() {
    assert_eq!(RequestKind::PtyReq.name(), "pty-req");
    assert_eq!(RequestKind::Shell.name(), "shell");
}

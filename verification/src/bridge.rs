//! The decisions of the bridge that carries a player's session to the game
//! they picked: how to authenticate upstream, how to get a shell, and what to
//! do with every byte and message once the shell runs. The caller performs
//! each action it is handed and reports back what happened as an event.
use vstd::prelude::*;
use std::sync::Arc;
use crate::config::{
    AuthMethod, Credential, GameMetadata, chosen_method, method_for, openssh_sha256_fingerprint,
};
use crate::derived::DerivedKey;
use crate::identity::{blake3_keyed_hash, derived_key_for, HubIdentity, DERIVED_KEY_COMMENT, DERIVE_DOMAIN};
use vstd::string::StringSliceAdditionalSpecFns;
use vstd::utf8::encode_utf8;

verus! {

/// Seconds of inactivity after which the upstream connection is dropped.
pub const UPSTREAM_INACTIVITY_SECS: u64 = 3600;

/// Seconds the bridge waits for the reply to a channel request.
pub const REQUEST_REPLY_TIMEOUT_SECS: u64 = 5;

/// A channel request that the bridge waits on a reply for.
#[derive(Clone, Copy, Debug, PartialEq, Eq, Structural)]
pub enum RequestKind {
    PtyReq,
    Shell,
}

impl RequestKind {
    /// The request's name on the wire.
    pub fn name(&self) -> (name: &'static str)
        ensures
            *self == RequestKind::PtyReq ==> name@ == "pty-req"@,
            *self == RequestKind::Shell ==> name@ == "shell"@,
    {
        match self {
            RequestKind::PtyReq => "pty-req",
            RequestKind::Shell => "shell",
        }
    }
}

/// What went wrong, for failures that end the player's session.
pub enum BridgeFailure {
    /// The game's server could not be reached.
    Connect { host: String, port: u16 },
    /// The password exchange itself failed (not a rejection).
    PasswordAuth,
    /// The public-key exchange itself failed (not a rejection).
    PublickeyAuth,
    /// The player's public key could not be read to fingerprint it.
    Fingerprint,
    /// The hub's derived key could not be built.
    DeriveKey,
    /// No session channel could be opened.
    OpenChannel,
    /// A channel request could not be sent.
    SendRequest(RequestKind),
    /// The server answered a channel request with a failure.
    Refused(RequestKind),
    /// The channel closed before the server answered a request.
    ClosedBeforeReply(RequestKind),
    /// The server did not answer a request in time.
    TimedOut(RequestKind),
}

/// Why the bridge ended. `AuthRejected` is recoverable: the hub goes back to
/// the lobby. Anything else ends the player's session.
pub enum BridgeError {
    AuthRejected,
    Other(BridgeFailure),
}

/// A message read from the upstream channel.
pub enum OutboundMsg {
    Data(Vec<u8>),
    ExtendedData { data: Vec<u8>, ext: u32 },
    Eof,
    Close,
    ExitStatus(u32),
    Success,
    Failure,
    /// Any other message, which the bridge does not act on.
    Other,
}

/// What happened since the last action.
pub enum BridgeEvent {
    Connected,
    ConnectFailed,
    /// The server answered the authentication attempt: accepted or not.
    AuthAnswered(bool),
    /// The authentication attempt could not be carried out.
    AuthFailed,
    ChannelOpened,
    ChannelOpenFailed,
    /// The pending channel request could not be sent.
    RequestFailed,
    /// What waiting on the channel gave while a reply is pending; `None` once
    /// the channel is closed.
    Reply(Option<OutboundMsg>),
    ReplyTimedOut,
    /// Bytes the player typed; `None` once the player's side is gone.
    ClientData(Option<Vec<u8>>),
    /// A new terminal size (columns, rows); `None` once the player's side is gone.
    ClientResize(Option<(u32, u32)>),
    /// A message from the game's channel; `None` once it is closed.
    Outbound(Option<OutboundMsg>),
    /// Writing to either side failed while the shell ran.
    WriteFailed,
}

/// What the caller is to do next.
pub enum BridgeAction {
    /// Open one SSH client connection to `host`:`port`, dropped after
    /// `inactivity_secs` seconds without traffic.
    Connect { host: String, port: u16, inactivity_secs: u64 },
    AuthenticatePassword { user: String, password: String },
    /// Authenticate with `key`, the hub's key for this game and the player's
    /// key fingerprint `identifier`.
    AuthenticatePublickey { user: String, identifier: String, key: DerivedKey },
    OpenChannel,
    /// Request a pseudo-terminal, wanting a reply, then wait for it.
    RequestPty { term: String, width: u32, height: u32 },
    /// Request a shell, wanting a reply, then wait for it.
    RequestShell,
    /// Keep waiting for the reply to the pending request.
    AwaitReply,
    /// Write these bytes to the game's channel.
    SendOutbound(Vec<u8>),
    /// Tell the game's channel the terminal's new size.
    WindowChange { width: u32, height: u32 },
    /// Write these bytes to the player.
    ForwardInbound(Vec<u8>),
    /// Nothing to do; wait for the next event.
    Listen,
    /// Close the game's channel, disconnect, and end with success.
    CloseAndFinish,
    /// End with this error.
    Fail(BridgeError),
    /// The event does not belong to the current phase; nothing changes.
    Ignore,
}

/// Where the bridge stands.
#[derive(Clone, Copy, Debug, PartialEq, Eq, Structural)]
pub enum BridgePhase {
    Connecting,
    Authenticating(AuthMethod),
    OpeningChannel,
    AwaitingReply(RequestKind),
    Pumping,
    Finished,
}

/// One bridge from a player's session to a game.
pub struct Bridge {
    game: GameMetadata,
    username: String,
    credential: Credential,
    identity: Arc<HubIdentity>,
    term: String,
    width: u32,
    height: u32,
    phase: BridgePhase,
}

/// The order of the phases; a bridge never moves back in it.
pub open spec fn phase_rank(phase: BridgePhase) -> int {
    match phase {
        BridgePhase::Connecting => 0,
        BridgePhase::Authenticating(_) => 1,
        BridgePhase::OpeningChannel => 2,
        BridgePhase::AwaitingReply(RequestKind::PtyReq) => 3,
        BridgePhase::AwaitingReply(RequestKind::Shell) => 4,
        BridgePhase::Pumping => 5,
        BridgePhase::Finished => 6,
    }
}

/// The method the hub uses towards the game for this credential.
pub open spec fn outbound_method(game: GameMetadata, credential: Credential) -> AuthMethod {
    chosen_method(game, method_for(credential))
}

/// Whether an upstream message ends the shell.
pub open spec fn ends_shell(msg: OutboundMsg) -> bool {
    msg is Eof || msg is Close || msg is ExitStatus
}

/// The phase after `event`, from `phase`, for a player whose credential is
/// `credential` bridged to `game`.
pub open spec fn next_phase(
    phase: BridgePhase,
    game: GameMetadata,
    credential: Credential,
    event: BridgeEvent,
) -> BridgePhase {
    match (phase, event) {
        (BridgePhase::Connecting, BridgeEvent::Connected) => {
            match (outbound_method(game, credential), credential) {
                (AuthMethod::Password, _) => BridgePhase::Authenticating(AuthMethod::Password),
                (AuthMethod::Publickey, Credential::PublicKey(text)) => {
                    if openssh_sha256_fingerprint(text@) is Some {
                        BridgePhase::Authenticating(AuthMethod::Publickey)
                    } else {
                        BridgePhase::Finished
                    }
                },
                (AuthMethod::Publickey, Credential::Password(_)) => BridgePhase::Finished,
            }
        },
        (BridgePhase::Connecting, BridgeEvent::ConnectFailed) => BridgePhase::Finished,
        (BridgePhase::Authenticating(_), BridgeEvent::AuthAnswered(true)) => BridgePhase::OpeningChannel,
        (BridgePhase::Authenticating(_), BridgeEvent::AuthAnswered(false)) => BridgePhase::Finished,
        (BridgePhase::Authenticating(_), BridgeEvent::AuthFailed) => BridgePhase::Finished,
        (BridgePhase::OpeningChannel, BridgeEvent::ChannelOpened) => BridgePhase::AwaitingReply(
            RequestKind::PtyReq,
        ),
        (BridgePhase::OpeningChannel, BridgeEvent::ChannelOpenFailed) => BridgePhase::Finished,
        (BridgePhase::AwaitingReply(kind), BridgeEvent::Reply(Some(OutboundMsg::Success))) => {
            match kind {
                RequestKind::PtyReq => BridgePhase::AwaitingReply(RequestKind::Shell),
                RequestKind::Shell => BridgePhase::Pumping,
            }
        },
        (BridgePhase::AwaitingReply(_), BridgeEvent::Reply(Some(OutboundMsg::Failure))) => BridgePhase::Finished,
        (BridgePhase::AwaitingReply(kind), BridgeEvent::Reply(Some(_))) => BridgePhase::AwaitingReply(kind),
        (BridgePhase::AwaitingReply(_), BridgeEvent::Reply(None)) => BridgePhase::Finished,
        (BridgePhase::AwaitingReply(_), BridgeEvent::ReplyTimedOut) => BridgePhase::Finished,
        (BridgePhase::AwaitingReply(_), BridgeEvent::RequestFailed) => BridgePhase::Finished,
        (BridgePhase::Pumping, BridgeEvent::ClientData(None)) => BridgePhase::Finished,
        (BridgePhase::Pumping, BridgeEvent::ClientResize(None)) => BridgePhase::Finished,
        (BridgePhase::Pumping, BridgeEvent::Outbound(None)) => BridgePhase::Finished,
        (BridgePhase::Pumping, BridgeEvent::Outbound(Some(msg))) => {
            if ends_shell(msg) {
                BridgePhase::Finished
            } else {
                BridgePhase::Pumping
            }
        },
        (BridgePhase::Pumping, BridgeEvent::WriteFailed) => BridgePhase::Finished,
        _ => phase,
    }
}

/// Whether `action` is what the bridge owes for `event` from `phase`.
pub open spec fn action_fits(
    phase: BridgePhase,
    game: GameMetadata,
    identity: Seq<u8>,
    username: Seq<char>,
    credential: Credential,
    term: Seq<char>,
    width: u32,
    height: u32,
    event: BridgeEvent,
    action: BridgeAction,
) -> bool {
    match (phase, event) {
        (BridgePhase::Connecting, BridgeEvent::Connected) => {
            match (outbound_method(game, credential), credential) {
                (AuthMethod::Password, Credential::Password(password)) => action matches BridgeAction::AuthenticatePassword {
                    user,
                    password: sent,
                } && user@ == username && sent@ == password@,
                (AuthMethod::Password, Credential::PublicKey(text)) => action matches BridgeAction::AuthenticatePassword {
                    user,
                    password: sent,
                } && user@ == username && sent@ == text@,
                (AuthMethod::Publickey, Credential::PublicKey(text)) => {
                    if openssh_sha256_fingerprint(text@) is Some {
                        action matches BridgeAction::AuthenticatePublickey {
                            user,
                            identifier,
                            key,
                        } && user@ == username && Some(identifier@) == openssh_sha256_fingerprint(
                            text@,
                        ) && key@ == derived_key_for(identity, game.key@, identifier@)
                    } else {
                        action matches BridgeAction::Fail(
                            BridgeError::Other(BridgeFailure::Fingerprint),
                        )
                    }
                },
                (AuthMethod::Publickey, Credential::Password(_)) => action matches BridgeAction::Fail(
                    BridgeError::AuthRejected,
                ),
            }
        },
        (BridgePhase::Connecting, BridgeEvent::ConnectFailed) => action matches BridgeAction::Fail(
            BridgeError::Other(BridgeFailure::Connect { host, port }),
        ) && host@ == game.host@ && port == game.port,
        (BridgePhase::Authenticating(_), BridgeEvent::AuthAnswered(true)) => action is OpenChannel,
        (BridgePhase::Authenticating(_), BridgeEvent::AuthAnswered(false)) => action matches BridgeAction::Fail(
            BridgeError::AuthRejected,
        ),
        (BridgePhase::Authenticating(method), BridgeEvent::AuthFailed) => match method {
            AuthMethod::Password => action matches BridgeAction::Fail(
                BridgeError::Other(BridgeFailure::PasswordAuth),
            ),
            AuthMethod::Publickey => action matches BridgeAction::Fail(
                BridgeError::Other(BridgeFailure::PublickeyAuth),
            ),
        },
        (BridgePhase::OpeningChannel, BridgeEvent::ChannelOpened) => action matches BridgeAction::RequestPty {
            term: t,
            width: w,
            height: h,
        } && t@ == term && w == width && h == height,
        (BridgePhase::OpeningChannel, BridgeEvent::ChannelOpenFailed) => action matches BridgeAction::Fail(
            BridgeError::Other(BridgeFailure::OpenChannel),
        ),
        (BridgePhase::AwaitingReply(kind), BridgeEvent::Reply(Some(OutboundMsg::Success))) => {
            match kind {
                RequestKind::PtyReq => action is RequestShell,
                RequestKind::Shell => action is Listen,
            }
        },
        (BridgePhase::AwaitingReply(kind), BridgeEvent::Reply(Some(OutboundMsg::Failure))) => action matches BridgeAction::Fail(
            BridgeError::Other(BridgeFailure::Refused(k)),
        ) && k == kind,
        (BridgePhase::AwaitingReply(_), BridgeEvent::Reply(Some(_))) => action is AwaitReply,
        (BridgePhase::AwaitingReply(kind), BridgeEvent::Reply(None)) => action matches BridgeAction::Fail(
            BridgeError::Other(BridgeFailure::ClosedBeforeReply(k)),
        ) && k == kind,
        (BridgePhase::AwaitingReply(kind), BridgeEvent::ReplyTimedOut) => action matches BridgeAction::Fail(
            BridgeError::Other(BridgeFailure::TimedOut(k)),
        ) && k == kind,
        (BridgePhase::AwaitingReply(kind), BridgeEvent::RequestFailed) => action matches BridgeAction::Fail(
            BridgeError::Other(BridgeFailure::SendRequest(k)),
        ) && k == kind,
        (BridgePhase::Pumping, BridgeEvent::ClientData(Some(bytes))) => action
            == BridgeAction::SendOutbound(bytes),
        (BridgePhase::Pumping, BridgeEvent::ClientResize(Some((w, h)))) => action
            == BridgeAction::WindowChange { width: w, height: h },
        (BridgePhase::Pumping, BridgeEvent::Outbound(Some(OutboundMsg::Data(bytes)))) => action
            == BridgeAction::ForwardInbound(bytes),
        (
            BridgePhase::Pumping,
            BridgeEvent::Outbound(Some(OutboundMsg::ExtendedData { data, .. })),
        ) => action == BridgeAction::ForwardInbound(data),
        (BridgePhase::Pumping, BridgeEvent::Outbound(Some(msg))) => if ends_shell(msg) {
            action is CloseAndFinish
        } else {
            action is Listen
        },
        (BridgePhase::Pumping, BridgeEvent::ClientData(None)) => action is CloseAndFinish,
        (BridgePhase::Pumping, BridgeEvent::ClientResize(None)) => action is CloseAndFinish,
        (BridgePhase::Pumping, BridgeEvent::Outbound(None)) => action is CloseAndFinish,
        (BridgePhase::Pumping, BridgeEvent::WriteFailed) => action is CloseAndFinish,
        _ => action is Ignore,
    }
}


/// Once finished, a bridge stays finished and does nothing more.
pub proof fn lemma_finished_is_final(
    game: GameMetadata,
    identity: Seq<u8>,
    username: Seq<char>,
    credential: Credential,
    term: Seq<char>,
    width: u32,
    height: u32,
    event: BridgeEvent,
    action: BridgeAction,
)
    requires
        action_fits(
            BridgePhase::Finished,
            game,
            identity,
            username,
            credential,
            term,
            width,
            height,
            event,
            action,
        ),
    ensures
        next_phase(BridgePhase::Finished, game, credential, event) == BridgePhase::Finished,
        action is Ignore,
{
}

/// A bridge never moves back: each step keeps or advances its phase.
pub proof fn lemma_phases_advance(
    phase: BridgePhase,
    game: GameMetadata,
    credential: Credential,
    event: BridgeEvent,
)
    ensures
        phase_rank(next_phase(phase, game, credential, event)) >= phase_rank(phase),
{
}

/// Once the shell runs, the bridge never fails: whatever happens, it ends,
/// if it ends, by closing the channel and reporting success.
pub proof fn lemma_shell_never_fails(
    game: GameMetadata,
    identity: Seq<u8>,
    username: Seq<char>,
    credential: Credential,
    term: Seq<char>,
    width: u32,
    height: u32,
    event: BridgeEvent,
    action: BridgeAction,
)
    requires
        action_fits(
            BridgePhase::Pumping,
            game,
            identity,
            username,
            credential,
            term,
            width,
            height,
            event,
            action,
        ),
    ensures
        !(action is Fail),
{
}

/// The bridge reports a rejected authentication exactly when the game wants a
/// public key from a player who gave a password, or when the game's server
/// turns down the hub's attempt.
pub proof fn lemma_rejection_exactly(
    phase: BridgePhase,
    game: GameMetadata,
    identity: Seq<u8>,
    username: Seq<char>,
    credential: Credential,
    term: Seq<char>,
    width: u32,
    height: u32,
    event: BridgeEvent,
    action: BridgeAction,
)
    requires
        action_fits(phase, game, identity, username, credential, term, width, height, event, action),
    ensures
        (action matches BridgeAction::Fail(BridgeError::AuthRejected)) <==> ({
            ||| (phase == BridgePhase::Connecting && event is Connected && game.auth == Some(
                AuthMethod::Publickey,
            ) && credential is Password)
            ||| (phase is Authenticating && event == BridgeEvent::AuthAnswered(false))
        }),
{
}

/// Whenever the bridge ends, by failing or by closing, it is finished; and
/// it is finished only by ending.
pub proof fn lemma_ending_finishes(
    phase: BridgePhase,
    game: GameMetadata,
    identity: Seq<u8>,
    username: Seq<char>,
    credential: Credential,
    term: Seq<char>,
    width: u32,
    height: u32,
    event: BridgeEvent,
    action: BridgeAction,
)
    requires
        phase != BridgePhase::Finished,
        action_fits(phase, game, identity, username, credential, term, width, height, event, action),
    ensures
        (action is Fail || action is CloseAndFinish) <==> next_phase(
            phase,
            game,
            credential,
            event,
        ) == BridgePhase::Finished,
{
}

/// The method used towards a game is the one the game insists on, and when
/// it insists on none, the one that matches the player's credential: a
/// password for a password, a public key for a public key.
pub proof fn lemma_method_choice(game: GameMetadata, credential: Credential)
    ensures
        game.auth matches Some(m) ==> outbound_method(game, credential) == m,
        game.auth is None && credential is Password ==> outbound_method(game, credential)
            == AuthMethod::Password,
        game.auth is None && credential is PublicKey ==> outbound_method(game, credential)
            == AuthMethod::Publickey,
{
}

/// Once connected, a password player's password goes to every game that does
/// not insist on a public key, as typed, under the player's name.
pub proof fn lemma_password_forwarded(
    game: GameMetadata,
    identity: Seq<u8>,
    username: Seq<char>,
    password: String,
    term: Seq<char>,
    width: u32,
    height: u32,
    action: BridgeAction,
)
    requires
        game.auth != Some(AuthMethod::Publickey),
        action_fits(
            BridgePhase::Connecting,
            game,
            identity,
            username,
            Credential::Password(password),
            term,
            width,
            height,
            BridgeEvent::Connected,
            action,
        ),
    ensures
        action matches BridgeAction::AuthenticatePassword { user, password: sent } && user@
            == username && sent@ == password@,
        next_phase(BridgePhase::Connecting, game, Credential::Password(password), BridgeEvent::Connected)
            == BridgePhase::Authenticating(AuthMethod::Password),
{
}

/// Once connected, a public-key player facing a game that insists on
/// passwords has the key's text sent as the password.
pub proof fn lemma_key_text_as_password(
    game: GameMetadata,
    identity: Seq<u8>,
    username: Seq<char>,
    text: String,
    term: Seq<char>,
    width: u32,
    height: u32,
    action: BridgeAction,
)
    requires
        game.auth == Some(AuthMethod::Password),
        action_fits(
            BridgePhase::Connecting,
            game,
            identity,
            username,
            Credential::PublicKey(text),
            term,
            width,
            height,
            BridgeEvent::Connected,
            action,
        ),
    ensures
        action matches BridgeAction::AuthenticatePassword { user, password: sent } && user@
            == username && sent@ == text@,
{
}

/// Once connected, a public-key player facing a game that does not insist on
/// passwords is represented by the hub's key for this game and this player's
/// key fingerprint: the Ed25519 key whose seed is the keyed BLAKE3 of the
/// domain, the game key and the fingerprint, under the hub's master.
pub proof fn lemma_derived_key_presented(
    game: GameMetadata,
    identity: Seq<u8>,
    username: Seq<char>,
    text: String,
    term: Seq<char>,
    width: u32,
    height: u32,
    action: BridgeAction,
)
    requires
        game.auth != Some(AuthMethod::Password),
        openssh_sha256_fingerprint(text@) is Some,
        action_fits(
            BridgePhase::Connecting,
            game,
            identity,
            username,
            Credential::PublicKey(text),
            term,
            width,
            height,
            BridgeEvent::Connected,
            action,
        ),
    ensures
        action matches BridgeAction::AuthenticatePublickey { user, identifier, key } && {
            &&& user@ == username
            &&& identifier@ == openssh_sha256_fingerprint(text@)->Some_0
            &&& key@.seed == blake3_keyed_hash(
                identity,
                DERIVE_DOMAIN.spec_bytes() + seq![0u8] + encode_utf8(game.key@) + seq![0u8]
                    + encode_utf8(identifier@),
            )
            &&& key@.comment == DERIVED_KEY_COMMENT@
        },
        next_phase(BridgePhase::Connecting, game, Credential::PublicKey(text), BridgeEvent::Connected)
            == BridgePhase::Authenticating(AuthMethod::Publickey),
{
}

/// Whatever the method, a server that accepts the hub's authentication leads
/// to opening a session channel; one that turns it down ends the bridge with
/// a rejection; a failed exchange ends it naming the method that failed.
pub proof fn lemma_auth_answer(
    method: AuthMethod,
    game: GameMetadata,
    identity: Seq<u8>,
    username: Seq<char>,
    credential: Credential,
    term: Seq<char>,
    width: u32,
    height: u32,
    event: BridgeEvent,
    action: BridgeAction,
)
    requires
        action_fits(
            BridgePhase::Authenticating(method),
            game,
            identity,
            username,
            credential,
            term,
            width,
            height,
            event,
            action,
        ),
    ensures
        event == BridgeEvent::AuthAnswered(true) ==> action is OpenChannel && next_phase(
            BridgePhase::Authenticating(method),
            game,
            credential,
            event,
        ) == BridgePhase::OpeningChannel,
        event == BridgeEvent::AuthAnswered(false) ==> (action matches BridgeAction::Fail(
            BridgeError::AuthRejected,
        )) && next_phase(BridgePhase::Authenticating(method), game, credential, event)
            == BridgePhase::Finished,
        event is AuthFailed && method == AuthMethod::Password ==> action matches BridgeAction::Fail(
            BridgeError::Other(BridgeFailure::PasswordAuth),
        ),
        event is AuthFailed && method == AuthMethod::Publickey ==> action matches BridgeAction::Fail(
            BridgeError::Other(BridgeFailure::PublickeyAuth),
        ),
{
}

/// A failure to connect names the game's host and port.
pub proof fn lemma_connect_failure(
    game: GameMetadata,
    identity: Seq<u8>,
    username: Seq<char>,
    credential: Credential,
    term: Seq<char>,
    width: u32,
    height: u32,
    action: BridgeAction,
)
    requires
        action_fits(
            BridgePhase::Connecting,
            game,
            identity,
            username,
            credential,
            term,
            width,
            height,
            BridgeEvent::ConnectFailed,
            action,
        ),
    ensures
        action matches BridgeAction::Fail(
            BridgeError::Other(BridgeFailure::Connect { host, port }),
        ) && host@ == game.host@ && port == game.port,
        next_phase(BridgePhase::Connecting, game, credential, BridgeEvent::ConnectFailed)
            == BridgePhase::Finished,
{
}

/// An opened channel is asked for a pseudo-terminal of the player's terminal
/// type and size, and the bridge then waits for that request's reply.
pub proof fn lemma_channel_asks_for_pty(
    game: GameMetadata,
    identity: Seq<u8>,
    username: Seq<char>,
    credential: Credential,
    term: Seq<char>,
    width: u32,
    height: u32,
    action: BridgeAction,
)
    requires
        action_fits(
            BridgePhase::OpeningChannel,
            game,
            identity,
            username,
            credential,
            term,
            width,
            height,
            BridgeEvent::ChannelOpened,
            action,
        ),
    ensures
        action matches BridgeAction::RequestPty { term: t, width: w, height: h } && t@ == term
            && w == width && h == height,
        next_phase(BridgePhase::OpeningChannel, game, credential, BridgeEvent::ChannelOpened)
            == BridgePhase::AwaitingReply(RequestKind::PtyReq),
{
}

/// While a request's reply is pending: a success moves on (from the pty to
/// the shell, from the shell to the running session); a failure is a
/// refusal of that request; any other message is passed over and the wait
/// goes on; a closed channel, a timeout or an unsent request end the bridge
/// naming the request.
pub proof fn lemma_reply_handling(
    kind: RequestKind,
    game: GameMetadata,
    identity: Seq<u8>,
    username: Seq<char>,
    credential: Credential,
    term: Seq<char>,
    width: u32,
    height: u32,
    event: BridgeEvent,
    action: BridgeAction,
)
    requires
        action_fits(
            BridgePhase::AwaitingReply(kind),
            game,
            identity,
            username,
            credential,
            term,
            width,
            height,
            event,
            action,
        ),
    ensures
        ({
            let next = next_phase(BridgePhase::AwaitingReply(kind), game, credential, event);
            &&& event matches BridgeEvent::Reply(Some(msg)) ==> (msg is Success || msg is Failure
                || (action is AwaitReply && next == BridgePhase::AwaitingReply(kind)))
            &&& event == BridgeEvent::Reply(Some(OutboundMsg::Success)) && kind
                == RequestKind::PtyReq ==> action is RequestShell && next
                == BridgePhase::AwaitingReply(RequestKind::Shell)
            &&& event == BridgeEvent::Reply(Some(OutboundMsg::Success)) && kind
                == RequestKind::Shell ==> action is Listen && next == BridgePhase::Pumping
            &&& event == BridgeEvent::Reply(Some(OutboundMsg::Failure)) ==> (action matches BridgeAction::Fail(
                BridgeError::Other(BridgeFailure::Refused(k)),
            ) && k == kind) && next == BridgePhase::Finished
            &&& event == BridgeEvent::Reply(None) ==> (action matches BridgeAction::Fail(
                BridgeError::Other(BridgeFailure::ClosedBeforeReply(k)),
            ) && k == kind) && next == BridgePhase::Finished
            &&& event is ReplyTimedOut ==> (action matches BridgeAction::Fail(
                BridgeError::Other(BridgeFailure::TimedOut(k)),
            ) && k == kind) && next == BridgePhase::Finished
            &&& event is RequestFailed ==> (action matches BridgeAction::Fail(
                BridgeError::Other(BridgeFailure::SendRequest(k)),
            ) && k == kind) && next == BridgePhase::Finished
        }),
{
}

/// A request is reported refused only when, while its reply was pending, the
/// server answered it with a failure.
pub proof fn lemma_refused_only_on_failure(
    phase: BridgePhase,
    game: GameMetadata,
    identity: Seq<u8>,
    username: Seq<char>,
    credential: Credential,
    term: Seq<char>,
    width: u32,
    height: u32,
    event: BridgeEvent,
    action: BridgeAction,
    kind: RequestKind,
)
    requires
        action_fits(phase, game, identity, username, credential, term, width, height, event, action),
        action matches BridgeAction::Fail(BridgeError::Other(BridgeFailure::Refused(k))) && k
            == kind,
    ensures
        phase == BridgePhase::AwaitingReply(kind),
        event == BridgeEvent::Reply(Some(OutboundMsg::Failure)),
{
}

/// While the session runs, every byte the player types goes to the game and
/// every byte the game sends (data or extended data) goes to the player,
/// unchanged and in full; a resize goes to the game with its size; anything
/// that closes either side ends the bridge cleanly; any other message is
/// passed over.
pub proof fn lemma_pump_forwards_unchanged(
    game: GameMetadata,
    identity: Seq<u8>,
    username: Seq<char>,
    credential: Credential,
    term: Seq<char>,
    width: u32,
    height: u32,
    event: BridgeEvent,
    action: BridgeAction,
)
    requires
        action_fits(
            BridgePhase::Pumping,
            game,
            identity,
            username,
            credential,
            term,
            width,
            height,
            event,
            action,
        ),
    ensures
        ({
            let next = next_phase(BridgePhase::Pumping, game, credential, event);
            &&& event matches BridgeEvent::ClientData(Some(bytes)) ==> (action matches BridgeAction::SendOutbound(
                sent,
            ) && sent@ == bytes@) && next == BridgePhase::Pumping
            &&& event matches BridgeEvent::Outbound(Some(OutboundMsg::Data(bytes))) ==> (
            action matches BridgeAction::ForwardInbound(sent) && sent@ == bytes@) && next
                == BridgePhase::Pumping
            &&& event matches BridgeEvent::Outbound(Some(OutboundMsg::ExtendedData { data, .. }))
                ==> (action matches BridgeAction::ForwardInbound(sent) && sent@ == data@) && next
                == BridgePhase::Pumping
            &&& event matches BridgeEvent::ClientResize(Some((w, h))) ==> (action matches BridgeAction::WindowChange {
                width: ww,
                height: hh,
            } && ww == w && hh == h) && next == BridgePhase::Pumping
            &&& (event == BridgeEvent::ClientData(None) || event == BridgeEvent::ClientResize(None)
                || event == BridgeEvent::Outbound(None) || event is WriteFailed || event
                == BridgeEvent::Outbound(Some(OutboundMsg::Eof)) || event == BridgeEvent::Outbound(
                Some(OutboundMsg::Close),
            ) || event matches BridgeEvent::Outbound(Some(OutboundMsg::ExitStatus(_))))
                ==> action is CloseAndFinish && next == BridgePhase::Finished
            &&& (event == BridgeEvent::Outbound(Some(OutboundMsg::Success)) || event
                == BridgeEvent::Outbound(Some(OutboundMsg::Failure)) || event
                == BridgeEvent::Outbound(Some(OutboundMsg::Other))) ==> action is Listen && next
                == BridgePhase::Pumping
        }),
{
}

impl Bridge {
    pub closed spec fn phase(&self) -> BridgePhase {
        self.phase
    }

    pub closed spec fn game(&self) -> GameMetadata {
        self.game
    }

    pub closed spec fn username(&self) -> Seq<char> {
        self.username@
    }

    pub closed spec fn credential(&self) -> Credential {
        self.credential
    }

    pub closed spec fn identity(&self) -> Seq<u8> {
        self.identity@
    }

    pub closed spec fn term(&self) -> Seq<char> {
        self.term@
    }

    pub closed spec fn width(&self) -> u32 {
        self.width
    }

    pub closed spec fn height(&self) -> u32 {
        self.height
    }

    /// Everything but the phase is the same in both.
    pub open spec fn same_setup(&self, other: &Bridge) -> bool {
        &&& self.game() == other.game()
        &&& self.username() == other.username()
        &&& self.credential() == other.credential()
        &&& self.identity() == other.identity()
        &&& self.term() == other.term()
        &&& self.width() == other.width()
        &&& self.height() == other.height()
    }

    /// A bridge for `username`, who holds `credential`, to `game`, with a
    /// terminal `term` of `width` columns and `height` rows; it starts by
    /// connecting to the game's server.
    pub fn new(
        game: GameMetadata,
        username: String,
        credential: Credential,
        identity: Arc<HubIdentity>,
        term: String,
        width: u32,
        height: u32,
    ) -> (started: (Bridge, BridgeAction))
        ensures
            started.0.phase() == BridgePhase::Connecting,
            started.0.game() == game,
            started.0.username() == username@,
            started.0.credential() == credential,
            started.0.identity() == identity@,
            started.0.term() == term@,
            started.0.width() == width,
            started.0.height() == height,
            started.1 matches BridgeAction::Connect { host, port, inactivity_secs } && host@
                == game.host@ && port == game.port && inactivity_secs == UPSTREAM_INACTIVITY_SECS,
    {
        let host = game.host.clone();
        let port = game.port;
        let bridge = Bridge {
            game,
            username,
            credential,
            identity,
            term,
            width,
            height,
            phase: BridgePhase::Connecting,
        };
        (bridge, BridgeAction::Connect { host, port, inactivity_secs: UPSTREAM_INACTIVITY_SECS })
    }

    /// The phase the bridge is in.
    pub fn current_phase(&self) -> (phase: BridgePhase)
        ensures
            phase == self.phase(),
    {
        self.phase
    }

    /// Whether the bridge has ended.
    pub fn is_finished(&self) -> (finished: bool)
        ensures
            finished == (self.phase() == BridgePhase::Finished),
    {
        self.phase == BridgePhase::Finished
    }

    /// How to authenticate to the game once connected.
    fn plan_authentication(&self) -> (plan: (BridgePhase, BridgeAction))
        requires
            self.phase() == BridgePhase::Connecting,
        ensures
            plan.0 == next_phase(self.phase(), self.game(), self.credential(), BridgeEvent::Connected),
            action_fits(
                self.phase(),
                self.game(),
                self.identity(),
                self.username(),
                self.credential(),
                self.term(),
                self.width(),
                self.height(),
                BridgeEvent::Connected,
                plan.1,
            ),
    {
        let method = self.game.outbound_method(AuthMethod::for_credential(&self.credential));
        match (method, &self.credential) {
            (AuthMethod::Password, Credential::Password(password)) => (
                BridgePhase::Authenticating(AuthMethod::Password),
                BridgeAction::AuthenticatePassword {
                    user: self.username.clone(),
                    password: password.clone(),
                },
            ),
            (AuthMethod::Password, Credential::PublicKey(text)) => (
                BridgePhase::Authenticating(AuthMethod::Password),
                BridgeAction::AuthenticatePassword {
                    user: self.username.clone(),
                    password: text.clone(),
                },
            ),
            (AuthMethod::Publickey, Credential::PublicKey(_)) => {
                match self.credential.key_fingerprint() {
                    Some(fingerprint) => {
                        match self.identity.derive_for(self.game.key.as_str(), fingerprint.as_str()) {
                            Ok(key) => (
                                BridgePhase::Authenticating(AuthMethod::Publickey),
                                BridgeAction::AuthenticatePublickey {
                                    user: self.username.clone(),
                                    identifier: fingerprint,
                                    key,
                                },
                            ),
                            Err(_) => (
                                BridgePhase::Finished,
                                BridgeAction::Fail(BridgeError::Other(BridgeFailure::DeriveKey)),
                            ),
                        }
                    },
                    None => (
                        BridgePhase::Finished,
                        BridgeAction::Fail(BridgeError::Other(BridgeFailure::Fingerprint)),
                    ),
                }
            },
            (AuthMethod::Publickey, Credential::Password(_)) => (
                BridgePhase::Finished,
                BridgeAction::Fail(BridgeError::AuthRejected),
            ),
        }
    }

    /// Takes in what happened and says what to do next.
    pub fn step(&mut self, event: BridgeEvent) -> (action: BridgeAction)
        ensures
            final(self).same_setup(old(self)),
            final(self).phase() == next_phase(
                old(self).phase(),
                old(self).game(),
                old(self).credential(),
                event,
            ),
            action_fits(
                old(self).phase(),
                old(self).game(),
                old(self).identity(),
                old(self).username(),
                old(self).credential(),
                old(self).term(),
                old(self).width(),
                old(self).height(),
                event,
                action,
            ),
    {
        let phase = self.phase;
        let (next, action) = match (phase, event) {
            (BridgePhase::Connecting, BridgeEvent::Connected) => self.plan_authentication(),
            (BridgePhase::Connecting, BridgeEvent::ConnectFailed) => (
                BridgePhase::Finished,
                BridgeAction::Fail(
                    BridgeError::Other(
                        BridgeFailure::Connect { host: self.game.host.clone(), port: self.game.port },
                    ),
                ),
            ),
            (BridgePhase::Authenticating(_), BridgeEvent::AuthAnswered(accepted)) => {
                if accepted {
                    (BridgePhase::OpeningChannel, BridgeAction::OpenChannel)
                } else {
                    (BridgePhase::Finished, BridgeAction::Fail(BridgeError::AuthRejected))
                }
            },
            (BridgePhase::Authenticating(method), BridgeEvent::AuthFailed) => {
                let failure = match method {
                    AuthMethod::Password => BridgeFailure::PasswordAuth,
                    AuthMethod::Publickey => BridgeFailure::PublickeyAuth,
                };
                (BridgePhase::Finished, BridgeAction::Fail(BridgeError::Other(failure)))
            },
            (BridgePhase::OpeningChannel, BridgeEvent::ChannelOpened) => (
                BridgePhase::AwaitingReply(RequestKind::PtyReq),
                BridgeAction::RequestPty {
                    term: self.term.clone(),
                    width: self.width,
                    height: self.height,
                },
            ),
            (BridgePhase::OpeningChannel, BridgeEvent::ChannelOpenFailed) => (
                BridgePhase::Finished,
                BridgeAction::Fail(BridgeError::Other(BridgeFailure::OpenChannel)),
            ),
            (BridgePhase::AwaitingReply(kind), BridgeEvent::Reply(reply)) => {
                match reply {
                    Some(OutboundMsg::Success) => match kind {
                        RequestKind::PtyReq => (
                            BridgePhase::AwaitingReply(RequestKind::Shell),
                            BridgeAction::RequestShell,
                        ),
                        RequestKind::Shell => (BridgePhase::Pumping, BridgeAction::Listen),
                    },
                    Some(OutboundMsg::Failure) => (
                        BridgePhase::Finished,
                        BridgeAction::Fail(BridgeError::Other(BridgeFailure::Refused(kind))),
                    ),
                    Some(_) => (BridgePhase::AwaitingReply(kind), BridgeAction::AwaitReply),
                    None => (
                        BridgePhase::Finished,
                        BridgeAction::Fail(
                            BridgeError::Other(BridgeFailure::ClosedBeforeReply(kind)),
                        ),
                    ),
                }
            },
            (BridgePhase::AwaitingReply(kind), BridgeEvent::ReplyTimedOut) => (
                BridgePhase::Finished,
                BridgeAction::Fail(BridgeError::Other(BridgeFailure::TimedOut(kind))),
            ),
            (BridgePhase::AwaitingReply(kind), BridgeEvent::RequestFailed) => (
                BridgePhase::Finished,
                BridgeAction::Fail(BridgeError::Other(BridgeFailure::SendRequest(kind))),
            ),
            (BridgePhase::Pumping, BridgeEvent::ClientData(data)) => match data {
                Some(bytes) => (BridgePhase::Pumping, BridgeAction::SendOutbound(bytes)),
                None => (BridgePhase::Finished, BridgeAction::CloseAndFinish),
            },
            (BridgePhase::Pumping, BridgeEvent::ClientResize(size)) => match size {
                Some((width, height)) => (
                    BridgePhase::Pumping,
                    BridgeAction::WindowChange { width, height },
                ),
                None => (BridgePhase::Finished, BridgeAction::CloseAndFinish),
            },
            (BridgePhase::Pumping, BridgeEvent::Outbound(msg)) => match msg {
                Some(OutboundMsg::Data(bytes)) => (
                    BridgePhase::Pumping,
                    BridgeAction::ForwardInbound(bytes),
                ),
                Some(OutboundMsg::ExtendedData { data, .. }) => (
                    BridgePhase::Pumping,
                    BridgeAction::ForwardInbound(data),
                ),
                Some(OutboundMsg::Eof) | Some(OutboundMsg::Close) | Some(
                    OutboundMsg::ExitStatus(_),
                ) => (BridgePhase::Finished, BridgeAction::CloseAndFinish),
                Some(_) => (BridgePhase::Pumping, BridgeAction::Listen),
                None => (BridgePhase::Finished, BridgeAction::CloseAndFinish),
            },
            (BridgePhase::Pumping, BridgeEvent::WriteFailed) => (
                BridgePhase::Finished,
                BridgeAction::CloseAndFinish,
            ),
            _ => (phase, BridgeAction::Ignore),
        };
        self.phase = next;
        action
    }
}

/// A step changes only the phase: the game, the player, the credential, the
/// identity and the terminal stay what the bridge was made with.
pub proof fn lemma_setup_kept(a: Bridge, b: Bridge)
    requires
        a.same_setup(&b),
    ensures
        a.game() == b.game(),
        a.username() == b.username(),
        a.credential() == b.credential(),
        a.identity() == b.identity(),
        a.term() == b.term(),
        a.width() == b.width(),
        a.height() == b.height(),
{
}

} // verus!

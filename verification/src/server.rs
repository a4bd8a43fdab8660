//! The hub as a game of its own: the lobby that lists the configured games.
use vstd::prelude::*;
use std::sync::Arc;
use crate::config::{Credential, GameMetadata};
use crate::identity::HubIdentity;

verus! {

/// Columns of the lobby screen, sized to fit an 80x24 terminal.
pub const HUB_SCREEN_WIDTH: u16 = 78;

/// Rows of the lobby screen, sized to fit an 80x24 terminal.
pub const HUB_SCREEN_HEIGHT: u16 = 22;

/// Title of the hub's terminal window.
pub const HUB_TITLE: &'static str = "sshhub";

/// Seconds of inactivity after which the hub drops a session.
pub const SERVER_INACTIVITY_SECS: u64 = 3600;

/// A fixed area of the terminal: its corner and its size.
#[derive(Clone, Copy, Debug, PartialEq, Eq, Structural)]
pub struct Viewport {
    pub x: u16,
    pub y: u16,
    pub width: u16,
    pub height: u16,
}

/// The lobby's fixed viewport, so that the same screen works whatever the
/// player's real terminal size.
pub fn hub_viewport() -> (viewport: Viewport)
    ensures
        viewport == (Viewport { x: 0, y: 0, width: HUB_SCREEN_WIDTH, height: HUB_SCREEN_HEIGHT }),
{
    Viewport { x: 0, y: 0, width: HUB_SCREEN_WIDTH, height: HUB_SCREEN_HEIGHT }
}

/// The hub: the games of its lobby and the identity it presents upstream.
pub struct HubGame {
    games: Arc<Vec<GameMetadata>>,
    identity: Arc<HubIdentity>,
}

impl HubGame {
    /// The games listed in the lobby, in order.
    pub closed spec fn game_list(&self) -> Seq<GameMetadata> {
        self.games@
    }

    /// The master of the hub's identity.
    pub closed spec fn identity_master(&self) -> Seq<u8> {
        self.identity@
    }

    /// A hub listing `games`, in that order, that presents `identity`.
    pub fn new(games: Vec<GameMetadata>, identity: Arc<HubIdentity>) -> (hub: Self)
        ensures
            hub.game_list() == games@,
            hub.identity_master() == identity@,
    {
        HubGame { games: Arc::new(games), identity }
    }

    /// The lobby's games, shared.
    pub fn games(&self) -> (games: Arc<Vec<GameMetadata>>)
        ensures
            games@ == self.game_list(),
    {
        Arc::clone(&self.games)
    }

    /// The hub's identity, shared.
    pub fn identity(&self) -> (identity: Arc<HubIdentity>)
        ensures
            identity@ == self.identity_master(),
    {
        Arc::clone(&self.identity)
    }

    /// Admits every player, keeping their credential so that the bridge can
    /// forward it to the game they pick.
    pub fn authenticate(&self, username: &str, credential: Credential) -> (kept: Credential)
        ensures
            kept == credential,
    {
        credential
    }
}

} // verus!

//! Players and moves: the immutable-identity entities of the registry.

use vstd::prelude::*;

verus! {

/// The mathematical value of a player: its identifier and its display name,
/// both as character sequences.
#[verifier::ext_equal]
pub ghost struct PlayerView {
    /// Identifier, unique within one game's roster.
    pub id: Seq<char>,
    /// Display name.
    pub name: Seq<char>,
}

impl PlayerView {
    /// A player payload passes boundary validation exactly when its
    /// identifier is non-empty.
    pub open spec fn valid(self) -> bool {
        self.id.len() > 0
    }
}

/// A participant in a multiplayer game: an opaque identifier, unique within
/// one game's roster, and a display name. Player identifiers carry no global
/// uniqueness requirement across games.
#[derive(Debug)]
pub struct MultiplayerPlayer {
    /// Identifier of the player, opaque to the registry.
    pub id: String,
    /// Name of the player as shown to other players.
    pub name: String,
}

impl View for MultiplayerPlayer {
    type V = PlayerView;

    open spec fn view(&self) -> PlayerView {
        PlayerView { id: self.id@, name: self.name@ }
    }
}

impl MultiplayerPlayer {
    /// Builds a player from its identifier and display name.
    pub fn new(id: String, name: String) -> (r: Self)
        ensures
            r@ == (PlayerView { id: id@, name: name@ }),
    {
        MultiplayerPlayer { id, name }
    }

    /// True exactly when the registry accepts this player payload: the
    /// identifier must be non-empty.
    pub fn is_valid(&self) -> (r: bool)
        ensures
            r == self@.valid(),
    {
        !self.id.as_str().is_empty()
    }
}

impl Clone for MultiplayerPlayer {
    /// The copy carries the same identifier and display name.
    fn clone(&self) -> (r: Self)
        ensures
            r == *self,
    {
        MultiplayerPlayer { id: self.id.clone(), name: self.name.clone() }
    }
}

/// Addressing of one move message: which player moves in which game. The
/// registry forwards such messages untouched; move legality is the rules
/// engine's concern.
#[derive(Debug)]
pub struct MultiplayerMove {
    /// Player id.
    pub player_id: String,
    /// Game id.
    pub game_id: String,
}

} // verus!

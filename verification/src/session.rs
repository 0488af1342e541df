//! One game session: an immutable identifier and a growing roster of players.

use vstd::prelude::*;

use crate::errors::JoinError;
use crate::player::{MultiplayerPlayer, PlayerView};

verus! {

/// The mathematical value of a game session: its identifier, its roster in
/// join order, and the clock reading taken at creation.
#[verifier::ext_equal]
pub ghost struct GameView {
    /// Identifier, unique across the whole registry.
    pub id: Seq<char>,
    /// Roster in join order; the creator stands first.
    pub players: Seq<PlayerView>,
    /// Creation time, whole seconds since the Unix epoch.
    pub created_at: int,
}

impl GameView {
    /// Whether a player with identifier `pid` is on the roster.
    pub open spec fn has_player(self, pid: Seq<char>) -> bool {
        exists|k: int| 0 <= k < self.players.len() && (#[trigger] self.players[k]).id == pid
    }

    /// No two roster entries share an identifier.
    pub open spec fn roster_unique(self) -> bool {
        forall|i: int, j: int|
            0 <= i < j < self.players.len() ==> (#[trigger] self.players[i]).id != (
            #[trigger] self.players[j]).id
    }

    /// Well-formedness: a non-empty identifier, at least one player (the
    /// creator) at all times, valid players, and no duplicate identifiers on
    /// the roster.
    pub open spec fn wf(self) -> bool {
        &&& self.id.len() > 0
        &&& self.players.len() >= 1
        &&& self.roster_unique()
        &&& forall|i: int| 0 <= i < self.players.len() ==> (#[trigger] self.players[i]).valid()
    }
}

/// Appending a valid player whose identifier is not yet on the roster of a
/// well-formed game yields a well-formed game.
pub proof fn lemma_roster_push_wf(g: GameView, p: PlayerView)
    requires
        g.wf(),
        p.valid(),
        !g.has_player(p.id),
    ensures
        (GameView { players: g.players.push(p), ..g }).wf(),
{
    let post = (GameView { players: g.players.push(p), ..g });
    assert forall|i: int, j: int|
        0 <= i < j < post.players.len() implies (#[trigger] post.players[i]).id != (
    #[trigger] post.players[j]).id by {
        if j < g.players.len() {
        } else {
            assert(post.players[i] == g.players[i]);
            assert(post.players[j] == p);
            if g.players[i].id == p.id {
                assert(g.has_player(p.id));
            }
        }
    }
    assert forall|i: int| 0 <= i < post.players.len() implies (#[trigger] post.players[i]).valid() by {
        if i < g.players.len() {
            assert(post.players[i] == g.players[i]);
        } else {
            assert(post.players[i] == p);
        }
    }
}

/// A game session. The identifier is assigned at creation and never changes;
/// the roster only grows, by one player per successful join.
#[derive(Debug)]
pub struct MultiplayerGame {
    id: String,
    players: Vec<MultiplayerPlayer>,
    created_at: i64,
}

impl View for MultiplayerGame {
    type V = GameView;

    closed spec fn view(&self) -> GameView {
        GameView {
            id: self.id@,
            players: self.players@.map_values(|p: MultiplayerPlayer| p@),
            created_at: self.created_at as int,
        }
    }
}

/// Relies on `time::OffsetDateTime`: `now_utc` reads the clock at the call
/// and `unix_timestamp` renders it as whole seconds since the Unix epoch.
/// Nothing is assumed about the value that comes back.
#[verifier::external_body]
fn now_unix() -> (r: i64) {
    time::OffsetDateTime::now_utc().unix_timestamp()
}

impl MultiplayerGame {
    /// Builds a session from its identifier and its creator, who becomes the
    /// first roster entry. The creation time is read from the clock.
    pub fn new(id: &str, player: MultiplayerPlayer) -> (r: Self)
        requires
            id@.len() > 0,
            player@.valid(),
        ensures
            r@.id == id@,
            r@.players == seq![player@],
            r@.wf(),
    {
        let g = MultiplayerGame { id: id.to_owned(), players: vec![player], created_at: now_unix() };
        proof {
            assert(g@.players =~= seq![player@]);
        }
        g
    }

    /// The session's identifier.
    pub fn id(&self) -> (r: &str)
        ensures
            r@ == self@.id,
    {
        self.id.as_str()
    }

    /// Whether the session's identifier equals `key`.
    pub fn id_matches(&self, key: &String) -> (r: bool)
        ensures
            r == (self@.id == key@),
    {
        self.id == *key
    }

    /// The roster, in join order.
    pub fn players(&self) -> (r: &Vec<MultiplayerPlayer>)
        ensures
            r@.len() == self@.players.len(),
            forall|i: int| 0 <= i < r@.len() ==> (#[trigger] r@[i])@ == self@.players[i],
    {
        &self.players
    }

    /// The clock reading taken when the session was created, whole seconds
    /// since the Unix epoch.
    pub fn created_at(&self) -> (r: i64)
        ensures
            r == self@.created_at,
    {
        self.created_at
    }

    /// Whether a player with identifier `player_id` is on the roster.
    pub fn has_player(&self, player_id: &str) -> (r: bool)
        ensures
            r == self@.has_player(player_id@),
    {
        let key: String = player_id.to_owned();
        let n = self.players.len();
        let mut k: usize = 0;
        while k < n
            invariant
                n == self.players.len(),
                k <= n,
                key@ == player_id@,
                forall|j: int| 0 <= j < k ==> (#[trigger] self@.players[j]).id != player_id@,
            decreases n - k,
        {
            if self.players[k].id == key {
                proof {
                    assert((self@.players[k as int]).id == player_id@);
                }
                return true;
            }
            k += 1;
        }
        false
    }

    /// Appends `player` to the roster, or rejects the join when a player
    /// with the same identifier is already present. The roster is unchanged
    /// on rejection; no other field ever changes.
    pub fn add_player(&mut self, player: MultiplayerPlayer) -> (r: Result<(), JoinError>)
        requires
            old(self)@.wf(),
            player@.valid(),
        ensures
            final(self)@.wf(),
            r is Ok <==> !old(self)@.has_player(player@.id),
            r is Ok ==> final(self)@ == (GameView {
                players: old(self)@.players.push(player@),
                ..old(self)@
            }),
            r is Err ==> final(self)@ == old(self)@ && r == Err::<(), JoinError>(
                JoinError::DuplicatePlayer,
            ),
    {
        if self.has_player(player.id.as_str()) {
            Err(JoinError::DuplicatePlayer)
        } else {
            proof {
                lemma_roster_push_wf(self@, player@);
            }
            self.players.push(player);
            proof {
                assert(self@.players =~= old(self)@.players.push(player@));
                assert(self@ =~= (GameView {
                    players: old(self)@.players.push(player@),
                    ..old(self)@
                }));
            }
            Ok(())
        }
    }
}

} // verus!

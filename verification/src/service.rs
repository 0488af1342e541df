//! The service facade: validates request payloads, generates session
//! identifiers, and maps store outcomes to protocol errors.
//!
//! This is the component a transport (RPC or HTTP) calls into. It owns the
//! store; clients hold no reference into shared session state.

use vstd::prelude::*;

use crate::errors::{CreateError, JoinError, StoreError};
use crate::player::{MultiplayerPlayer, PlayerView};
use crate::session::{GameView, MultiplayerGame};
use crate::store::{
    game_with_id, has_game, joinable, joined, store_wf, MemoryStore,
};

verus! {

/// How many freshly drawn identifiers one create call offers the store
/// before reporting the registry unavailable. A fresh identifier collides
/// with a stored one only with astronomically small probability; the bound
/// keeps the call from looping unboundedly all the same.
pub const CREATE_ATTEMPTS: u64 = 16;

/// The state change of a successful create: a session with identifier `id`
/// and roster `[creator]` is appended to the registry, and `id` was not
/// present before.
pub open spec fn created(
    pre: Seq<GameView>,
    post: Seq<GameView>,
    id: Seq<char>,
    creator: PlayerView,
) -> bool {
    &&& !has_game(pre, id)
    &&& id.len() > 0
    &&& post.len() == pre.len() + 1
    &&& post.drop_last() == pre
    &&& post.last().id == id
    &&& post.last().players == seq![creator]
}

/// No stored identifier has the 36-character shape of a freshly drawn one,
/// so no draw can collide with a stored session. An empty registry
/// satisfies this, as does one whose identifiers were all supplied by
/// callers in some other shape.
pub open spec fn no_colliding_id(games: Seq<GameView>) -> bool {
    forall|i: int| 0 <= i < games.len() ==> (#[trigger] games[i]).id.len() != 36
}

/// Relies on `uuid::Uuid::new_v4` and the `Display` form of `Uuid`: an
/// identifier drawn from the process's random source, rendered in the
/// hyphenated form of 36 ASCII characters. Nothing is assumed about which
/// identifier comes back — two draws may coincide — so the caller checks
/// freshness against the store instead of assuming it.
#[verifier::external_body]
fn fresh_id() -> (r: String)
    ensures
        r@.len() == 36,
{
    uuid::Uuid::new_v4().to_string()
}

/// Path parameters of the join route: a transport decodes the request path
/// into this shape before calling the service.
#[derive(Debug)]
pub struct JoinGamePathParameters {
    /// Identifier of the game to join, as written in the request path.
    pub game_id: String,
}

/// The registry facade. All session state lives in the owned store.
#[derive(Debug)]
pub struct SessionService {
    store: MemoryStore,
}

impl View for SessionService {
    type V = Seq<GameView>;

    closed spec fn view(&self) -> Seq<GameView> {
        self.store@
    }
}

impl SessionService {
    /// The service's invariant: its store is well formed.
    pub open spec fn wf(self) -> bool {
        store_wf(self@)
    }

    /// A service over a fresh, empty store.
    pub fn new() -> (r: Self)
        ensures
            r@ == Seq::<GameView>::empty(),
            r.wf(),
    {
        SessionService { store: MemoryStore::new() }
    }

    /// A service over an existing store, which the service takes ownership
    /// of: independent services never share state.
    pub fn with_store(store: MemoryStore) -> (r: Self)
        requires
            store.wf(),
        ensures
            r@ == store@,
            r.wf(),
    {
        SessionService { store }
    }

    /// Creates a session: validates the creator, draws a fresh identifier,
    /// and inserts a session whose roster is exactly `[creator]`. On success
    /// the returned identifier was not present before the call. `Unavailable`
    /// comes only when every drawn identifier collided with a stored one; the
    /// registry is then unchanged. In a registry where no stored identifier
    /// has the 36-character shape of a draw — in particular an empty one —
    /// no draw can collide, so success is owed and promised.
    pub fn create_session(&mut self, creator: &MultiplayerPlayer) -> (r: Result<
        String,
        CreateError,
    >)
        requires
            old(self).wf(),
        ensures
            final(self).wf(),
            !creator@.valid() <==> r == Err::<String, CreateError>(CreateError::InvalidPlayer),
            r is Err ==> final(self)@ == old(self)@,
            r is Ok ==> created(old(self)@, final(self)@, r->Ok_0@, creator@),
            creator@.valid() && no_colliding_id(old(self)@) ==> r is Ok,
    {
        if !creator.is_valid() {
            return Err(CreateError::InvalidPlayer);
        }
        let mut attempts: u64 = 0;
        while attempts < CREATE_ATTEMPTS
            invariant
                self.wf(),
                self@ == old(self)@,
                creator@.valid(),
                no_colliding_id(old(self)@) ==> attempts == 0,
            decreases CREATE_ATTEMPTS - attempts,
        {
            let id = fresh_id();
            let game = MultiplayerGame::new(id.as_str(), creator.clone());
            match self.store.add_game(game) {
                Ok(()) => {
                    proof {
                        assert(final(self)@.drop_last() =~= old(self)@);
                    }
                    return Ok(id);
                },
                Err(_) => {
                    proof {
                        if no_colliding_id(old(self)@) {
                            assert(has_game(self@, game@.id));
                            let k = choose|k: int|
                                0 <= k < self@.len() && (#[trigger] self@[k]).id == game@.id;
                            assert(self@[k].id.len() == 36);
                            assert(old(self)@[k].id.len() != 36);
                        }
                    }
                    attempts += 1;
                },
            }
        }
        Err(CreateError::Unavailable)
    }

    /// Joins `player` into the session `session_id`. The join commits, and
    /// is acknowledged, exactly when the player passes validation, the
    /// session exists, and the player's identifier is not yet on its roster;
    /// on every rejection the registry is unchanged and the error names the
    /// first failing condition, in that order.
    pub fn join_session(&mut self, session_id: &str, player: MultiplayerPlayer) -> (r: Result<
        (),
        JoinError,
    >)
        requires
            old(self).wf(),
        ensures
            final(self).wf(),
            r is Err ==> final(self)@ == old(self)@,
            !player@.valid() <==> r == Err::<(), JoinError>(JoinError::InvalidPlayer),
            player@.valid() ==> {
                &&& (r is Ok <==> joinable(old(self)@, session_id@, player@))
                &&& (r is Ok ==> joined(old(self)@, final(self)@, session_id@, player@))
                &&& (!has_game(old(self)@, session_id@) ==> r == Err::<(), JoinError>(
                    JoinError::NotFound,
                ))
                &&& (has_game(old(self)@, session_id@) && game_with_id(
                    old(self)@,
                    session_id@,
                ).has_player(player@.id) ==> r == Err::<(), JoinError>(JoinError::DuplicatePlayer))
            },
    {
        if !player.is_valid() {
            return Err(JoinError::InvalidPlayer);
        }
        self.store.add_player_to_game(session_id, player)
    }

    /// The identifiers of all open sessions; each identifier currently
    /// present appears exactly once.
    pub fn list_sessions(&self) -> (r: Vec<String>)
        ensures
            r@.len() == self@.len(),
            forall|i: int| 0 <= i < r@.len() ==> (#[trigger] r@[i])@ == self@[i].id,
    {
        self.store.game_ids()
    }

    /// A snapshot of the session `session_id` with its full roster, or
    /// `NotFound`; the registry is never changed by a read.
    pub fn get_session(&self, session_id: &str) -> (r: Result<&MultiplayerGame, StoreError>)
        requires
            self.wf(),
        ensures
            r is Ok <==> has_game(self@, session_id@),
            r is Ok ==> r->Ok_0@ == game_with_id(self@, session_id@),
            r is Err ==> r->Err_0 == StoreError::NotFound,
    {
        self.store.get_game(session_id)
    }
}

} // verus!

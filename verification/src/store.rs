//! The in-memory store: the single owner of all session state.
//!
//! Every read and every mutation of shared session state funnels through
//! `MemoryStore`. Reads return point-in-time snapshots; a mutation either
//! commits as a whole, so that later reads see the new state, or leaves the
//! store exactly as it was and reports why. An embedding that serves many
//! concurrent callers wraps the store in its own locking; linearizing the
//! calls reduces every history to the sequential behaviour specified here.

use vstd::prelude::*;

use crate::errors::{JoinError, StoreError};
use crate::player::{MultiplayerPlayer, PlayerView};
use crate::session::{GameView, MultiplayerGame};

verus! {

/// Whether a game with identifier `id` is stored.
pub open spec fn has_game(games: Seq<GameView>, id: Seq<char>) -> bool {
    exists|k: int| 0 <= k < games.len() && (#[trigger] games[k]).id == id
}

/// The position of the game with identifier `id`; the position is unique
/// when `store_wf` holds and `has_game` gives it meaning.
pub open spec fn index_of_game(games: Seq<GameView>, id: Seq<char>) -> int {
    choose|k: int| 0 <= k < games.len() && (#[trigger] games[k]).id == id
}

/// The stored game with identifier `id`; meaningful when `has_game` holds.
pub open spec fn game_with_id(games: Seq<GameView>, id: Seq<char>) -> GameView {
    games[index_of_game(games, id)]
}

/// The stored identifiers, in insertion order.
pub open spec fn ids_of(games: Seq<GameView>) -> Seq<Seq<char>> {
    games.map_values(|g: GameView| g.id)
}

/// Store well-formedness: every stored game is well formed and no two
/// stored games share an identifier.
pub open spec fn store_wf(games: Seq<GameView>) -> bool {
    &&& forall|i: int| 0 <= i < games.len() ==> (#[trigger] games[i]).wf()
    &&& forall|i: int, j: int|
        0 <= i < j < games.len() ==> (#[trigger] games[i]).id != (#[trigger] games[j]).id
}

/// A join of `p` into the game `id` is accepted exactly when the game is
/// stored and no roster entry carries `p`'s identifier.
pub open spec fn joinable(games: Seq<GameView>, id: Seq<char>, p: PlayerView) -> bool {
    &&& has_game(games, id)
    &&& !game_with_id(games, id).has_player(p.id)
}

/// The state change of a successful join: the roster of game `id` grows by
/// `p` at its end; every other game, and every other field of this game, is
/// unchanged.
pub open spec fn joined(pre: Seq<GameView>, post: Seq<GameView>, id: Seq<char>, p: PlayerView) -> bool {
    &&& has_game(pre, id)
    &&& post == pre.update(index_of_game(pre, id), (GameView {
        players: game_with_id(pre, id).players.push(p),
        ..game_with_id(pre, id)
    }))
}

/// With pairwise distinct identifiers, any position holding `id` is the
/// position that `index_of_game` picks.
pub proof fn lemma_game_at_index(games: Seq<GameView>, id: Seq<char>, i: int)
    requires
        store_wf(games),
        0 <= i < games.len(),
        games[i].id == id,
    ensures
        has_game(games, id),
        index_of_game(games, id) == i,
        game_with_id(games, id) == games[i],
{
    assert(has_game(games, id));
    let k = index_of_game(games, id);
    if k < i {
        assert(games[k].id != games[i].id);
    } else if i < k {
        assert(games[i].id != games[k].id);
    }
}

/// The repository of all sessions, backed by process memory. The backing
/// may be replaced by a persistent one as long as the replacement meets the
/// same contracts.
#[derive(Debug)]
pub struct MemoryStore {
    games: Vec<MultiplayerGame>,
}

impl View for MemoryStore {
    type V = Seq<GameView>;

    closed spec fn view(&self) -> Seq<GameView> {
        self.games@.map_values(|g: MultiplayerGame| g@)
    }
}

impl MemoryStore {
    /// The store's invariant; every constructor establishes it and every
    /// method preserves it.
    pub open spec fn wf(self) -> bool {
        store_wf(self@)
    }

    /// An empty store.
    pub fn new() -> (r: Self)
        ensures
            r@ == Seq::<GameView>::empty(),
            r.wf(),
    {
        let r = MemoryStore { games: Vec::new() };
        proof {
            assert(r@ =~= Seq::<GameView>::empty());
        }
        r
    }

    /// The position of the game with identifier `game_id`, if any.
    fn find_index(&self, game_id: &str) -> (r: Option<usize>)
        ensures
            match r {
                Some(i) => i < self@.len() && self@[i as int].id == game_id@,
                None => !has_game(self@, game_id@),
            },
    {
        let key: String = game_id.to_owned();
        let n = self.games.len();
        let mut k: usize = 0;
        while k < n
            invariant
                n == self.games.len(),
                n == self@.len(),
                k <= n,
                key@ == game_id@,
                forall|j: int| 0 <= j < k ==> (#[trigger] self@[j]).id != game_id@,
            decreases n - k,
        {
            if self.games[k].id_matches(&key) {
                return Some(k);
            }
            k += 1;
        }
        None
    }

    /// A mutable borrow of the game at position `i`.
    fn game_at_mut(&mut self, i: usize) -> (g: &mut MultiplayerGame)
        requires
            i < old(self).games.len(),
        ensures
            *g == old(self).games@[i as int],
            final(self).games@ == old(self).games@.update(i as int, *final(g)),
    {
        &mut self.games[i]
    }

    /// Inserts a new game. Rejected with `Conflict`, and the store left
    /// unchanged, exactly when the game's identifier is already present.
    pub fn add_game(&mut self, game: MultiplayerGame) -> (r: Result<(), StoreError>)
        requires
            old(self).wf(),
            game@.wf(),
        ensures
            final(self).wf(),
            r is Ok <==> !has_game(old(self)@, game@.id),
            r is Ok ==> final(self)@ == old(self)@.push(game@),
            r is Err ==> final(self)@ == old(self)@ && r == Err::<(), StoreError>(
                StoreError::Conflict,
            ),
    {
        match self.find_index(game.id()) {
            Some(_) => Err(StoreError::Conflict),
            None => {
                self.games.push(game);
                proof {
                    assert(self@ =~= old(self)@.push(game@));
                    assert forall|i: int, j: int|
                        0 <= i < j < self@.len() implies (#[trigger] self@[i]).id != (
                    #[trigger] self@[j]).id by {
                        if j + 1 < self@.len() {
                        } else {
                            assert(self@[j] == game@);
                            assert(self@[i] == old(self)@[i]);
                            if self@[i].id == game@.id {
                                assert(has_game(old(self)@, game@.id));
                            }
                        }
                    }
                }
                Ok(())
            },
        }
    }

    /// A snapshot of the game with identifier `game_id`, or `NotFound`.
    pub fn get_game(&self, game_id: &str) -> (r: Result<&MultiplayerGame, StoreError>)
        requires
            self.wf(),
        ensures
            r is Ok <==> has_game(self@, game_id@),
            r is Ok ==> r->Ok_0@ == game_with_id(self@, game_id@),
            r is Err ==> r->Err_0 == StoreError::NotFound,
    {
        match self.find_index(game_id) {
            Some(i) => {
                proof {
                    lemma_game_at_index(self@, game_id@, i as int);
                }
                Ok(&self.games[i])
            },
            None => Err(StoreError::NotFound),
        }
    }

    /// All stored games, in insertion order.
    pub fn get_games(&self) -> (r: &Vec<MultiplayerGame>)
        ensures
            r@.len() == self@.len(),
            forall|i: int| 0 <= i < r@.len() ==> (#[trigger] r@[i])@ == self@[i],
    {
        &self.games
    }

    /// The identifiers of all stored games. Under `wf` each identifier
    /// currently present appears exactly once.
    pub fn game_ids(&self) -> (r: Vec<String>)
        ensures
            r@.len() == self@.len(),
            forall|i: int| 0 <= i < r@.len() ==> (#[trigger] r@[i])@ == self@[i].id,
    {
        let mut out: Vec<String> = Vec::new();
        let n = self.games.len();
        let mut k: usize = 0;
        while k < n
            invariant
                n == self.games.len(),
                n == self@.len(),
                k <= n,
                out@.len() == k,
                forall|j: int| 0 <= j < k ==> (#[trigger] out@[j])@ == self@[j].id,
            decreases n - k,
        {
            out.push(self.games[k].id().to_owned());
            k += 1;
        }
        out
    }

    /// Replaces the stored game that carries `game_id` by `new_game`, which
    /// must carry the same identifier: a stored game's identifier never
    /// changes. Rejected with `NotFound`, and the store left unchanged,
    /// exactly when `game_id` is absent.
    pub fn update_game(&mut self, game_id: &str, new_game: MultiplayerGame) -> (r: Result<
        (),
        StoreError,
    >)
        requires
            old(self).wf(),
            new_game@.wf(),
            new_game@.id == game_id@,
        ensures
            final(self).wf(),
            r is Ok <==> has_game(old(self)@, game_id@),
            r is Ok ==> final(self)@ == old(self)@.update(
                index_of_game(old(self)@, game_id@),
                new_game@,
            ),
            r is Err ==> final(self)@ == old(self)@ && r == Err::<(), StoreError>(
                StoreError::NotFound,
            ),
    {
        match self.find_index(game_id) {
            Some(i) => {
                proof {
                    lemma_game_at_index(old(self)@, game_id@, i as int);
                }
                let slot = self.game_at_mut(i);
                *slot = new_game;
                proof {
                    assert(self@ =~= old(self)@.update(i as int, new_game@));
                    lemma_update_wf(old(self)@, self@, i as int, new_game@);
                }
                Ok(())
            },
            None => Err(StoreError::NotFound),
        }
    }

    /// Applies the join `game_id` ← `player` to the stored game: appends the
    /// player, or reports `NotFound` when the game is absent and
    /// `DuplicatePlayer` when the player's identifier is already on its
    /// roster. On either rejection the store is unchanged.
    pub fn add_player_to_game(&mut self, game_id: &str, player: MultiplayerPlayer) -> (r: Result<
        (),
        JoinError,
    >)
        requires
            old(self).wf(),
            player@.valid(),
        ensures
            final(self).wf(),
            r is Ok <==> joinable(old(self)@, game_id@, player@),
            r is Ok ==> joined(old(self)@, final(self)@, game_id@, player@),
            r is Err ==> final(self)@ == old(self)@,
            !has_game(old(self)@, game_id@) ==> r == Err::<(), JoinError>(JoinError::NotFound),
            has_game(old(self)@, game_id@) && game_with_id(old(self)@, game_id@).has_player(
                player@.id,
            ) ==> r == Err::<(), JoinError>(JoinError::DuplicatePlayer),
    {
        match self.find_index(game_id) {
            Some(i) => {
                proof {
                    lemma_game_at_index(old(self)@, game_id@, i as int);
                }
                let ghost pre_game = old(self)@[i as int];
                let slot = self.game_at_mut(i);
                let res = slot.add_player(player);
                match res {
                    Ok(()) => {
                        proof {
                            assert(self@ =~= old(self)@.update(i as int, (GameView {
                                players: pre_game.players.push(player@),
                                ..pre_game
                            })));
                            lemma_update_wf(
                                old(self)@,
                                self@,
                                i as int,
                                (GameView { players: pre_game.players.push(player@), ..pre_game }),
                            );
                        }
                        Ok(())
                    },
                    Err(e) => {
                        proof {
                            assert(self@ =~= old(self)@);
                        }
                        Err(e)
                    },
                }
            },
            None => Err(JoinError::NotFound),
        }
    }
}

/// Updating one stored slot by a well-formed game with the identifier that
/// the slot already carried preserves store well-formedness.
pub proof fn lemma_update_wf(pre: Seq<GameView>, post: Seq<GameView>, i: int, g: GameView)
    requires
        store_wf(pre),
        0 <= i < pre.len(),
        g.wf(),
        g.id == pre[i].id,
        post == pre.update(i, g),
    ensures
        store_wf(post),
{
    assert forall|a: int| 0 <= a < post.len() implies (#[trigger] post[a]).wf() by {
        if a != i {
            assert(post[a] == pre[a]);
        }
    }
    assert forall|a: int, b: int|
        0 <= a < b < post.len() implies (#[trigger] post[a]).id != (#[trigger] post[b]).id by {
        assert(pre[a].id != pre[b].id);
        if a != i {
            assert(post[a] == pre[a]);
        }
        if b != i {
            assert(post[b] == pre[b]);
        }
    }
}

} // verus!

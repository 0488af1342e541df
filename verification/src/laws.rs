//! Registry-wide guarantees, proved once over the transition predicates
//! that the executable contracts establish.
//!
//! `created` and `joined` describe exactly what a successful create or join
//! did to the registry, as the contracts of `SessionService::create_session`
//! and `SessionService::join_session` state them; the theorems here follow
//! from those descriptions alone, so they hold of every execution. Writes to
//! one session are linearized by the embedding's per-identifier locking, so
//! two concurrent joins reach the store in one of the two orders covered
//! here.

use vstd::prelude::*;

use crate::player::PlayerView;
use crate::service::created;
use crate::session::{lemma_roster_push_wf, GameView};
use crate::store::{
    game_with_id, has_game, ids_of, index_of_game, joinable, joined, lemma_game_at_index,
    lemma_update_wf, store_wf,
};

verus! {

/// Every identifier stored in `pre` is still stored in `post`.
pub open spec fn ids_preserved(pre: Seq<GameView>, post: Seq<GameView>) -> bool {
    forall|id: Seq<char>| #[trigger] has_game(pre, id) ==> has_game(post, id)
}

/// Identifier preservation is reflexive.
pub proof fn lemma_ids_preserved_refl(s: Seq<GameView>)
    ensures
        ids_preserved(s, s),
{
}

/// Identifier preservation composes over consecutive transitions.
pub proof fn lemma_ids_preserved_trans(a: Seq<GameView>, b: Seq<GameView>, c: Seq<GameView>)
    requires
        ids_preserved(a, b),
        ids_preserved(b, c),
    ensures
        ids_preserved(a, c),
{
}

/// A successful create keeps every stored identifier and stores the new one.
pub proof fn lemma_create_preserves_ids(
    pre: Seq<GameView>,
    post: Seq<GameView>,
    id: Seq<char>,
    creator: PlayerView,
)
    requires
        created(pre, post, id, creator),
    ensures
        ids_preserved(pre, post),
        has_game(post, id),
{
    assert forall|x: Seq<char>| #[trigger] has_game(pre, x) implies has_game(post, x) by {
        let k = choose|k: int| 0 <= k < pre.len() && (#[trigger] pre[k]).id == x;
        assert(post.drop_last()[k] == pre[k]);
        assert(post[k].id == x);
    }
    assert(post[post.len() - 1].id == id);
}

/// A successful join keeps every stored identifier, and the number of
/// stored sessions.
pub proof fn lemma_join_preserves_ids(
    pre: Seq<GameView>,
    post: Seq<GameView>,
    id: Seq<char>,
    p: PlayerView,
)
    requires
        joined(pre, post, id, p),
    ensures
        ids_preserved(pre, post),
        post.len() == pre.len(),
        ids_of(post) == ids_of(pre),
{
    let i = index_of_game(pre, id);
    assert forall|x: Seq<char>| #[trigger] has_game(pre, x) implies has_game(post, x) by {
        let k = choose|k: int| 0 <= k < pre.len() && (#[trigger] pre[k]).id == x;
        assert(post[k].id == pre[k].id);
    }
    assert forall|k: int| 0 <= k < post.len() implies ids_of(post)[k] == ids_of(pre)[k] by {
        assert(post[k].id == pre[k].id);
    }
    assert(ids_of(post) =~= ids_of(pre));
}

/// A successful join keeps the store well formed.
pub proof fn lemma_joined_preserves_wf(
    pre: Seq<GameView>,
    post: Seq<GameView>,
    id: Seq<char>,
    p: PlayerView,
)
    requires
        store_wf(pre),
        p.valid(),
        joinable(pre, id, p),
        joined(pre, post, id, p),
    ensures
        store_wf(post),
{
    let i = index_of_game(pre, id);
    let g = game_with_id(pre, id);
    lemma_roster_push_wf(g, p);
    lemma_update_wf(pre, post, i, (GameView { players: g.players.push(p), ..g }));
}

/// Uniqueness of created identifiers: a create hands out an identifier that
/// was absent and leaves it stored, and no later transition that keeps
/// stored identifiers — every create and join does — can make a further
/// create hand out the same identifier again. So no two created
/// identifiers are ever equal.
pub proof fn lemma_created_ids_distinct(
    s0: Seq<GameView>,
    s1: Seq<GameView>,
    s2: Seq<GameView>,
    s3: Seq<GameView>,
    id1: Seq<char>,
    id2: Seq<char>,
    p1: PlayerView,
    p2: PlayerView,
)
    requires
        created(s0, s1, id1, p1),
        ids_preserved(s1, s2),
        created(s2, s3, id2, p2),
    ensures
        id1 != id2,
{
    lemma_create_preserves_ids(s0, s1, id1, p1);
    assert(has_game(s2, id1));
}

/// The first of two concurrent joins does not spoil the second: after one
/// of two distinct joinable players has joined, the other is still
/// joinable, so both concurrent calls are acknowledged.
pub proof fn lemma_concurrent_joins_both_succeed(
    s0: Seq<GameView>,
    s1: Seq<GameView>,
    id: Seq<char>,
    p1: PlayerView,
    p2: PlayerView,
)
    requires
        store_wf(s0),
        p1.valid(),
        joinable(s0, id, p1),
        joinable(s0, id, p2),
        p1.id != p2.id,
        joined(s0, s1, id, p1),
    ensures
        joinable(s1, id, p2),
{
    let i = index_of_game(s0, id);
    let g = game_with_id(s0, id);
    let g1 = (GameView { players: g.players.push(p1), ..g });
    lemma_joined_preserves_wf(s0, s1, id, p1);
    lemma_game_at_index(s1, id, i);
    assert(game_with_id(s1, id) == g1);
    if g1.has_player(p2.id) {
        let k = choose|k: int|
            0 <= k < g1.players.len() && (#[trigger] g1.players[k]).id == p2.id;
        if k < g.players.len() {
            assert(g1.players[k] == g.players[k]);
            assert(g.has_player(p2.id));
        } else {
            assert(g1.players[k] == p1);
        }
    }
}

/// The whole effect of two concurrent joins of distinct players, linearized
/// in the order `p1` then `p2`: both are on the final roster, each exactly
/// once since the roster stays well formed, the roster grew by exactly the
/// two of them, and no session was added or removed.
pub proof fn lemma_concurrent_joins_roster(
    s0: Seq<GameView>,
    s1: Seq<GameView>,
    s2: Seq<GameView>,
    id: Seq<char>,
    p1: PlayerView,
    p2: PlayerView,
)
    requires
        store_wf(s0),
        p1.valid(),
        p2.valid(),
        joinable(s0, id, p1),
        joinable(s0, id, p2),
        p1.id != p2.id,
        joined(s0, s1, id, p1),
        joined(s1, s2, id, p2),
    ensures
        s2.len() == s0.len(),
        ids_of(s2) == ids_of(s0),
        game_with_id(s2, id).players == game_with_id(s0, id).players.push(p1).push(p2),
        game_with_id(s2, id).wf(),
        game_with_id(s2, id).has_player(p1.id),
        game_with_id(s2, id).has_player(p2.id),
        game_with_id(s2, id).players.len() == game_with_id(s0, id).players.len() + 2,
{
    let i = index_of_game(s0, id);
    let g = game_with_id(s0, id);
    let g1 = (GameView { players: g.players.push(p1), ..g });
    lemma_concurrent_joins_both_succeed(s0, s1, id, p1, p2);
    lemma_joined_preserves_wf(s0, s1, id, p1);
    lemma_join_preserves_ids(s0, s1, id, p1);
    lemma_game_at_index(s1, id, i);
    assert(game_with_id(s1, id) == g1);
    let g2 = (GameView { players: g1.players.push(p2), ..g1 });
    lemma_joined_preserves_wf(s1, s2, id, p2);
    lemma_join_preserves_ids(s1, s2, id, p2);
    lemma_game_at_index(s2, id, i);
    assert(game_with_id(s2, id) == g2);
    let n = g.players.len() as int;
    assert(g2.players[n] == p1);
    assert(g2.players[n + 1] == p2);
    assert(g2.has_player(p1.id));
    assert(g2.has_player(p2.id));
}

/// The two linearization orders of two concurrent joins agree: either order
/// yields the same roster up to the order of the two appended entries, and
/// the same stored identifiers.
pub proof fn lemma_join_order_commutes(
    s0: Seq<GameView>,
    sa1: Seq<GameView>,
    sa2: Seq<GameView>,
    sb1: Seq<GameView>,
    sb2: Seq<GameView>,
    id: Seq<char>,
    p1: PlayerView,
    p2: PlayerView,
)
    requires
        store_wf(s0),
        p1.valid(),
        p2.valid(),
        p1.id != p2.id,
        joinable(s0, id, p1),
        joinable(s0, id, p2),
        joined(s0, sa1, id, p1),
        joined(sa1, sa2, id, p2),
        joined(s0, sb1, id, p2),
        joined(sb1, sb2, id, p1),
    ensures
        ids_of(sa2) == ids_of(sb2),
        game_with_id(sa2, id).players.to_multiset() == game_with_id(sb2, id).players.to_multiset(),
{
    lemma_concurrent_joins_roster(s0, sa1, sa2, id, p1, p2);
    lemma_concurrent_joins_roster(s0, sb1, sb2, id, p2, p1);
    let r = game_with_id(s0, id).players;
    r.to_multiset_ensures();
    r.push(p1).to_multiset_ensures();
    r.push(p2).to_multiset_ensures();
    assert(r.push(p1).push(p2).to_multiset() =~= r.to_multiset().insert(p1).insert(p2));
    assert(r.push(p2).push(p1).to_multiset() =~= r.to_multiset().insert(p2).insert(p1));
    assert(r.to_multiset().insert(p1).insert(p2) =~= r.to_multiset().insert(p2).insert(p1));
}

/// Listing completeness: creating sessions with identifiers `a`, `b` and
/// `c` in an initially empty, otherwise untouched registry leaves exactly
/// the identifier set `{a, b, c}`, whatever the order of the three creates.
pub proof fn lemma_listing_after_three_creates(
    s0: Seq<GameView>,
    s1: Seq<GameView>,
    s2: Seq<GameView>,
    s3: Seq<GameView>,
    a: Seq<char>,
    b: Seq<char>,
    c: Seq<char>,
    pa: PlayerView,
    pb: PlayerView,
    pc: PlayerView,
)
    requires
        s0.len() == 0,
        created(s0, s1, a, pa),
        created(s1, s2, b, pb),
        created(s2, s3, c, pc),
    ensures
        s3.len() == 3,
        ids_of(s3).to_set() == set![a, b, c],
{
    let ids = ids_of(s3);
    assert(s1[0] == s1.last());
    assert(s2[0] == s2.drop_last()[0]);
    assert(s2[1] == s2.last());
    assert(s3[0] == s3.drop_last()[0]);
    assert(s3[1] == s3.drop_last()[1]);
    assert(s3[2] == s3.last());
    assert(ids =~= seq![a, b, c]);
    assert forall|x: Seq<char>| ids.to_set().contains(x) <==> set![a, b, c].contains(x) by {
        if ids.contains(x) {
            let i = choose|i: int| 0 <= i < ids.len() && ids[i] == x;
            assert(i == 0 || i == 1 || i == 2);
        }
        if x == a {
            assert(ids[0] == x);
            assert(ids.contains(x));
        }
        if x == b {
            assert(ids[1] == x);
            assert(ids.contains(x));
        }
        if x == c {
            assert(ids[2] == x);
            assert(ids.contains(x));
        }
    }
    assert(ids.to_set() =~= set![a, b, c]);
}

} // verus!

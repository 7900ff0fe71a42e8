//! The player component of the game layer: the part of it whose logic is
//! plain data, kept here so the boundary with the rendering core stays
//! typed.

use vstd::prelude::*;

verus! {

/// Per-player game state.
#[derive(Clone, Copy, PartialEq, Eq, Structural, Debug)]
pub struct Player {
    pub score: i32,
}

/// Adds `score` to every player's score.
pub fn add_score(players: &mut Vec<Player>, score: i32)
    requires
        forall|i: int|
            0 <= i < old(players)@.len() ==> i32::MIN <= (#[trigger] old(players)@[i]).score
                + score <= i32::MAX,
    ensures
        final(players)@.len() == old(players)@.len(),
        forall|i: int|
            0 <= i < final(players)@.len() ==> (#[trigger] final(players)@[i]).score == old(
                players,
            )@[i].score + score,
{
    let n = players.len();
    let mut i: usize = 0;
    while i < n
        invariant
            i <= n,
            n == players@.len(),
            players@.len() == old(players)@.len(),
            forall|j: int|
                0 <= j < n ==> i32::MIN <= (#[trigger] old(players)@[j]).score + score
                    <= i32::MAX,
            forall|j: int|
                0 <= j < i ==> (#[trigger] players@[j]).score == old(players)@[j].score + score,
            forall|j: int| i <= j < n ==> players@[j] == old(players)@[j],
        decreases n - i,
    {
        let s = players[i].score + score;
        players.set(i, Player { score: s });
        i += 1;
    }
}

} // verus!

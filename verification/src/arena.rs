//! The top-down arena: a ball steered with four keys, enemies that end the
//! game on touch, and stars that count.

use crate::controls::{axis, heading_of, Heading, Keys};
use crate::score::{GameOver, Score};
use vstd::prelude::*;

verus! {

/// Number of flags that are set.
pub open spec fn count_hits(hits: Seq<bool>) -> nat
    decreases hits.len(),
{
    if hits.len() == 0 {
        0
    } else {
        count_hits(hits.drop_last()) + if hits.last() {
            1nat
        } else {
            0nat
        }
    }
}

/// A front part of a row of flags holds no more set flags than the whole row.
pub proof fn count_hits_grows(hits: Seq<bool>, n: int)
    requires
        0 <= n <= hits.len(),
    ensures
        count_hits(hits.take(n)) <= count_hits(hits),
    decreases hits.len() - n,
{
    if n < hits.len() {
        count_hits_grows(hits, n + 1);
        assert(hits.take(n + 1).drop_last() == hits.take(n));
    } else {
        assert(hits.take(n) == hits);
    }
}

/// Nothing is counted exactly when nothing is touched.
pub proof fn no_hits_counted(hits: Seq<bool>)
    ensures
        count_hits(hits) == 0 <==> forall|i: int| 0 <= i < hits.len() ==> !hits[i],
    decreases hits.len(),
{
    if hits.len() > 0 {
        no_hits_counted(hits.drop_last());
        if count_hits(hits) == 0 {
            assert forall|i: int| 0 <= i < hits.len() implies !hits[i] by {
                if i < hits.len() - 1 {
                    assert(hits.drop_last()[i] == hits[i]);
                }
            }
        } else {
            if hits.last() {
                assert(hits[hits.len() - 1]);
            } else {
                let i = choose|i: int| 0 <= i < hits.len() - 1 && hits.drop_last()[i];
                assert(hits[i]);
            }
        }
    }
}

/// The direction the keys ask for: arrows or A, D, W and S, opposite keys
/// cancelling each other.
pub fn player_movement(keys: &Keys) -> (heading: Heading)
    ensures
        heading.x == axis(keys.steers_left(), keys.steers_right()),
        heading.y == axis(keys.steers_down(), keys.up || keys.w),
{
    heading_of(keys.left || keys.a, keys.right || keys.d, keys.down || keys.s, keys.up || keys.w)
}

/// Whether the game is to be closed: escape went down in this frame.
pub fn exit_game(keys: &Keys) -> (exit: bool)
    ensures
        exit == keys.escape_just_pressed,
{
    keys.escape_just_pressed
}

/// Ends the game for every enemy that touches the player. `hits` holds one
/// flag per enemy: whether its centre is nearer to the player's than
/// `ENEMY_REACH`. Each touch sends one event with the score as it stands, so
/// two enemies that arrive together end the game twice.
pub fn enemy_hit_player(hits: &Vec<bool>, score: &Score) -> (events: Vec<GameOver>)
    ensures
        events@.len() == count_hits(hits@),
        forall|k: int| 0 <= k < events@.len() ==> events@[k].score == score.value,
{
    let mut events: Vec<GameOver> = Vec::new();
    let mut i: usize = 0;
    while i < hits.len()
        invariant
            i <= hits@.len(),
            events@.len() == count_hits(hits@.take(i as int)),
            forall|k: int| 0 <= k < events@.len() ==> events@[k].score == score.value,
        decreases hits@.len() - i,
    {
        proof {
            assert(hits@.take(i + 1).drop_last() == hits@.take(i as int));
        }
        if hits[i] {
            events.push(GameOver { score: score.value });
        }
        i = i + 1;
    }
    proof {
        assert(hits@.take(i as int) == hits@);
    }
    events
}

/// Whether the score can take one more point for every star touched.
pub fn score_has_room(hits: &Vec<bool>, score: &Score) -> (room: bool)
    ensures
        room == (score.value + count_hits(hits@) <= u32::MAX),
{
    let mut left: u32 = u32::MAX - score.value;
    let mut i: usize = 0;
    while i < hits.len()
        invariant
            i <= hits@.len(),
            left + count_hits(hits@.take(i as int)) == u32::MAX - score.value,
        decreases hits@.len() - i,
    {
        proof {
            assert(hits@.take(i + 1).drop_last() == hits@.take(i as int));
        }
        if hits[i] {
            if left == 0 {
                proof {
                    count_hits_grows(hits@, i + 1);
                }
                return false;
            }
            left = left - 1;
        }
        i = i + 1;
    }
    proof {
        assert(hits@.take(i as int) == hits@);
    }
    true
}

/// Collects every star that the player touches. `hits` holds one flag per
/// star: whether its centre is nearer to the player's than `STAR_REACH`. Each
/// star touched adds one to the score; the result lists the touched stars by
/// their place in `hits`, in rising order, for the engine to remove.
pub fn player_hit_star(hits: &Vec<bool>, score: &mut Score) -> (collected: Vec<usize>)
    requires
        old(score).value + count_hits(hits@) <= u32::MAX,
    ensures
        final(score).value == old(score).value + count_hits(hits@),
        collected@.len() == count_hits(hits@),
        forall|k: int|
            0 <= k < collected@.len() ==> collected@[k] < hits@.len() && hits@[collected@[k] as int],
        forall|a: int, b: int| 0 <= a < b < collected@.len() ==> collected@[a] < collected@[b],
        forall|i: int| 0 <= i < hits@.len() && hits@[i] ==> collected@.contains(i as usize),
{
    let mut collected: Vec<usize> = Vec::new();
    let mut i: usize = 0;
    while i < hits.len()
        invariant
            i <= hits@.len(),
            old(score).value + count_hits(hits@) <= u32::MAX,
            score.value == old(score).value + count_hits(hits@.take(i as int)),
            count_hits(hits@.take(i as int)) <= count_hits(hits@),
            collected@.len() == count_hits(hits@.take(i as int)),
            forall|k: int|
                0 <= k < collected@.len() ==> collected@[k] < i && hits@[collected@[k] as int],
            forall|a: int, b: int| 0 <= a < b < collected@.len() ==> collected@[a] < collected@[b],
            forall|j: int| 0 <= j < i && hits@[j] ==> collected@.contains(j as usize),
        decreases hits@.len() - i,
    {
        proof {
            assert(hits@.take(i + 1).drop_last() == hits@.take(i as int));
            count_hits_grows(hits@, i + 1);
        }
        if hits[i] {
            let ghost before = collected@;
            collected.push(i);
            score.value = score.value + 1;
            proof {
                assert forall|j: int| 0 <= j < i + 1 && hits@[j] implies collected@.contains(
                    j as usize,
                ) by {
                    if j < i {
                        let k = choose|k: int| 0 <= k < before.len() && before[k] == j as usize;
                        assert(collected@[k] == j as usize);
                    } else {
                        assert(collected@[before.len() as int] == i);
                    }
                }
            }
        }
        i = i + 1;
    }
    proof {
        assert(hits@.take(i as int) == hits@);
    }
    collected
}

} // verus!

//! The running score, the event that ends a game, and the table of finished
//! games.

use vstd::prelude::*;

verus! {

/// Stars collected in the current game.
#[derive(Clone, Copy, Debug, PartialEq, Eq, Structural)]
pub struct Score {
    pub value: u32,
}

impl Default for Score {
    /// A new game starts with no stars.
    fn default() -> (score: Score)
        ensures
            score.value == 0,
    {
        Score { value: 0 }
    }
}

/// The end of a game, carrying the score it ended with.
#[derive(Clone, Copy, Debug, PartialEq, Eq, Structural)]
pub struct GameOver {
    pub score: u32,
}

/// Finished games, oldest first: who played, and the score.
#[derive(Debug)]
pub struct HighScores {
    pub scores: Vec<(String, u32)>,
}

impl Default for HighScores {
    /// A table with no games in it.
    fn default() -> (high_scores: HighScores)
        ensures
            high_scores.scores@.len() == 0,
    {
        HighScores { scores: Vec::new() }
    }
}

/// Enters every game that ended into the table, in the order in which the
/// games ended and behind the entries already there, under the name "Player".
pub fn update_high_scores(events: &Vec<GameOver>, high_scores: &mut HighScores)
    ensures
        final(high_scores).scores@.len() == old(high_scores).scores@.len() + events@.len(),
        forall|i: int|
            0 <= i < old(high_scores).scores@.len() ==> final(high_scores).scores@[i] == old(
                high_scores,
            ).scores@[i],
        forall|i: int|
            0 <= i < events@.len() ==> {
                let entry = #[trigger] final(high_scores).scores@[old(high_scores).scores@.len()
                    + i];
                entry.0@ == "Player"@ && entry.1 == events@[i].score
            },
{
    let ghost before = high_scores.scores@;
    let mut i: usize = 0;
    while i < events.len()
        invariant
            i <= events@.len(),
            before == old(high_scores).scores@,
            high_scores.scores@.len() == before.len() + i,
            forall|k: int| 0 <= k < before.len() ==> high_scores.scores@[k] == before[k],
            forall|k: int|
                0 <= k < i ==> {
                    let entry = #[trigger] high_scores.scores@[before.len() + k];
                    entry.0@ == "Player"@ && entry.1 == events@[k].score
                },
        decreases events@.len() - i,
    {
        let name = "Player".to_owned();
        high_scores.scores.push((name, events[i].score));
        i = i + 1;
    }
}

} // verus!

//! The score ledger: the per-run counter and the cross-run history.

use crate::events::GameOver;
use vstd::prelude::*;

verus! {

/// The per-run score counter: created on entering the Game phase at zero,
/// destroyed on leaving it.
#[derive(Clone, Copy, PartialEq, Eq, Structural, Debug)]
pub struct Score {
    pub value: u32,
}

/// The process-lifetime score history: one entry appended on every game
/// over, never cleared.
#[derive(PartialEq, Eq, Debug)]
pub struct HighScores {
    pub scores: Vec<u32>,
}

impl HighScores {
    /// An empty history.
    pub fn new() -> (r: HighScores)
        ensures
            r.scores@.len() == 0,
    {
        HighScores { scores: Vec::new() }
    }
}

/// Creates the per-run score counter, starting at zero.
pub fn insert_score(score: &mut Option<Score>)
    ensures
        *final(score) == Some((Score { value: 0 })),
{
    *score = Some(Score { value: 0 });
}

/// Destroys the per-run score counter.
pub fn remove_score(score: &mut Option<Score>)
    ensures
        final(score).is_none(),
{
    *score = None;
}

/// Appends the score carried by every game-over signal of this frame to the
/// history, in order.
pub fn update_high_scores_on_game_over(events: &Vec<GameOver>, high_scores: &mut HighScores)
    ensures
        final(high_scores).scores@ == old(high_scores).scores@ + events@.map_values(
            |e: GameOver| e.score,
        ),
{
    let ghost mapped = events@.map_values(|e: GameOver| e.score);
    let mut i: usize = 0;
    while i < events.len()
        invariant
            i <= events@.len(),
            mapped == events@.map_values(|e: GameOver| e.score),
            high_scores.scores@ == old(high_scores).scores@ + mapped.take(i as int),
        decreases events@.len() - i,
    {
        high_scores.scores.push(events[i].score);
        proof {
            assert(mapped.take(i + 1) =~= mapped.take(i as int).push(mapped[i as int]));
            assert((old(high_scores).scores@ + mapped.take(i + 1)) =~= (old(
                high_scores,
            ).scores@ + mapped.take(i as int)).push(mapped[i as int]));
        }
        i = i + 1;
    }
    proof {
        assert(mapped.take(events@.len() as int) =~= mapped);
    }
}

} // verus!

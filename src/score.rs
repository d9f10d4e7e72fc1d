//! The score of a run and the queue of "+1" pop-ups it feeds.
use vstd::prelude::*;

use crate::geometry::Pos;

verus! {

/// Points scored in the current run.
#[derive(Clone, Copy, Debug, PartialEq, Eq, Structural)]
pub struct Score(pub u64);

/// A "+1" pop-up waiting to be shown above `landing_pos`.
#[derive(Clone, Copy, Debug, PartialEq, Eq, Structural)]
pub struct ScoreUpEvent {
    pub landing_pos: Pos,
}

/// Pending pop-ups, oldest first.
#[derive(Debug)]
pub struct ScoreUpQueue(pub Vec<ScoreUpEvent>);

impl ScoreUpQueue {
    pub fn new() -> (r: ScoreUpQueue)
        ensures
            r.0@.len() == 0,
    {
        ScoreUpQueue(Vec::new())
    }
}

/// Starts a run with no points.
pub fn reset_score(score: &mut Score)
    ensures
        final(score).0 == 0,
{
    score.0 = 0;
}

} // verus!

use vstd::prelude::*;
use crate::collision::GameOverEvent;

verus! {

/// One entry of the high-score history.
#[derive(Debug)]
pub struct HighScore {
    pub label: String,
    pub score: u32,
}

/// The current round's score and the chronological list of final scores.
#[derive(Debug)]
pub struct ScoreBoard {
    pub current: u32,
    pub history: Vec<HighScore>,
}

impl ScoreBoard {
    pub fn new() -> (r: ScoreBoard)
        ensures
            r.current == 0,
            r.history@.len() == 0,
    {
        ScoreBoard { current: 0, history: Vec::new() }
    }

    /// The current round's score.
    pub fn current_score(&self) -> (r: u32)
        ensures
            r == self.current,
    {
        self.current
    }

    /// Starts a new round's score at zero; the history is kept.
    pub fn reset(&mut self)
        ensures
            final(self).current == 0,
            final(self).history@ == old(self).history@,
    {
        self.current = 0;
    }

    /// Appends the final score of a game-over event, labelled "Player".
    pub fn record(&mut self, event: GameOverEvent)
        ensures
            final(self).current == old(self).current,
            final(self).history@.len() == old(self).history@.len() + 1,
            final(self).history@.drop_last() == old(self).history@,
            final(self).history@.last().score == event.score,
            final(self).history@.last().label@ == "Player"@,
    {
        let label = "Player".to_string();
        let ghost h = self.history@;
        self.history.push(HighScore { label, score: event.score });
        assert(self.history@.drop_last() =~= h);
    }

    /// Labels and scores of the history, oldest first.
    pub fn high_scores(&self) -> (r: Vec<(String, u32)>)
        ensures
            r@.len() == self.history@.len(),
            forall|i: int|
                0 <= i < r@.len() ==> (#[trigger] r@[i]).1 == self.history@[i].score && r@[i].0@
                    == self.history@[i].label@,
    {
        let mut out: Vec<(String, u32)> = Vec::new();
        let mut i: usize = 0;
        while i < self.history.len()
            invariant
                i <= self.history@.len(),
                out@.len() == i,
                forall|k: int|
                    0 <= k < i ==> (#[trigger] out@[k]).1 == self.history@[k].score && out@[k].0@
                        == self.history@[k].label@,
            decreases self.history@.len() - i,
        {
            let label = self.history[i].label.clone();
            out.push((label, self.history[i].score));
            i = i + 1;
        }
        out
    }
}

} // verus!

use vstd::prelude::*;

verus! {

/// Points for each enemy killed.
pub const SCORE_PER_SKULL: u64 = 150;

/// Extra points for each link of the explosion chain that caused the kill.
pub const SCORE_PER_CHAIN: u64 = 60;

/// The session's running score.
#[derive(Clone, Copy, Debug, PartialEq, Eq, Structural)]
pub struct Score {
    pub score: u64,
}

/// A kill to be scored, with the chain depth that caused it.
#[derive(Clone, Copy, Debug, PartialEq, Eq, Structural)]
pub struct ScoreEvent {
    pub chain: u64,
}

/// Points awarded for one kill.
pub open spec fn kill_points(chain: u64) -> int {
    SCORE_PER_SKULL + SCORE_PER_CHAIN * chain
}

/// Points awarded for a batch of kills.
pub open spec fn batch_points(events: Seq<ScoreEvent>) -> int
    decreases events.len(),
{
    if events.len() == 0 {
        0
    } else {
        batch_points(events.drop_last()) + kill_points(events.last().chain)
    }
}

pub proof fn lemma_batch_points_nonneg(events: Seq<ScoreEvent>)
    ensures
        batch_points(events) >= 0,
    decreases events.len(),
{
    if events.len() > 0 {
        lemma_batch_points_nonneg(events.drop_last());
    }
}

pub proof fn lemma_batch_points_prefix(events: Seq<ScoreEvent>, i: int)
    requires
        0 <= i <= events.len(),
    ensures
        batch_points(events.take(i)) <= batch_points(events),
    decreases events.len(),
{
    if i < events.len() {
        assert(events.drop_last().take(i) == events.take(i));
        lemma_batch_points_prefix(events.drop_last(), i);
        lemma_batch_points_nonneg(events.drop_last());
    } else {
        assert(events.take(i) == events);
    }
}

impl Score {
    pub fn new() -> (r: Score)
        ensures
            r.score == 0,
    {
        Score { score: 0 }
    }

    /// Adds the points of a whole batch of kills at once.
    pub fn handle_score_events(&mut self, events: &Vec<ScoreEvent>)
        requires
            old(self).score + batch_points(events@) <= u64::MAX,
        ensures
            final(self).score == old(self).score + batch_points(events@),
    {
        let mut total: u64 = 0;
        let mut i: usize = 0;
        while i < events.len()
            invariant
                i <= events.len(),
                total == batch_points(events@.take(i as int)),
                self.score + batch_points(events@) <= u64::MAX,
            decreases events.len() - i,
        {
            proof {
                lemma_batch_points_prefix(events@, i + 1);
                lemma_batch_points_nonneg(events@);
                assert(events@.take(i + 1).drop_last() == events@.take(i as int));
            }
            let chain = events[i].chain;
            total = total + (SCORE_PER_SKULL + SCORE_PER_CHAIN * chain);
            i = i + 1;
        }
        assert(events@.take(i as int) == events@);
        self.score = self.score + total;
    }
}

/// Kills arriving together are all counted: the score grows by the sum of
/// their points, whatever their order within the batch.
pub proof fn law_batch_sums_points(a: ScoreEvent, b: ScoreEvent)
    ensures
        batch_points(seq![a, b]) == kill_points(a.chain) + kill_points(b.chain),
        batch_points(seq![a, b]) == batch_points(seq![b, a]),
{
    assert(seq![a, b].drop_last() == seq![a]);
    assert(seq![b, a].drop_last() == seq![b]);
    assert(seq![a].drop_last() == Seq::<ScoreEvent>::empty());
    assert(seq![b].drop_last() == Seq::<ScoreEvent>::empty());
    assert(batch_points(Seq::<ScoreEvent>::empty()) == 0);
    assert(batch_points(seq![a]) == kill_points(a.chain));
    assert(batch_points(seq![b]) == kill_points(b.chain));
    assert(batch_points(seq![a, b]) == kill_points(a.chain) + kill_points(b.chain));
    assert(batch_points(seq![b, a]) == kill_points(b.chain) + kill_points(a.chain));
}

} // verus!

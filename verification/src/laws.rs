use vstd::prelude::*;

use crate::level::{total_weight, Level, ScoreLog};

verus! {

/// One more event adds its weight to the total.
pub proof fn lemma_total_weight_push(events: Seq<Level>, level: Level)
    ensures
        total_weight(events.push(level)) == total_weight(events) + level.weight(),
{
    assert(events.push(level).drop_last() =~= events);
}

/// The total of two logs laid end to end is the sum of their totals.
pub proof fn lemma_total_weight_concat(first: Seq<Level>, second: Seq<Level>)
    ensures
        total_weight(first + second) == total_weight(first) + total_weight(second),
    decreases second.len(),
{
    if second.len() == 0 {
        assert(first + second =~= first);
    } else {
        lemma_total_weight_concat(first, second.drop_last());
        assert((first + second).drop_last() =~= first + second.drop_last());
    }
}

/// Every event weighs at least 1 and at most 5000.
pub proof fn lemma_total_weight_range(events: Seq<Level>)
    ensures
        events.len() <= total_weight(events) <= 5000 * events.len(),
    decreases events.len(),
{
    if events.len() > 0 {
        lemma_total_weight_range(events.drop_last());
    }
}

/// A log weighs at least as much as any one event in it.
pub proof fn lemma_total_weight_contains(events: Seq<Level>, level: Level)
    requires
        events.contains(level),
    ensures
        total_weight(events) >= level.weight(),
    decreases events.len(),
{
    lemma_total_weight_range(events.drop_last());
    if events.last() != level {
        let i = choose|i: int| 0 <= i < events.len() && events[i] == level;
        assert(events.drop_last()[i] == level);
        lemma_total_weight_contains(events.drop_last(), level);
    }
}

/// Without the highest tier, no event weighs more than 50.
pub proof fn lemma_total_weight_lesser(events: Seq<Level>)
    requires
        !events.contains(Level::EndAll),
    ensures
        total_weight(events) <= 50 * events.len(),
    decreases events.len(),
{
    if events.len() > 0 {
        assert(events[events.len() - 1] == events.last());
        assert forall|i: int| 0 <= i < events.drop_last().len() implies events.drop_last()[i]
            != Level::EndAll by {
            assert(events[i] == events.drop_last()[i]);
        }
        lemma_total_weight_lesser(events.drop_last());
    }
}

/// The score of a merge is the sum of the two scores.
pub proof fn lemma_merge_adds(receiver: ScoreLog, source: ScoreLog)
    ensures
        receiver.merge(source).score() == receiver.score() + source.score(),
{
    lemma_total_weight_concat(receiver.penalties, source.penalties);
    lemma_total_weight_concat(receiver.bonuses, source.bonuses);
}

/// The score of a merge does not depend on which of the two accumulators
/// receives the other.
pub proof fn lemma_merge_commutes(a: ScoreLog, b: ScoreLog)
    ensures
        a.merge(b).score() == b.merge(a).score(),
{
    lemma_merge_adds(a, b);
    lemma_merge_adds(b, a);
}

/// Merging three accumulators gives the same score however they are grouped.
pub proof fn lemma_merge_associates(a: ScoreLog, b: ScoreLog, c: ScoreLog)
    ensures
        a.merge(b).merge(c).score() == a.merge(b.merge(c)).score(),
{
    lemma_merge_adds(a, b);
    lemma_merge_adds(a.merge(b), c);
    lemma_merge_adds(b, c);
    lemma_merge_adds(a, b.merge(c));
}

/// Any penalty lowers the score, by its weight.
pub proof fn lemma_penalty_lowers(log: ScoreLog, level: Level)
    ensures
        log.with_penalty(level).score() == log.score() - level.weight(),
        log.with_penalty(level).score() < log.score(),
{
    lemma_total_weight_push(log.penalties, level);
}

/// Any bonus raises the score, by its weight.
pub proof fn lemma_bonus_raises(log: ScoreLog, level: Level)
    ensures
        log.with_bonus(level).score() == log.score() + level.weight(),
        log.with_bonus(level).score() > log.score(),
{
    lemma_total_weight_push(log.bonuses, level);
}

/// One penalty of the highest tier outweighs up to 99 bonuses of the lower
/// tiers: the score is then negative, whatever else was recorded.
pub proof fn lemma_end_all_dominates(log: ScoreLog)
    requires
        log.penalties.contains(Level::EndAll),
        !log.bonuses.contains(Level::EndAll),
        log.bonuses.len() <= 99,
    ensures
        log.score() < 0,
{
    lemma_total_weight_contains(log.penalties, Level::EndAll);
    lemma_total_weight_lesser(log.bonuses);
}

} // verus!

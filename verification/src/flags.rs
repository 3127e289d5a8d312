use vstd::prelude::*;

use crate::laws::{lemma_merge_adds, lemma_total_weight_push, lemma_total_weight_range};
use crate::level::{total_weight, Level, ScoreLog};

verus! {

/// An accumulator of evidence: two append-only logs of severity tiers.
#[derive(Clone, Debug)]
pub struct Flags {
    penalties: Vec<Level>,
    bonuses: Vec<Level>,
}

impl View for Flags {
    type V = ScoreLog;

    closed spec fn view(&self) -> ScoreLog {
        ScoreLog { penalties: self.penalties@, bonuses: self.bonuses@ }
    }
}

/// Adds up the weights of a log.
fn sum_weights(events: &Vec<Level>) -> (total: i128)
    ensures
        total == total_weight(events@),
{
    let mut total: i128 = 0;
    let mut i: usize = 0;
    while i < events.len()
        invariant
            i <= events.len(),
            total == total_weight(events@.take(i as int)),
            0 <= total <= 5000 * i,
        decreases events.len() - i,
    {
        let w: i64 = events[i].value();
        proof {
            assert(events@.take(i + 1) =~= events@.take(i as int).push(events@[i as int]));
            lemma_total_weight_push(events@.take(i as int), events@[i as int]);
        }
        total = total + (w as i128);
        i = i + 1;
    }
    proof {
        assert(events@.take(i as int) =~= events@);
    }
    total
}

impl Flags {
    /// An accumulator in which nothing is recorded.
    pub fn new() -> (flags: Flags)
        ensures
            flags@ == ScoreLog::empty(),
    {
        Flags { penalties: Vec::with_capacity(50), bonuses: Vec::with_capacity(50) }
    }

    /// Records a penalty. The score falls by the weight of `level`.
    pub fn penalty(&mut self, level: Level)
        ensures
            final(self)@ == old(self)@.with_penalty(level),
            final(self)@.score() == old(self)@.score() - level.weight(),
            final(self)@.score() < old(self)@.score(),
    {
        self.inner_penalty(level);
    }

    /// Records a bonus. The score rises by the weight of `level`.
    pub fn bonus(&mut self, level: Level)
        ensures
            final(self)@ == old(self)@.with_bonus(level),
            final(self)@.score() == old(self)@.score() + level.weight(),
            final(self)@.score() > old(self)@.score(),
    {
        self.inner_bonus(level);
    }

    fn inner_penalty(&mut self, level: Level)
        ensures
            final(self)@ == old(self)@.with_penalty(level),
            final(self)@.score() == old(self)@.score() - level.weight(),
            final(self)@.score() < old(self)@.score(),
    {
        proof {
            lemma_total_weight_push(self.penalties@, level);
        }
        self.penalties.push(level);
    }

    fn inner_bonus(&mut self, level: Level)
        ensures
            final(self)@ == old(self)@.with_bonus(level),
            final(self)@.score() == old(self)@.score() + level.weight(),
            final(self)@.score() > old(self)@.score(),
    {
        proof {
            lemma_total_weight_push(self.bonuses@, level);
        }
        self.bonuses.push(level);
    }

    /// The penalties, in the order in which they were recorded.
    pub fn penalties(&self) -> (log: &[Level])
        ensures
            log@ == self@.penalties,
    {
        self.penalties.as_slice()
    }

    /// The bonuses, in the order in which they were recorded.
    pub fn bonuses(&self) -> (log: &[Level])
        ensures
            log@ == self@.bonuses,
    {
        self.bonuses.as_slice()
    }

    /// The weights of the bonuses less the weights of the penalties, computed
    /// anew from the two logs. The result has to fit the return type.
    pub fn score(&self) -> (s: i64)
        requires
            i64::MIN <= self@.score() <= i64::MAX,
        ensures
            s == self@.score(),
    {
        let penalty_score: i128 = sum_weights(&self.penalties);
        let bonus_score: i128 = sum_weights(&self.bonuses);
        proof {
            lemma_total_weight_range(self.penalties@);
            lemma_total_weight_range(self.bonuses@);
        }
        let difference: i128 = bonus_score - penalty_score;
        difference as i64
    }

    /// Moves the events of `other` to the end of this accumulator's logs, and
    /// leaves `other` empty.
    pub fn merge(&mut self, other: &mut Flags)
        ensures
            final(self)@ == old(self)@.merge(old(other)@),
            final(self)@.score() == old(self)@.score() + old(other)@.score(),
            final(other)@ == ScoreLog::empty(),
    {
        proof {
            lemma_merge_adds(self@, other@);
        }
        self.penalties.append(&mut other.penalties);
        self.bonuses.append(&mut other.bonuses);
    }

    /// Records a penalty of the lowest tier.
    pub fn tiny_penalty(&mut self)
        ensures
            final(self)@ == old(self)@.with_penalty(Level::Tiny),
            final(self)@.score() == old(self)@.score() - Level::Tiny.weight(),
    {
        self.inner_penalty(Level::Tiny);
    }

    /// Records a bonus of the lowest tier.
    pub fn tiny_bonus(&mut self)
        ensures
            final(self)@ == old(self)@.with_bonus(Level::Tiny),
            final(self)@.score() == old(self)@.score() + Level::Tiny.weight(),
    {
        self.inner_bonus(Level::Tiny);
    }

    /// Records a penalty of the second tier.
    pub fn small_penalty(&mut self)
        ensures
            final(self)@ == old(self)@.with_penalty(Level::Small),
            final(self)@.score() == old(self)@.score() - Level::Small.weight(),
    {
        self.inner_penalty(Level::Small);
    }

    /// Records a bonus of the second tier.
    pub fn small_bonus(&mut self)
        ensures
            final(self)@ == old(self)@.with_bonus(Level::Small),
            final(self)@.score() == old(self)@.score() + Level::Small.weight(),
    {
        self.inner_bonus(Level::Small);
    }

    /// Records a penalty of the third tier.
    pub fn medium_penalty(&mut self)
        ensures
            final(self)@ == old(self)@.with_penalty(Level::Medium),
            final(self)@.score() == old(self)@.score() - Level::Medium.weight(),
    {
        self.inner_penalty(Level::Medium);
    }

    /// Records a bonus of the third tier.
    pub fn medium_bonus(&mut self)
        ensures
            final(self)@ == old(self)@.with_bonus(Level::Medium),
            final(self)@.score() == old(self)@.score() + Level::Medium.weight(),
    {
        self.inner_bonus(Level::Medium);
    }

    /// Records a penalty of the fourth tier.
    pub fn large_penalty(&mut self)
        ensures
            final(self)@ == old(self)@.with_penalty(Level::Large),
            final(self)@.score() == old(self)@.score() - Level::Large.weight(),
    {
        self.inner_penalty(Level::Large);
    }

    /// Records a bonus of the fourth tier.
    pub fn large_bonus(&mut self)
        ensures
            final(self)@ == old(self)@.with_bonus(Level::Large),
            final(self)@.score() == old(self)@.score() + Level::Large.weight(),
    {
        self.inner_bonus(Level::Large);
    }

    /// Records a penalty of the fifth tier.
    pub fn extreme_penalty(&mut self)
        ensures
            final(self)@ == old(self)@.with_penalty(Level::Extreme),
            final(self)@.score() == old(self)@.score() - Level::Extreme.weight(),
    {
        self.inner_penalty(Level::Extreme);
    }

    /// Records a bonus of the fifth tier.
    pub fn extreme_bonus(&mut self)
        ensures
            final(self)@ == old(self)@.with_bonus(Level::Extreme),
            final(self)@.score() == old(self)@.score() + Level::Extreme.weight(),
    {
        self.inner_bonus(Level::Extreme);
    }

    /// Records a penalty of the highest tier.
    pub fn end_all_penalty(&mut self)
        ensures
            final(self)@ == old(self)@.with_penalty(Level::EndAll),
            final(self)@.score() == old(self)@.score() - Level::EndAll.weight(),
    {
        self.inner_penalty(Level::EndAll);
    }

    /// Records a bonus of the highest tier.
    pub fn end_all_bonus(&mut self)
        ensures
            final(self)@ == old(self)@.with_bonus(Level::EndAll),
            final(self)@.score() == old(self)@.score() + Level::EndAll.weight(),
    {
        self.inner_bonus(Level::EndAll);
    }
}

} // verus!

use vstd::prelude::*;

verus! {

/// The severity tiers. Each stands for a fixed positive weight.
#[derive(Clone, Copy, PartialEq, Eq, Debug, Structural)]
pub enum Level {
    Tiny,
    Small,
    Medium,
    Large,
    Extreme,
    EndAll,
}

impl Level {
    /// The weight of a tier, as a mathematical integer.
    pub open spec fn weight(self) -> int {
        match self {
            Level::Tiny => 1,
            Level::Small => 3,
            Level::Medium => 10,
            Level::Large => 20,
            Level::Extreme => 50,
            Level::EndAll => 5000,
        }
    }

    /// The weight of a tier.
    pub fn value(self) -> (w: i64)
        ensures
            w == self.weight(),
    {
        match self {
            Level::Tiny => 1,
            Level::Small => 3,
            Level::Medium => 10,
            Level::Large => 20,
            Level::Extreme => 50,
            Level::EndAll => 5000,
        }
    }
}

/// The sum of the weights of a sequence of events.
pub open spec fn total_weight(events: Seq<Level>) -> int
    decreases events.len(),
{
    if events.len() == 0 {
        0
    } else {
        total_weight(events.drop_last()) + events.last().weight()
    }
}

/// What an accumulator holds: the penalties and the bonuses, each in the order
/// in which they were recorded.
pub struct ScoreLog {
    pub penalties: Seq<Level>,
    pub bonuses: Seq<Level>,
}

impl ScoreLog {
    /// The log in which nothing was recorded.
    pub open spec fn empty() -> ScoreLog {
        ScoreLog { penalties: Seq::empty(), bonuses: Seq::empty() }
    }

    /// The weights of the bonuses less the weights of the penalties.
    pub open spec fn score(self) -> int {
        total_weight(self.bonuses) - total_weight(self.penalties)
    }

    /// This log with one more penalty at the end.
    pub open spec fn with_penalty(self, level: Level) -> ScoreLog {
        ScoreLog { penalties: self.penalties.push(level), bonuses: self.bonuses }
    }

    /// This log with one more bonus at the end.
    pub open spec fn with_bonus(self, level: Level) -> ScoreLog {
        ScoreLog { penalties: self.penalties, bonuses: self.bonuses.push(level) }
    }

    /// This log followed by the events of `other`.
    pub open spec fn merge(self, other: ScoreLog) -> ScoreLog {
        ScoreLog {
            penalties: self.penalties + other.penalties,
            bonuses: self.bonuses + other.bonuses,
        }
    }
}

} // verus!

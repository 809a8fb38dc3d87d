//! The ladder of seek distances.

use vstd::prelude::*;

use crate::mpv::time::{Time, MICROS_PER_SECOND};

verus! {

/// How far one step of an interactive seek moves.
///
/// The variants form a ladder from the shortest step to the longest.
#[derive(Clone, Copy, Debug, PartialEq, Eq, Structural)]
pub enum SeekSpeed {
    Second,
    FiveSeconds,
    ThirtySeconds,
    Minute,
    TenMinutes,
}

impl Default for SeekSpeed {
    fn default() -> (speed: SeekSpeed)
        ensures
            speed == SeekSpeed::FiveSeconds,
    {
        SeekSpeed::FiveSeconds
    }
}

impl SeekSpeed {
    /// Position on the ladder, counted from the shortest step.
    pub open spec fn rank(self) -> int {
        match self {
            SeekSpeed::Second => 0,
            SeekSpeed::FiveSeconds => 1,
            SeekSpeed::ThirtySeconds => 2,
            SeekSpeed::Minute => 3,
            SeekSpeed::TenMinutes => 4,
        }
    }

    /// The rung at a given position, if the ladder has one there.
    pub open spec fn at_rank(rank: int) -> Option<SeekSpeed> {
        if rank == 0 {
            Some(SeekSpeed::Second)
        } else if rank == 1 {
            Some(SeekSpeed::FiveSeconds)
        } else if rank == 2 {
            Some(SeekSpeed::ThirtySeconds)
        } else if rank == 3 {
            Some(SeekSpeed::Minute)
        } else if rank == 4 {
            Some(SeekSpeed::TenMinutes)
        } else {
            None
        }
    }

    /// Whole seconds covered by one step.
    pub open spec fn seconds(self) -> int {
        match self {
            SeekSpeed::Second => 1,
            SeekSpeed::FiveSeconds => 5,
            SeekSpeed::ThirtySeconds => 30,
            SeekSpeed::Minute => 60,
            SeekSpeed::TenMinutes => 600,
        }
    }

    /// The span covered by one step.
    pub open spec fn distance(self) -> Time {
        Time::of(self.seconds() * MICROS_PER_SECOND)
    }

    /// The next longer step, as a specification.
    pub open spec fn next_longer(self) -> Option<SeekSpeed> {
        Self::at_rank(self.rank() + 1)
    }

    /// The next shorter step, as a specification.
    pub open spec fn next_shorter(self) -> Option<SeekSpeed> {
        Self::at_rank(self.rank() - 1)
    }

    /// Text shown for this step.
    pub open spec fn label_text(self) -> Seq<char> {
        match self {
            SeekSpeed::Second => "1s"@,
            SeekSpeed::FiveSeconds => "5s"@,
            SeekSpeed::ThirtySeconds => "30s"@,
            SeekSpeed::Minute => "1m"@,
            SeekSpeed::TenMinutes => "10m"@,
        }
    }

    /// How far one step of this speed moves.
    pub fn duration(self) -> (span: Time)
        ensures
            span == self.distance(),
    {
        match self {
            SeekSpeed::Second => Time::seconds(1),
            SeekSpeed::FiveSeconds => Time::seconds(5),
            SeekSpeed::ThirtySeconds => Time::seconds(30),
            SeekSpeed::Minute => Time::seconds(60),
            SeekSpeed::TenMinutes => Time::seconds(600),
        }
    }

    /// Short text naming the step.
    pub fn label(self) -> (text: &'static str)
        ensures
            text@ == self.label_text(),
    {
        match self {
            SeekSpeed::Second => "1s",
            SeekSpeed::FiveSeconds => "5s",
            SeekSpeed::ThirtySeconds => "30s",
            SeekSpeed::Minute => "1m",
            SeekSpeed::TenMinutes => "10m",
        }
    }

    /// The next longer step, or `None` from the longest.
    pub fn longer(self) -> (next: Option<SeekSpeed>)
        ensures
            next == self.next_longer(),
    {
        match self {
            SeekSpeed::Second => Some(SeekSpeed::FiveSeconds),
            SeekSpeed::FiveSeconds => Some(SeekSpeed::ThirtySeconds),
            SeekSpeed::ThirtySeconds => Some(SeekSpeed::Minute),
            SeekSpeed::Minute => Some(SeekSpeed::TenMinutes),
            SeekSpeed::TenMinutes => None,
        }
    }

    /// The next shorter step, or `None` from the shortest.
    pub fn shorter(self) -> (next: Option<SeekSpeed>)
        ensures
            next == self.next_shorter(),
    {
        match self {
            SeekSpeed::Second => None,
            SeekSpeed::FiveSeconds => Some(SeekSpeed::Second),
            SeekSpeed::ThirtySeconds => Some(SeekSpeed::FiveSeconds),
            SeekSpeed::Minute => Some(SeekSpeed::ThirtySeconds),
            SeekSpeed::TenMinutes => Some(SeekSpeed::Minute),
        }
    }
}

/// The speed reached from `speed` by `steps` steps towards longer.
pub open spec fn longer_by(speed: Option<SeekSpeed>, steps: nat) -> Option<SeekSpeed>
    decreases steps,
{
    if steps == 0 {
        speed
    } else {
        match speed {
            Some(speed) => longer_by(speed.next_longer(), (steps - 1) as nat),
            None => None,
        }
    }
}

/// The speed reached from `speed` by `steps` steps towards shorter.
pub open spec fn shorter_by(speed: Option<SeekSpeed>, steps: nat) -> Option<SeekSpeed>
    decreases steps,
{
    if steps == 0 {
        speed
    } else {
        match speed {
            Some(speed) => shorter_by(speed.next_shorter(), (steps - 1) as nat),
            None => None,
        }
    }
}

/// Stepping towards longer ends: from any speed the ladder runs out
/// after as many steps as there are rungs above it, and one more.
pub proof fn longer_runs_out(speed: SeekSpeed)
    ensures
        longer_by(Some(speed), (5 - speed.rank()) as nat) is None,
        forall|steps: nat| steps < 5 - speed.rank() ==> longer_by(Some(speed), steps) is Some,
{
    reveal_with_fuel(longer_by, 6);
    assert forall|steps: nat| steps < 5 - speed.rank() implies longer_by(
        Some(speed),
        steps,
    ) is Some by {
        assert(steps == 0 || steps == 1 || steps == 2 || steps == 3 || steps == 4);
    }
}

/// Stepping towards shorter ends: from any speed the ladder runs out
/// after as many steps as there are rungs below it, and one more.
pub proof fn shorter_runs_out(speed: SeekSpeed)
    ensures
        shorter_by(Some(speed), (speed.rank() + 1) as nat) is None,
        forall|steps: nat| steps <= speed.rank() ==> shorter_by(Some(speed), steps) is Some,
{
    reveal_with_fuel(shorter_by, 6);
    assert forall|steps: nat| steps <= speed.rank() implies shorter_by(
        Some(speed),
        steps,
    ) is Some by {
        assert(steps == 0 || steps == 1 || steps == 2 || steps == 3 || steps == 4);
    }
}

/// A step towards longer and a step towards shorter undo each other
/// wherever the first of them can be taken. Only the ends of the ladder
/// have no step outwards.
pub proof fn longer_and_shorter_are_inverse(speed: SeekSpeed)
    ensures
        speed.next_longer() matches Some(longer) ==> longer.next_shorter() == Some(speed),
        speed.next_shorter() matches Some(shorter) ==> shorter.next_longer() == Some(speed),
        speed.next_longer() is None <==> speed == SeekSpeed::TenMinutes,
        speed.next_shorter() is None <==> speed == SeekSpeed::Second,
{
}

} // verus!

use vstd::prelude::*;

verus! {

/// Frames in one second of simulation time.
pub const FRAMES_PER_SECOND: u16 = 60;

/// The round clock: a countdown in frames, or no limit at all.
#[derive(Debug, Clone, Copy, PartialEq, Eq, Structural)]
pub enum Timer {
    Limited(u16),
    Unlimited,
}

/// Whole seconds needed to cover `frames` frames, rounding up.
pub open spec fn seconds_of(frames: nat) -> nat {
    if frames % 60 == 0 {
        frames / 60
    } else {
        frames / 60 + 1
    }
}

impl Timer {
    /// The clock one frame later.
    pub open spec fn stepped(self) -> Timer {
        match self {
            Timer::Limited(t) => Timer::Limited(if t == 0 { 0 } else { (t - 1) as u16 }),
            Timer::Unlimited => Timer::Unlimited,
        }
    }

    /// Advances the clock by one frame. A limited clock counts down and stays
    /// at zero once there; an unlimited one never changes.
    pub fn step(self) -> (r: Self)
        ensures
            r == self.stepped(),
    {
        match self {
            Timer::Limited(time) => Timer::Limited(time.saturating_sub(1)),
            Timer::Unlimited => self,
        }
    }

    /// The remaining time in whole seconds, rounded up; zero when unlimited.
    pub fn seconds(self) -> (r: u16)
        ensures
            r == (match self {
                Timer::Limited(t) => seconds_of(t as nat),
                Timer::Unlimited => 0,
            }),
    {
        match self {
            Timer::Limited(time) => {
                let div = time / FRAMES_PER_SECOND;
                let rem = time % FRAMES_PER_SECOND;
                if rem > 0 {
                    div + 1
                } else {
                    div
                }
            },
            Timer::Unlimited => 0,
        }
    }

    /// Whether a limited clock has run out.
    pub fn is_over(self) -> (r: bool)
        ensures
            r <==> self == Timer::Limited(0),
    {
        match self {
            Timer::Limited(time) => time == 0,
            Timer::Unlimited => false,
        }
    }
}

/// `seconds_of` rounds up: the fewest whole seconds that cover the frames.
pub proof fn lemma_seconds_round_up(frames: nat)
    ensures
        seconds_of(frames) * 60 >= frames,
        frames > 0 ==> (seconds_of(frames) - 1) * 60 < frames,
        frames == 0 ==> seconds_of(frames) == 0,
{
}

} // verus!

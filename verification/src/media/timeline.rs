use vstd::prelude::*;

verus! {

/// The longest span a `std::time::Duration` holds, in nanoseconds.
pub const MAX_DURATION_NANOS: u128 = 18446744073709551615999999999;

/// The bits of the playback rate 1.0 as an IEEE-754 double.
pub const RATE_ONE_BITS: u64 = 0x3ff0000000000000;

/// Where playback stood when it was last observed. Positions and durations
/// are in nanoseconds; `updated_at` is a monotonic instant in nanoseconds.
/// The playback rate is carried as the bits of its IEEE-754 double: the
/// library never computes with it.
#[derive(Clone, Copy, Debug, PartialEq, Eq, Structural)]
pub struct Timeline {
    pub position: u128,
    pub duration: Option<u128>,
    pub rate_bits: u64,
    pub updated_at: u128,
    pub is_playing: bool,
}

/// `a - b`, or zero where `b > a`.
pub open spec fn saturating_sub(a: u128, b: u128) -> u128 {
    if a >= b {
        (a - b) as u128
    } else {
        0
    }
}

impl Timeline {
    /// The position after playback has advanced by `advanced` nanoseconds
    /// (elapsed time scaled by the rate) since the last observation:
    /// unchanged while not playing, never past the track's end.
    pub open spec fn position_after(self, advanced: u128) -> int {
        if !self.is_playing {
            self.position as int
        } else {
            let current = self.position + advanced;
            match self.duration {
                Some(d) => if current <= d {
                    current
                } else {
                    d as int
                },
                None => current,
            }
        }
    }

    /// A timeline observed at `updated_at`, with a rate that the caller
    /// has already made positive.
    pub fn new(
        position: u128,
        duration: Option<u128>,
        rate_bits: u64,
        is_playing: bool,
        updated_at: u128,
    ) -> (r: Self)
        ensures
            r == (Timeline { position, duration, rate_bits, updated_at, is_playing }),
    {
        Timeline { position, duration, rate_bits, updated_at, is_playing }
    }

    /// The current position, given how far playback has advanced since the
    /// last observation.
    pub fn current_position(&self, advanced: u128) -> (r: u128)
        requires
            self.is_playing ==> self.position + advanced <= MAX_DURATION_NANOS,
        ensures
            r == self.position_after(advanced),
    {
        if !self.is_playing {
            return self.position;
        }
        let current = self.position + advanced;
        match self.duration {
            Some(d) => if current <= d {
                current
            } else {
                d
            },
            None => current,
        }
    }

    /// What is left of the track, where its length is known.
    pub fn remaining(&self, advanced: u128) -> (r: Option<u128>)
        requires
            self.is_playing ==> self.position + advanced <= MAX_DURATION_NANOS,
        ensures
            r == (match self.duration {
                Some(d) => Some(saturating_sub(d, self.position_after(advanced) as u128)),
                None => None,
            }),
    {
        match self.duration {
            Some(d) => {
                let p = self.current_position(advanced);
                Some(if d >= p {
                    d - p
                } else {
                    0
                })
            },
            None => None,
        }
    }
}


/// While playing, the current position never passes the end of a track of
/// known length, and what remains never exceeds that length.
pub proof fn law_position_within_track(t: Timeline, advanced: u128)
    requires
        t.is_playing,
        t.duration is Some,
    ensures
        t.position_after(advanced) <= t.duration->0,
        saturating_sub(t.duration->0, t.position_after(advanced) as u128) <= t.duration->0,
{
}

} // verus!

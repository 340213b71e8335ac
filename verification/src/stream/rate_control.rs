use vstd::prelude::*;

verus! {

/// The bitrate one step down: ten percent less, rounded down.
pub open spec fn stepped_down(b: u32) -> int {
    b * 9 / 10
}

/// The bitrate one step up: ten percent more, rounded down, and no more than a
/// `u32` holds.
pub open spec fn stepped_up(b: u32) -> int {
    let up = b * 11 / 10;
    if up > u32::MAX {
        u32::MAX as int
    } else {
        up
    }
}

/// The bitrate after `decrease`: one step down, but not below `min`.
pub open spec fn decreased(b: u32, min: u32) -> int {
    if stepped_down(b) < min {
        min as int
    } else {
        stepped_down(b)
    }
}

/// The bitrate after `increase`: one step up, but not above `max`.
pub open spec fn increased(b: u32, max: u32) -> int {
    if stepped_up(b) > max {
        max as int
    } else {
        stepped_up(b)
    }
}

/// Adaptive bitrate controller: moves the bitrate in ten percent steps and
/// bounds it by a minimum (going down) and a maximum (going up).
pub struct RateController {
    min_bitrate: u32,
    max_bitrate: u32,
    current_bitrate: u32,
}

impl RateController {
    pub closed spec fn min_spec(&self) -> u32 {
        self.min_bitrate
    }

    pub closed spec fn max_spec(&self) -> u32 {
        self.max_bitrate
    }

    pub closed spec fn bitrate_spec(&self) -> u32 {
        self.current_bitrate
    }

    pub fn new(min_bitrate: u32, max_bitrate: u32, initial_bitrate: u32) -> (r: Self)
        ensures
            r.min_spec() == min_bitrate,
            r.max_spec() == max_bitrate,
            r.bitrate_spec() == initial_bitrate,
    {
        RateController { min_bitrate, max_bitrate, current_bitrate: initial_bitrate }
    }

    /// Called when encoding is too slow: one step down, not below the minimum.
    pub fn decrease(&mut self)
        ensures
            final(self).min_spec() == old(self).min_spec(),
            final(self).max_spec() == old(self).max_spec(),
            final(self).bitrate_spec() == decreased(old(self).bitrate_spec(), old(self).min_spec()),
    {
        let b = ((self.current_bitrate as u64) * 9 / 10) as u32;
        self.current_bitrate = if b < self.min_bitrate {
            self.min_bitrate
        } else {
            b
        };
    }

    /// Called when encoding is fast enough: one step up, not above the maximum.
    pub fn increase(&mut self)
        ensures
            final(self).min_spec() == old(self).min_spec(),
            final(self).max_spec() == old(self).max_spec(),
            final(self).bitrate_spec() == increased(old(self).bitrate_spec(), old(self).max_spec()),
    {
        let up = (self.current_bitrate as u64) * 11 / 10;
        let b: u32 = if up > 0xffff_ffffu64 {
            0xffff_ffffu32
        } else {
            up as u32
        };
        self.current_bitrate = if b > self.max_bitrate {
            self.max_bitrate
        } else {
            b
        };
    }

    pub fn bitrate(&self) -> (b: u32)
        ensures
            b == self.bitrate_spec(),
    {
        self.current_bitrate
    }
}

/// A decrease never takes the bitrate below the minimum, and never raises it
/// when it already was at or above the minimum.
pub proof fn lemma_decrease_bounds(b: u32, min: u32)
    ensures
        decreased(b, min) >= min,
        b >= min ==> decreased(b, min) <= b,
{
}

/// An increase never takes the bitrate above the maximum, and never lowers it
/// when it was at or below the maximum.
pub proof fn lemma_increase_bounds(b: u32, max: u32)
    ensures
        increased(b, max) <= max,
        b <= max ==> increased(b, max) >= b,
{
}

/// Once at the minimum, decreasing stays there; once at the maximum,
/// increasing stays there.
pub proof fn lemma_bounds_are_fixed_points(min: u32, max: u32)
    ensures
        decreased(min, min) == min,
        increased(max, max) == max,
{
}

/// A bitrate within `[min, max]` stays within it whatever sequence of
/// decreases and increases follows: each step keeps it there.
pub proof fn lemma_bitrate_stays_in_range(b: u32, min: u32, max: u32)
    requires
        min <= b <= max,
    ensures
        min <= decreased(b, min) <= max,
        min <= increased(b, max) <= max,
{
}

/// A decrease takes a tenth off the bitrate, rounded down, unless that falls
/// below the minimum, in which case it gives the minimum; an increase adds a
/// tenth, rounded down, unless that passes the maximum (or what a `u32`
/// holds), in which case it gives the maximum (or that limit).
pub proof fn lemma_steps_are_tenths(b: u32, min: u32, max: u32)
    ensures
        decreased(b, min) == if b as int * 9 / 10 >= min {
            b as int * 9 / 10
        } else {
            min as int
        },
        increased(b, max) == if b as int * 11 / 10 > u32::MAX && u32::MAX <= max {
            u32::MAX as int
        } else if b as int * 11 / 10 > max {
            max as int
        } else {
            b as int * 11 / 10
        },
{
}

} // verus!

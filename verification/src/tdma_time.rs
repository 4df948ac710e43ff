//! The TDMA clock: structured time counted in timeslots.
//!
//! A frame has 4 timeslots, a multiframe 18 frames, a hyperframe 60 multiframes,
//! and the hyperframe number wraps after 64. Timeslot, frame and multiframe are
//! counted from 1, the hyperframe from 0.

use vstd::arithmetic::div_mod::lemma_mod_multiples_vanish;
use vstd::prelude::*;

verus! {

pub const TIMESLOTS_PER_FRAME: u32 = 4;

pub const FRAMES_PER_MULTIFRAME: u32 = 18;

pub const MULTIFRAMES_PER_HYPERFRAME: u32 = 60;

pub const HYPERFRAMES: u32 = 64;

/// Timeslots in one multiframe.
pub const TIMESLOTS_PER_MULTIFRAME: u32 = 72;

/// Timeslots in one hyperframe.
pub const TIMESLOTS_PER_HYPERFRAME: u32 = 4320;

/// Timeslots after which the clock shows the same time again.
pub const TIMESLOTS_PER_CYCLE: u32 = 276480;

/// A point on the TDMA clock. The derived order is lexicographic on hyperframe,
/// multiframe, frame, timeslot, which for valid times is the order of `index`.
#[derive(Clone, Copy, Debug, PartialEq, Eq, Structural, PartialOrd, Ord, Hash)]
pub struct TdmaTime {
    /// Hyperframe, 0 to 63.
    pub h: u16,
    /// Multiframe, 1 to 60.
    pub m: u8,
    /// Frame, 1 to 18.
    pub f: u8,
    /// Timeslot, 1 to 4.
    pub t: u8,
}

impl TdmaTime {
    /// Every field lies in its range.
    pub open spec fn is_valid(self) -> bool {
        &&& self.h <= 63
        &&& 1 <= self.m <= 60
        &&& 1 <= self.f <= 18
        &&& 1 <= self.t <= 4
    }

    /// The number of timeslots from the start of the cycle, (0, 1, 1, 1), to `self`.
    pub open spec fn index(self) -> int {
        ((self.h * 60 + (self.m - 1)) * 18 + (self.f - 1)) * 4 + (self.t - 1)
    }

    /// The time that lies `n` timeslots after the start of the cycle.
    pub open spec fn at_index(n: int) -> TdmaTime {
        TdmaTime {
            h: (n / 4320) as u16,
            m: ((n / 72) % 60 + 1) as u8,
            f: ((n / 4) % 18 + 1) as u8,
            t: (n % 4 + 1) as u8,
        }
    }

    /// `self` moved by `k` timeslots, wrapping at the end of the cycle.
    pub open spec fn plus(self, k: int) -> TdmaTime {
        TdmaTime::at_index((self.index() + k) % (TIMESLOTS_PER_CYCLE as int))
    }

    /// The number of timeslots from `earlier` forward to `self`, within one cycle.
    pub open spec fn since(self, earlier: TdmaTime) -> int {
        (self.index() - earlier.index()) % (TIMESLOTS_PER_CYCLE as int)
    }

    /// Valid times and the indices below `TIMESLOTS_PER_CYCLE` correspond one to one.
    pub proof fn lemma_index_at_index(n: int)
        requires
            0 <= n < TIMESLOTS_PER_CYCLE,
        ensures
            TdmaTime::at_index(n).is_valid(),
            TdmaTime::at_index(n).index() == n,
    {
    }

    pub proof fn lemma_at_index_index(self)
        requires
            self.is_valid(),
        ensures
            0 <= self.index() < TIMESLOTS_PER_CYCLE,
            TdmaTime::at_index(self.index()) == self,
    {
    }

    /// The order of the indices is the lexicographic order of the fields.
    pub proof fn lemma_index_order(self, other: TdmaTime)
        requires
            self.is_valid(),
            other.is_valid(),
        ensures
            self.index() < other.index() <==> (self.h < other.h || (self.h == other.h && (self.m
                < other.m || (self.m == other.m && (self.f < other.f || (self.f == other.f
                && self.t < other.t)))))),
            self.index() == other.index() <==> self == other,
    {
    }

    /// Adding timeslots always gives a valid time, and adding in two steps is
    /// adding the sum.
    pub proof fn lemma_plus(self, a: int, b: int)
        requires
            self.is_valid(),
        ensures
            self.plus(a).is_valid(),
            self.plus(0) == self,
            self.plus(a).plus(b) == self.plus(a + b),
    {
        let c = TIMESLOTS_PER_CYCLE as int;
        let i = self.index();
        TdmaTime::lemma_index_at_index((i + a) % c);
        TdmaTime::lemma_index_at_index((i + a + b) % c);
        self.lemma_at_index_index();
        // ((i + a) % c + b) % c == (i + a + b) % c
        let q = (i + a) / c;
        assert(i + a == c * q + (i + a) % c) by {
            vstd::arithmetic::div_mod::lemma_fundamental_div_mod(i + a, c);
        }
        lemma_mod_multiples_vanish(q, (i + a) % c + b, c);
    }

    #[verifier::when_used_as_spec(is_valid)]
    pub fn check_valid(self) -> (b: bool)
        ensures
            b == self.is_valid(),
    {
        self.h <= 63 && 1 <= self.m && self.m <= 60 && 1 <= self.f && self.f <= 18 && 1 <= self.t
            && self.t <= 4
    }

    /// The number of timeslots from the start of the cycle to `self`.
    pub fn to_int(self) -> (n: u32)
        requires
            self.is_valid(),
        ensures
            n == self.index(),
            n < TIMESLOTS_PER_CYCLE,
    {
        ((self.h as u32 * 60 + (self.m as u32 - 1)) * 18 + (self.f as u32 - 1)) * 4 + (self.t as u32
            - 1)
    }

    /// The time that lies `n` timeslots after the start of the cycle.
    pub fn from_int(n: u32) -> (time: TdmaTime)
        requires
            n < TIMESLOTS_PER_CYCLE,
        ensures
            time == TdmaTime::at_index(n as int),
            time.is_valid(),
            time.index() == n,
    {
        TdmaTime {
            h: (n / 4320) as u16,
            m: ((n / 72) % 60 + 1) as u8,
            f: ((n / 4) % 18 + 1) as u8,
            t: (n % 4 + 1) as u8,
        }
    }

    /// `self` moved by `k` timeslots, forwards or backwards, the hyperframe
    /// wrapping modulo 64.
    pub fn add_timeslots(self, k: i32) -> (time: TdmaTime)
        requires
            self.is_valid(),
        ensures
            time == self.plus(k as int),
            time.is_valid(),
            time.index() == (self.index() + k) % (TIMESLOTS_PER_CYCLE as int),
    {
        // 7768 cycles are more than 2^31 timeslots: adding them makes the sum
        // non-negative and leaves the remainder as it is.
        let lifted: i64 = self.to_int() as i64 + k as i64 + 7768 * 276480;
        let n: u32 = (lifted % 276480) as u32;
        proof {
            lemma_mod_multiples_vanish(7768, self.index() + k, 276480);
            TdmaTime::lemma_index_at_index(n as int);
        }
        TdmaTime::from_int(n)
    }

    /// The number of timeslots from `earlier` forward to `self`, within one cycle.
    pub fn diff(self, earlier: TdmaTime) -> (d: u32)
        requires
            self.is_valid(),
            earlier.is_valid(),
        ensures
            d == self.since(earlier),
            d < TIMESLOTS_PER_CYCLE,
            earlier.plus(d as int) == self,
    {
        let a = self.to_int();
        let b = earlier.to_int();
        let d = if a >= b {
            a - b
        } else {
            a + 276480 - b
        };
        proof {
            if a < b {
                lemma_mod_multiples_vanish(1, a - b, 276480);
            }
            self.lemma_at_index_index();
        }
        d
    }

    /// Whether `self` comes before `other` in the order of the clock: the
    /// lexicographic order on hyperframe, multiframe, frame and timeslot, which
    /// for valid times is the order of their indices.
    pub fn precedes(self, other: TdmaTime) -> (before: bool)
        ensures
            before <==> (self.h < other.h || (self.h == other.h && (self.m < other.m || (self.m
                == other.m && (self.f < other.f || (self.f == other.f && self.t < other.t)))))),
            self.is_valid() && other.is_valid() ==> (before <==> self.index() < other.index()),
    {
        proof {
            if self.is_valid() && other.is_valid() {
                self.lemma_index_order(other);
            }
        }
        if self.h != other.h {
            self.h < other.h
        } else if self.m != other.m {
            self.m < other.m
        } else if self.f != other.f {
            self.f < other.f
        } else {
            self.t < other.t
        }
    }

    /// The time one timeslot later.
    pub fn next(self) -> (time: TdmaTime)
        requires
            self.is_valid(),
        ensures
            time == self.plus(1),
            time.is_valid(),
    {
        self.add_timeslots(1)
    }
}

impl Default for TdmaTime {
    /// The start of the cycle: hyperframe 0, multiframe 1, frame 1, timeslot 1.
    fn default() -> (time: TdmaTime)
        ensures
            time == (TdmaTime { h: 0, m: 1, f: 1, t: 1 }),
            time.is_valid(),
            time.index() == 0,
    {
        TdmaTime { h: 0, m: 1, f: 1, t: 1 }
    }
}

} // verus!

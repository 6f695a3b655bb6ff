//! The leaky bucket that paces the telemetry reports. The first report
//! fills the bucket for five hours; one token (an hour) is taken every
//! hour, two are given back for each report sent, and the bucket holds at
//! most its capacity (five days, 120 hours). Reporting stops when the
//! bucket is empty.
use vstd::prelude::*;

verus! {

/// The capacity of the bucket: five days, in hours.
pub const CAPACITY_HOURS: i64 = 120;

/// The tokens that the first report puts in the bucket.
pub const FIRST_REPORT_HOURS: i32 = 5;

/// The tokens that each later report gives back.
pub const REPORT_HOURS: i32 = 2;

/// The tokens taken every hour.
pub const HOURLY_COST: i32 = 1;

/// The tokens after `n` were given to a bucket with `tokens` of `capacity`.
pub open spec fn filled(tokens: int, capacity: int, n: int) -> int {
    if tokens + n > capacity {
        capacity
    } else {
        tokens + n
    }
}

/// The tokens after `n` were taken from a bucket with `tokens`.
pub open spec fn drained(tokens: int, n: int) -> int {
    if tokens - n < 0 {
        0
    } else {
        tokens - n
    }
}

pub struct Bucket {
    tokens: i64,
    capacity: i64,
}

impl View for Bucket {
    /// (tokens, capacity)
    type V = (int, int);

    closed spec fn view(&self) -> (int, int) {
        (self.tokens as int, self.capacity as int)
    }
}

impl Bucket {
    /// An empty bucket that holds at most `capacity` tokens.
    pub fn new(capacity: i64) -> (b: Self)
        ensures
            b@ == (0int, capacity as int),
    {
        Bucket { capacity, tokens: 0 }
    }

    /// Gives `n` tokens: the bucket fills up to its capacity, no further.
    pub fn add(&mut self, n: i32)
        requires
            i64::MIN <= old(self)@.0 + n <= i64::MAX,
        ensures
            final(self)@ == (filled(old(self)@.0, old(self)@.1, n as int), old(self)@.1),
    {
        let sum = self.tokens + n as i64;
        self.tokens = if sum > self.capacity {
            self.capacity
        } else {
            sum
        };
    }

    /// Takes `n` tokens: the bucket empties down to zero, no further.
    pub fn remove(&mut self, n: i32)
        requires
            i64::MIN <= old(self)@.0 - n <= i64::MAX,
        ensures
            final(self)@ == (drained(old(self)@.0, n as int), old(self)@.1),
    {
        let diff = self.tokens - n as i64;
        self.tokens = if diff < 0 {
            0
        } else {
            diff
        };
    }

    pub fn is_empty(&self) -> (b: bool)
        ensures
            b == (self@.0 <= 0),
    {
        self.tokens <= 0
    }
}

/// Whatever happens, a bucket that starts with tokens between zero and its
/// capacity keeps them there: adding never overfills it, removing never
/// takes it below zero.
pub proof fn law_bucket_stays_in_bounds(tokens: int, capacity: int, n: int)
    requires
        0 <= tokens <= capacity,
        n >= 0,
    ensures
        0 <= filled(tokens, capacity, n) <= capacity,
        0 <= drained(tokens, n) <= capacity,
{
}

} // verus!

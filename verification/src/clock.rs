//! Points in time and the deadline arithmetic of the heartbeat timer.
use vstd::arithmetic::div_mod::lemma_fundamental_div_mod;
use vstd::arithmetic::div_mod::lemma_fundamental_div_mod_converse;
use vstd::arithmetic::div_mod::lemma_mod_bound;
use vstd::prelude::*;

verus! {

/// Nanoseconds in one second.
pub const NSEC_PER_SEC: i32 = 1_000_000_000;

/// Nanoseconds in one millisecond.
pub const NSEC_PER_MSEC: i32 = 1_000_000;

/// A point in time: whole seconds since the epoch and the nanoseconds past
/// that second.
#[derive(Clone, Copy, Debug, PartialEq, Eq, Structural)]
pub struct Timestamp {
    pub sec: i64,
    pub nsec: i32,
}

/// The number of milliseconds a heartbeat interval of `interval` stands for
/// once it is read as a signed quantity: itself while it fits, and the
/// negative number with the same 64 bits beyond that.
pub open spec fn interval_millis_spec(interval: u64) -> i64 {
    if interval <= i64::MAX {
        interval as i64
    } else {
        (interval - 0x1_0000_0000_0000_0000) as i64
    }
}

/// Reads a heartbeat interval in milliseconds as a signed quantity.
#[verifier::when_used_as_spec(interval_millis_spec)]
pub fn interval_millis(interval: u64) -> (millis: i64)
    ensures
        millis == interval_millis_spec(interval),
        interval <= i64::MAX ==> millis == interval,
        interval > i64::MAX ==> millis == interval - 0x1_0000_0000_0000_0000,
{
    if interval <= 0x7fff_ffff_ffff_ffff {
        interval as i64
    } else {
        let low: u64 = interval - 0x8000_0000_0000_0000;
        (low as i64) + i64::MIN
    }
}

impl Timestamp {
    /// The nanoseconds lie within one second.
    pub open spec fn wf(self) -> bool {
        0 <= self.nsec < NSEC_PER_SEC
    }

    /// Nanoseconds since the epoch.
    pub open spec fn nanos(self) -> int {
        self.sec * NSEC_PER_SEC + self.nsec
    }

    /// `self` is at or after `deadline`, seconds compared first.
    pub open spec fn reached_spec(&self, deadline: &Timestamp) -> bool {
        self.sec > deadline.sec || (self.sec == deadline.sec && self.nsec >= deadline.nsec)
    }

    /// The point in time `millis` milliseconds after `self` is one whose
    /// seconds can be counted in 64 bits.
    pub open spec fn can_add_millis_spec(&self, millis: i64) -> bool {
        i64::MIN <= (self.nanos() + millis * NSEC_PER_MSEC) / (NSEC_PER_SEC as int) <= i64::MAX
    }

    /// The point in time `millis` milliseconds after `self`, with its
    /// nanoseconds within one second.
    pub open spec fn plus_millis(self, millis: i64) -> Timestamp {
        let total = self.nanos() + millis * NSEC_PER_MSEC;
        Timestamp {
            sec: (total / (NSEC_PER_SEC as int)) as i64,
            nsec: (total % (NSEC_PER_SEC as int)) as i32,
        }
    }

    /// A timestamp of `sec` seconds and `nsec` nanoseconds, if `nsec` lies
    /// within one second.
    pub fn new(sec: i64, nsec: i32) -> (r: Option<Timestamp>)
        ensures
            r == if 0 <= nsec < NSEC_PER_SEC {
                Some(Timestamp { sec, nsec })
            } else {
                None
            },
    {
        if 0 <= nsec && nsec < NSEC_PER_SEC {
            Some(Timestamp { sec, nsec })
        } else {
            None
        }
    }

    /// Whether `self` is at or after `deadline`.
    #[verifier::when_used_as_spec(reached_spec)]
    pub fn reached(&self, deadline: &Timestamp) -> (r: bool)
        ensures
            r == self.reached_spec(deadline),
    {
        self.sec > deadline.sec || (self.sec == deadline.sec && self.nsec >= deadline.nsec)
    }

    /// Whether `self` can be moved by `millis` milliseconds.
    #[verifier::when_used_as_spec(can_add_millis_spec)]
    pub fn can_add_millis(&self, millis: i64) -> (r: bool)
        ensures
            r == self.can_add_millis_spec(millis),
    {
        let start: i128 = (self.sec as i128) * 1_000_000_000 + (self.nsec as i128);
        let total: i128 = start + (millis as i128) * 1_000_000;
        let quotient: i128 = total / 1_000_000_000;
        let whole: i128 = if total % 1_000_000_000 < 0 {
            quotient - 1
        } else {
            quotient
        };
        -0x8000_0000_0000_0000 <= whole && whole <= 0x7fff_ffff_ffff_ffff
    }

    /// `self` moved by `millis` milliseconds, backwards where `millis` is
    /// negative.
    pub fn add_millis(self, millis: i64) -> (r: Timestamp)
        requires
            self.wf(),
            self.can_add_millis(millis),
        ensures
            r == self.plus_millis(millis),
            r.wf(),
            r.nanos() == self.nanos() + millis * NSEC_PER_MSEC,
    {
        let (sec, nsec) = timespec_add_millis(self.sec, self.nsec, millis);
        proof {
            lemma_fundamental_div_mod_converse(
                self.nanos() + millis * NSEC_PER_MSEC,
                NSEC_PER_SEC as int,
                sec as int,
                nsec as int,
            );
        }
        Timestamp { sec, nsec }
    }
}

/// `time::Timespec` plus `time::Duration::milliseconds`: the point in time
/// `millis` milliseconds after `sec` seconds and `nsec` nanoseconds, again
/// with its nanoseconds within one second. The outside code rejects
/// nanoseconds that are not within one second, and its sum is exact as long
/// as the seconds of the result fit in 64 bits: the seconds it passes through
/// on the way lie between those it starts from and those it ends at.
#[verifier::external_body]
fn timespec_add_millis(sec: i64, nsec: i32, millis: i64) -> (r: (i64, i32))
    requires
        0 <= nsec < NSEC_PER_SEC,
        i64::MIN <= (sec * NSEC_PER_SEC + nsec + millis * NSEC_PER_MSEC) / (NSEC_PER_SEC as int)
            <= i64::MAX,
    ensures
        0 <= r.1 < NSEC_PER_SEC,
        r.0 * NSEC_PER_SEC + r.1 == sec * NSEC_PER_SEC + nsec + millis * NSEC_PER_MSEC,
{
    let moved = time::Timespec::new(sec, nsec) + time::Duration::milliseconds(millis);
    (moved.sec, moved.nsec)
}

/// Comparing two well-formed timestamps is comparing their nanoseconds
/// since the epoch.
pub proof fn lemma_reached_is_nanos_order(now: Timestamp, deadline: Timestamp)
    requires
        now.wf(),
        deadline.wf(),
    ensures
        now.reached(&deadline) <==> now.nanos() >= deadline.nanos(),
{
    assert(now.sec > deadline.sec ==> now.sec * NSEC_PER_SEC >= (deadline.sec + 1) * NSEC_PER_SEC)
        by (nonlinear_arith);
    assert(now.sec < deadline.sec ==> (now.sec + 1) * NSEC_PER_SEC <= deadline.sec * NSEC_PER_SEC)
        by (nonlinear_arith);
}

/// Where `can_add_millis` holds, `plus_millis` is well formed and lies
/// exactly `millis` milliseconds after the timestamp it started from.
pub proof fn lemma_plus_millis(start: Timestamp, millis: i64)
    requires
        start.can_add_millis(millis),
    ensures
        start.plus_millis(millis).wf(),
        start.plus_millis(millis).nanos() == start.nanos() + millis * NSEC_PER_MSEC,
{
    let total = start.nanos() + millis * NSEC_PER_MSEC;
    lemma_fundamental_div_mod(total, NSEC_PER_SEC as int);
    lemma_mod_bound(total, NSEC_PER_SEC as int);
}

} // verus!

use vstd::prelude::*;

verus! {

/// The time elapsed since the UNIX epoch on the system clock (`SystemTime::elapsed` of
/// `UNIX_EPOCH`), in whole seconds and the microseconds of the second begun. `None` when the
/// clock stands before the epoch. Nothing is stated of the value but that the microseconds stay
/// under a million: it is the time of the call.
#[verifier::external_body]
fn unix_time_now() -> (res: Option<(u64, u32)>)
    ensures
        res matches Some(t) ==> t.1 < 1_000_000,
{
    match std::time::UNIX_EPOCH.elapsed() {
        Ok(elapsed) => Some((elapsed.as_secs(), elapsed.subsec_micros())),
        Err(_) => None,
    }
}

/// An icinga2 timestamp: seconds since the UNIX epoch and microseconds. icinga2 writes it as a
/// floating point number of seconds; held as two integers, timestamps compare exactly.
#[derive(Copy, Clone, Debug, Eq, PartialEq, Ord, PartialOrd)]
pub struct IcingaTimestamp {
    sec: u64,
    us: u32,
}

impl IcingaTimestamp {
    /// The whole seconds.
    pub closed spec fn spec_sec(self) -> u64 {
        self.sec
    }

    /// The microseconds.
    pub closed spec fn spec_us(self) -> u32 {
        self.us
    }

    /// The current time. A system clock that stands before the UNIX epoch gives the null
    /// timestamp.
    pub fn now() -> (res: IcingaTimestamp)
        ensures
            res.spec_us() < 1_000_000,
    {
        match unix_time_now() {
            Some((sec, us)) => IcingaTimestamp { sec, us },
            None => IcingaTimestamp { sec: 0, us: 0 },
        }
    }

    /// The timestamp of the UNIX epoch.
    pub fn null() -> (res: IcingaTimestamp)
        ensures
            res.spec_sec() == 0,
            res.spec_us() == 0,
    {
        IcingaTimestamp { sec: 0, us: 0 }
    }

    /// The timestamp of `sec` seconds and `us` microseconds.
    pub fn from_parts(sec: u64, us: u32) -> (res: IcingaTimestamp)
        ensures
            res.spec_sec() == sec,
            res.spec_us() == us,
    {
        IcingaTimestamp { sec, us }
    }

    /// The whole seconds.
    pub fn seconds(&self) -> (res: u64)
        ensures
            res == self.spec_sec(),
    {
        self.sec
    }

    /// The microseconds.
    pub fn micros(&self) -> (res: u32)
        ensures
            res == self.spec_us(),
    {
        self.us
    }

    /// Whether `self` is not earlier than `other`: seconds first, then microseconds.
    pub fn is_at_least(&self, other: &IcingaTimestamp) -> (res: bool)
        ensures
            res == ts_le(*other, *self),
    {
        self.sec > other.sec || (self.sec == other.sec && self.us >= other.us)
    }
}

/// Whether `a` is not later than `b`, in the order of the seconds and then of the microseconds.
pub open spec fn ts_le(a: IcingaTimestamp, b: IcingaTimestamp) -> bool {
    a.spec_sec() < b.spec_sec() || (a.spec_sec() == b.spec_sec() && a.spec_us() <= b.spec_us())
}

/// Timestamps compare exactly: `ts_le` is a total order, reflexive, antisymmetric, transitive
/// and total, so two timestamps are either equal or one is strictly earlier.
pub proof fn law_timestamp_order_is_total(a: IcingaTimestamp, b: IcingaTimestamp, c: IcingaTimestamp)
    ensures
        ts_le(a, a),
        ts_le(a, b) && ts_le(b, a) ==> a == b,
        ts_le(a, b) && ts_le(b, c) ==> ts_le(a, c),
        ts_le(a, b) || ts_le(b, a),
{
}

} // verus!

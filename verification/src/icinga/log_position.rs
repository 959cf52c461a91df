use vstd::prelude::*;
use crate::icinga::timestamp::IcingaTimestamp;

verus! {

/// The parameter of the `log::SetLogPosition` message: the timestamp of the last message the
/// remote end has processed. Pending messages sent before it can be dropped.
#[derive(Copy, Clone, Debug, Eq, PartialEq, Ord, PartialOrd)]
pub struct LogPosition {
    log_position: IcingaTimestamp,
}

impl LogPosition {
    /// The position at the current time.
    pub fn now() -> (res: LogPosition)
        ensures
            res.spec_ts().spec_us() < 1_000_000,
    {
        LogPosition { log_position: IcingaTimestamp::now() }
    }

    /// The position at `ts`.
    pub fn at(ts: IcingaTimestamp) -> (res: LogPosition)
        ensures
            res.spec_ts() == ts,
    {
        LogPosition { log_position: ts }
    }

    /// The timestamp of the position.
    pub closed spec fn spec_ts(self) -> IcingaTimestamp {
        self.log_position
    }

    /// The timestamp of the position.
    pub fn ts(&self) -> (res: IcingaTimestamp)
        ensures
            res == self.spec_ts(),
    {
        self.log_position
    }
}

} // verus!

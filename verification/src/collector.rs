use vstd::prelude::*;

verus! {

/// A line that rsyslog hands to the collector.
#[derive(Clone, Debug, PartialEq, Eq)]
pub struct RsyslogMessage(pub String);

} // verus!

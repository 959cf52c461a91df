use vstd::prelude::*;
use crate::icinga::timestamp::IcingaTimestamp;
use crate::text::{eq_ignore_ascii_case, equals_ignore_ascii_case, push_char, push_str};
use crate::value::{FloatBits, ValueMap};

verus! {

/// The parameters of an `event::CheckResult` message: the check result of a host, or of a
/// service of a host.
#[derive(Debug, PartialEq)]
pub enum CheckResultParams {
    Host { host: String, cr: HostCheckResult },
    Service { host: String, service: String, cr: ServiceCheckResult },
}

/// The name of the object that `params` is the check result of: the host, or
/// `<host>!<service>`.
pub open spec fn check_result_name(params: CheckResultParams) -> Seq<char> {
    match params {
        CheckResultParams::Host { host, .. } => host@,
        CheckResultParams::Service { host, service, .. } => host@ + seq!['!'] + service@,
    }
}

impl CheckResultParams {
    /// The name of the checked object: the host, or `<host>!<service>`.
    pub fn name(&self) -> (res: String)
        ensures
            res@ == check_result_name(*self),
    {
        match self {
            CheckResultParams::Host { host, .. } => host.clone(),
            CheckResultParams::Service { host, service, .. } => {
                let mut res = String::new();
                push_str(&mut res, host.as_str());
                push_char(&mut res, '!');
                push_str(&mut res, service.as_str());
                res
            },
        }
    }

    /// The check result `cr` of the host `host`.
    pub fn for_host(host: String, cr: HostCheckResult) -> (res: CheckResultParams)
        ensures
            res == (CheckResultParams::Host { host, cr }),
    {
        CheckResultParams::Host { host, cr }
    }

    /// The check result `cr` of the service `service` of the host `host`.
    pub fn for_service(host: String, service: String, cr: ServiceCheckResult) -> (res:
        CheckResultParams)
        ensures
            res == (CheckResultParams::Service { host, service, cr }),
    {
        CheckResultParams::Service { host, service, cr }
    }
}

/// The check result of a host: its state and the data every check result carries.
#[derive(Debug, PartialEq)]
pub struct HostCheckResult {
    pub state: HostState,
    pub cr: Box<SharedCheckResult>,
}

/// The state of a host.
#[derive(Clone, Copy, Debug, PartialEq, Eq)]
pub enum HostState {
    UP,
    DOWN,
}

/// The number that stands for a host state.
pub open spec fn host_state_code(state: HostState) -> u32 {
    match state {
        HostState::UP => 0,
        HostState::DOWN => 1,
    }
}

impl HostState {
    /// The number that stands for the state: 0 for up, 1 for down.
    pub fn code(&self) -> (res: u32)
        ensures
            res == host_state_code(*self),
    {
        match self {
            HostState::UP => 0,
            HostState::DOWN => 1,
        }
    }

    /// The state a number stands for: 0 is up, any other number down.
    pub fn from_code(code: u64) -> (res: HostState)
        ensures
            res == (if code == 0 {
                HostState::UP
            } else {
                HostState::DOWN
            }),
    {
        if code == 0 {
            HostState::UP
        } else {
            HostState::DOWN
        }
    }

    /// The state a name stands for, "UP" or "DOWN" in any case of letters.
    pub fn from_name(name: &str) -> (res: Option<HostState>)
        ensures
            res == (if eq_ignore_ascii_case(name@, "UP"@) {
                Some(HostState::UP)
            } else if eq_ignore_ascii_case(name@, "DOWN"@) {
                Some(HostState::DOWN)
            } else {
                None
            }),
    {
        if equals_ignore_ascii_case(name, "UP") {
            Some(HostState::UP)
        } else if equals_ignore_ascii_case(name, "DOWN") {
            Some(HostState::DOWN)
        } else {
            None
        }
    }
}

/// The check result of a service: its state and the data every check result carries.
#[derive(Debug, PartialEq)]
pub struct ServiceCheckResult {
    pub state: ServiceState,
    pub cr: Box<SharedCheckResult>,
}

/// The state of a service.
#[derive(Clone, Copy, Debug, PartialEq, Eq)]
pub enum ServiceState {
    OK,
    WARNING,
    ERROR,
    UNKNOWN,
}

/// The number that stands for a service state.
pub open spec fn service_state_code(state: ServiceState) -> u32 {
    match state {
        ServiceState::OK => 0,
        ServiceState::WARNING => 1,
        ServiceState::ERROR => 2,
        ServiceState::UNKNOWN => 3,
    }
}

impl ServiceState {
    /// The number that stands for the state: 0 ok, 1 warning, 2 error, 3 unknown.
    pub fn code(&self) -> (res: u32)
        ensures
            res == service_state_code(*self),
    {
        match self {
            ServiceState::OK => 0,
            ServiceState::WARNING => 1,
            ServiceState::ERROR => 2,
            ServiceState::UNKNOWN => 3,
        }
    }

    /// The state a number stands for: 0 ok, 1 warning, 2 error, any other number unknown.
    pub fn from_code(code: u64) -> (res: ServiceState)
        ensures
            res == (if code == 0 {
                ServiceState::OK
            } else if code == 1 {
                ServiceState::WARNING
            } else if code == 2 {
                ServiceState::ERROR
            } else {
                ServiceState::UNKNOWN
            }),
    {
        if code == 0 {
            ServiceState::OK
        } else if code == 1 {
            ServiceState::WARNING
        } else if code == 2 {
            ServiceState::ERROR
        } else {
            ServiceState::UNKNOWN
        }
    }

    /// The state a name stands for: "OK", "WARNING", "ERROR" or "UNKNOWN", in any case of
    /// letters.
    pub fn from_name(name: &str) -> (res: Option<ServiceState>)
        ensures
            res == (if eq_ignore_ascii_case(name@, "OK"@) {
                Some(ServiceState::OK)
            } else if eq_ignore_ascii_case(name@, "WARNING"@) {
                Some(ServiceState::WARNING)
            } else if eq_ignore_ascii_case(name@, "ERROR"@) {
                Some(ServiceState::ERROR)
            } else if eq_ignore_ascii_case(name@, "UNKNOWN"@) {
                Some(ServiceState::UNKNOWN)
            } else {
                None
            }),
    {
        if equals_ignore_ascii_case(name, "OK") {
            Some(ServiceState::OK)
        } else if equals_ignore_ascii_case(name, "WARNING") {
            Some(ServiceState::WARNING)
        } else if equals_ignore_ascii_case(name, "ERROR") {
            Some(ServiceState::ERROR)
        } else if equals_ignore_ascii_case(name, "UNKNOWN") {
            Some(ServiceState::UNKNOWN)
        } else {
            None
        }
    }
}

/// The data every check result carries besides the state: the performance data, and a number
/// of optional values.
#[derive(Debug, PartialEq)]
pub struct SharedCheckResult {
    pub performance_data: Vec<String>,
    pub output: Option<String>,
    pub exit_status: Option<FloatBits>,
    pub check_source: Option<String>,
    pub command: Option<Command>,
    pub execution_start: Option<IcingaTimestamp>,
    pub execution_end: Option<IcingaTimestamp>,
    pub schedule_start: Option<IcingaTimestamp>,
    pub schedule_end: Option<IcingaTimestamp>,
    pub active: Option<bool>,
    pub vars_before: Option<ValueMap>,
    pub vars_after: Option<ValueMap>,
    pub ttl: Option<FloatBits>,
}

impl Default for SharedCheckResult {
    fn default() -> (res: SharedCheckResult)
        ensures
            res.performance_data@.len() == 0,
            res.output is None,
            res.exit_status is None,
            res.check_source is None,
            res.command is None,
            res.execution_start is None,
            res.execution_end is None,
            res.schedule_start is None,
            res.schedule_end is None,
            res.active is None,
            res.vars_before is None,
            res.vars_after is None,
            res.ttl is None,
    {
        SharedCheckResult {
            performance_data: Vec::new(),
            output: None,
            exit_status: None,
            check_source: None,
            command: None,
            execution_start: None,
            execution_end: None,
            schedule_start: None,
            schedule_end: None,
            active: None,
            vars_before: None,
            vars_after: None,
            ttl: None,
        }
    }
}

/// The command of a check: a single command line, or the command and its arguments.
#[derive(Debug, PartialEq)]
pub enum Command {
    String(String),
    Vec(Vec<String>),
}

impl From<String> for Command {
    fn from(command: String) -> (res: Command) {
        Command::String(command)
    }
}

impl vstd::std_specs::convert::FromSpecImpl<String> for Command {
    open spec fn obeys_from_spec() -> bool {
        true
    }

    open spec fn from_spec(command: String) -> Command {
        Command::String(command)
    }
}

impl From<Vec<String>> for Command {
    fn from(command: Vec<String>) -> (res: Command) {
        Command::Vec(command)
    }
}

impl vstd::std_specs::convert::FromSpecImpl<Vec<String>> for Command {
    open spec fn obeys_from_spec() -> bool {
        true
    }

    open spec fn from_spec(command: Vec<String>) -> Command {
        Command::Vec(command)
    }
}

} // verus!

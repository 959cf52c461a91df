use vstd::prelude::*;
use crate::icinga::certification::{RequestCertificate, UpdateCertificate};
use crate::icinga::check_result::CheckResultParams;
use crate::icinga::hello::IcingaHelloParams;
use crate::icinga::log_position::LogPosition;
use crate::icinga::timestamp::IcingaTimestamp;
use crate::icinga::update_object::{DeleteObject, UpdateObjectParams};
use crate::value::str_eq;

verus! {

/// The version of JSON-RPC that icinga2 speaks.
pub const JSON_RPC_VERSION: &'static str = "2.0";

/// The type that every check result declares.
pub const CHECK_RESULT_TYPE: &'static str = "CheckResult";

/// Whether `value` is the constant `expected` that a field must hold, such as the JSON-RPC
/// version of a message.
pub fn is_expected_value(value: &str, expected: &str) -> (res: bool)
    ensures
        res == (value@ == expected@),
{
    str_eq(value, expected)
}

/// A JSON-RPC message of icinga2: a method with its parameters, and an optional timestamp that
/// takes the place of the request id.
#[derive(Debug, PartialEq)]
pub struct JsonRpc {
    pub method: IcingaMethods,
    ts: Option<IcingaTimestamp>,
}

impl JsonRpc {
    /// The method of the message.
    pub closed spec fn spec_method(self) -> IcingaMethods {
        self.method
    }

    /// The timestamp of the message.
    pub closed spec fn spec_timestamp(self) -> Option<IcingaTimestamp> {
        self.ts
    }

    /// A message of the method `method` with no timestamp.
    pub fn from_method(method: IcingaMethods) -> (res: JsonRpc)
        ensures
            res.spec_method() == method,
            res.spec_timestamp() is None,
    {
        JsonRpc { method, ts: None }
    }

    /// A message as it was received, with its timestamp.
    pub fn with_timestamp(method: IcingaMethods, ts: Option<IcingaTimestamp>) -> (res: JsonRpc)
        ensures
            res.spec_method() == method,
            res.spec_timestamp() == ts,
    {
        JsonRpc { method, ts }
    }

    /// The method of the message.
    pub fn method(&self) -> (res: &IcingaMethods)
        ensures
            *res == self.spec_method(),
    {
        &self.method
    }

    /// The method of the message, taken out of it.
    pub fn into_method(self) -> (res: IcingaMethods)
        ensures
            res == self.spec_method(),
    {
        self.method
    }

    /// The timestamp of the message.
    pub fn get_timestamp(&self) -> (res: Option<IcingaTimestamp>)
        ensures
            res == self.spec_timestamp(),
    {
        self.ts
    }
}

/// The icinga2 methods of the JSON-RPC protocol. Those with parameters carry them; those that
/// are received and ignored carry nothing.
#[derive(Debug, PartialEq)]
pub enum IcingaMethods {
    Hello(IcingaHelloParams),
    HeartBeats {},
    CheckResult(CheckResultParams),
    ConfigUpdate {},
    UpdateObject(UpdateObjectParams),
    DeleteObject(DeleteObject),
    RequestCertificate(RequestCertificate),
    UpdateCertificate(UpdateCertificate),
    SetLogPosition(LogPosition),
    SetNextCheck {},
    SetLastCheckStarted {},
    SetSuppressedNotifications {},
    SetSuppressedNotificationTypes {},
    SetNextNotification {},
    SetForceNextCheck {},
    SetForceNextNotification {},
    SetAcknowledgement {},
    ClearAcknowledgement {},
    SendNotifications {},
    NotificationSentUser {},
    NotificationSentToAllUsers {},
    ExecuteCommand {},
    UpdateExecutions {},
    ExecutedCommand {},
}

} // verus!

use vstd::prelude::*;
use crate::text::{decimal, push_decimal, push_str};

verus! {

/// The capabilities an icinga2 endpoint announces in its `icinga::Hello` message: a field of 64
/// bits, of which the lowest says whether it executes arbitrary commands.
#[derive(Copy, Clone, Debug, PartialEq, Eq)]
pub struct Capabilities {
    bits: u64,
}

impl Capabilities {
    /// The bits of the field.
    pub closed spec fn spec_bits(self) -> u64 {
        self.bits
    }

    /// The capabilities the bits `bits` stand for.
    pub fn from_bits(bits: u64) -> (res: Capabilities)
        ensures
            res.spec_bits() == bits,
    {
        Capabilities { bits }
    }

    /// The bits of the field.
    pub fn bits(&self) -> (res: u64)
        ensures
            res == self.spec_bits(),
    {
        self.bits
    }

    /// Whether the lowest bit is set: the endpoint executes arbitrary commands.
    pub fn execute_arbitrary_command(&self) -> (res: bool)
        ensures
            res == (self.spec_bits() % 2 == 1),
    {
        self.bits % 2 == 1
    }

    /// The name of the capabilities: "execute_arbitrary_command", or "none".
    pub fn to_string(&self) -> (res: String)
        ensures
            res@ == capabilities_text(*self),
    {
        let mut res = String::new();
        if self.bits % 2 == 1 {
            push_str(&mut res, "execute_arbitrary_command");
        } else {
            push_str(&mut res, "none");
        }
        res
    }
}

/// The name of `c`.
pub open spec fn capabilities_text(c: Capabilities) -> Seq<char> {
    if c.spec_bits() % 2 == 1 {
        "execute_arbitrary_command"@
    } else {
        "none"@
    }
}

/// The parameters of the `icinga::Hello` message: the capabilities and the version of the
/// endpoint, the version written as e.g. 21300 for 2.13.0.
#[derive(Copy, Clone, Debug, PartialEq, Eq)]
pub struct IcingaHelloParams {
    pub capabilities: Capabilities,
    pub version: u32,
}

/// The description of `p`: `Version: <major>.<minor>.<bugfix>, Permissions: <capabilities>`.
pub open spec fn hello_text(p: IcingaHelloParams) -> Seq<char> {
    "Version: "@ + decimal((p.version / 10_000) as nat) + seq!['.'] + decimal(
        ((p.version % 10_000) / 100) as nat,
    ) + seq!['.'] + decimal((p.version % 100) as nat) + ", Permissions: "@ + capabilities_text(
        p.capabilities,
    )
}

impl IcingaHelloParams {
    /// The version of the endpoint.
    pub fn get_version(&self) -> (res: u64)
        ensures
            res == self.version,
    {
        self.version as u64
    }

    /// The capabilities of the endpoint.
    pub fn get_permissions(&self) -> (res: Capabilities)
        ensures
            res == self.capabilities,
    {
        self.capabilities
    }

    /// The version and the capabilities, as a log line shows them.
    pub fn to_string(&self) -> (res: String)
        ensures
            res@ == hello_text(*self),
    {
        let version = self.get_version();
        let mut res = String::new();
        push_str(&mut res, "Version: ");
        push_decimal(&mut res, version / 10_000);
        push_str(&mut res, ".");
        push_decimal(&mut res, version % 10_000 / 100);
        push_str(&mut res, ".");
        push_decimal(&mut res, version % 100);
        push_str(&mut res, ", Permissions: ");
        let caps = self.capabilities.to_string();
        push_str(&mut res, caps.as_str());
        proof {
            reveal_strlit(".");
        }
        assert(res@ =~= hello_text(*self));
        res
    }
}

} // verus!

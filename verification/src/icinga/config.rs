use vstd::prelude::*;
use crate::icinga::check_result::Command;
use crate::text::{escape_default, is_printable_ascii, push_char, push_escaped, push_str, all_printable_ascii};
use crate::value::{number_text, push_number, Value, ValueMap};

verus! {

/// Whether every character of `s` is printable ASCII.
pub open spec fn all_printable(s: Seq<char>) -> bool {
    forall|i: int| 0 <= i < s.len() ==> is_printable_ascii(#[trigger] s[i])
}

/// How a name, key or text is written into a configuration: as it is, when quoting is not forced
/// and it is all printable ASCII; else between double quotes, each character escaped.
pub open spec fn escaped_text(content: Seq<char>, force: bool) -> Seq<char> {
    if !force && all_printable(content) {
        content
    } else {
        seq!['"'] + escape_default(content) + seq!['"']
    }
}

/// One level of indentation.
pub open spec fn tab() -> Seq<char> {
    seq![' ', ' ', ' ', ' ']
}

/// The text of `b`.
pub open spec fn bool_text(b: bool) -> Seq<char> {
    if b {
        "true"@
    } else {
        "false"@
    }
}

/// A `key = "value"` line.
pub open spec fn prop_line(key: Seq<char>, value: Seq<char>) -> Seq<char> {
    tab() + escaped_text(key, false) + " = "@ + escaped_text(value, true) + seq!['\n']
}

/// `items`, each quoted, separated by commas.
pub open spec fn quoted_list(items: Seq<String>) -> Seq<char>
    decreases items.len(),
{
    if items.len() == 0 {
        Seq::empty()
    } else if items.len() == 1 {
        escaped_text(items[0]@, true)
    } else {
        quoted_list(items.subrange(0, items.len() - 1)) + ", "@ + escaped_text(items.last()@, true)
    }
}

/// A `key = ["a", "b"]` line.
pub open spec fn array_line(key: Seq<char>, items: Seq<String>) -> Seq<char> {
    tab() + escaped_text(key, false) + " = ["@ + quoted_list(items) + "]\n"@
}

/// A `key = true` line.
pub open spec fn bool_line(key: Seq<char>, b: bool) -> Seq<char> {
    tab() + escaped_text(key, false) + " = "@ + bool_text(b) + seq!['\n']
}

/// An `import "template"` line.
pub open spec fn import_line(import: Seq<char>) -> Seq<char> {
    tab() + "import "@ + escaped_text(import, true) + seq!['\n']
}

/// The text of `v` at the indentation `pad`.
pub open spec fn value_text(v: Value, pad: Seq<char>) -> Seq<char>
    decreases v,
{
    match v {
        Value::Null => "null"@,
        Value::Bool(b) => bool_text(b),
        Value::Number(n) => number_text(n),
        Value::Text(s) => escaped_text(s@, true),
        Value::Array(a) => seq!['[', '\n'] + items_text(a@, pad + tab()) + seq!['\n'] + pad + seq![']'],
        Value::Object(m) => seq!['{', '\n'] + entries_text(m.entries@, pad + tab()) + pad + seq!['}'],
    }
}

/// The items of an array, each on a line of its own at the indentation `pad`, separated by commas.
pub open spec fn items_text(items: Seq<Value>, pad: Seq<char>) -> Seq<char>
    decreases items,
{
    if items.len() == 0 {
        Seq::empty()
    } else if items.len() == 1 {
        pad + value_text(items[0], pad)
    } else {
        items_text(items.subrange(0, items.len() - 1), pad) + seq![',', '\n'] + pad
            + value_text(items.last(), pad)
    }
}

/// The entries of a map, each as a `key = value` line at the indentation `pad`.
pub open spec fn entries_text(entries: Seq<(String, Value)>, pad: Seq<char>) -> Seq<char>
    decreases entries,
{
    if entries.len() == 0 {
        Seq::empty()
    } else {
        entries_text(entries.subrange(0, entries.len() - 1), pad) + pad + escaped_text(
            entries.last().0@,
            false,
        ) + " = "@ + value_text(entries.last().1, pad) + seq!['\n']
    }
}

/// The text of a map at the indentation `pad`.
pub open spec fn vars_text(m: ValueMap, pad: Seq<char>) -> Seq<char> {
    seq!['{', '\n'] + entries_text(m.entries@, pad + tab()) + pad + seq!['}']
}

/// The `vars = {..}` line of an object.
pub open spec fn vars_line(m: ValueMap) -> Seq<char> {
    tab() + "vars = "@ + vars_text(m, tab()) + seq!['\n']
}

/// The line of an optional property; nothing when it is absent.
pub open spec fn opt_prop_line(key: Seq<char>, value: Option<String>) -> Seq<char> {
    match value {
        Some(v) => prop_line(key, v@),
        None => Seq::empty(),
    }
}

/// The line of an optional flag; nothing when it is absent.
pub open spec fn opt_bool_line(key: Seq<char>, value: Option<bool>) -> Seq<char> {
    match value {
        Some(b) => bool_line(key, b),
        None => Seq::empty(),
    }
}

/// The line of an optional import; nothing when it is absent.
pub open spec fn opt_import_line(import: Option<String>) -> Seq<char> {
    match import {
        Some(i) => import_line(i@),
        None => Seq::empty(),
    }
}

/// The `check_command` line; nothing when there is no command.
pub open spec fn command_line(command: Option<Command>) -> Seq<char> {
    match command {
        Some(Command::String(s)) => prop_line("check_command"@, s@),
        Some(Command::Vec(v)) => array_line("check_command"@, v@),
        None => Seq::empty(),
    }
}

/// The `groups` line; nothing when there are no groups.
pub open spec fn groups_line(groups: Option<Vec<String>>) -> Seq<char> {
    match groups {
        Some(g) => array_line("groups"@, g@),
        None => Seq::empty(),
    }
}

/// The `vars` line; nothing when there are no variables.
pub open spec fn opt_vars_line(vars: Option<ValueMap>) -> Seq<char> {
    match vars {
        Some(m) => vars_line(m),
        None => Seq::empty(),
    }
}

/// Appends `escaped_text(content, force)`.
pub fn push_escaped_text(out: &mut String, content: &str, force: bool)
    ensures
        final(out)@ == old(out)@ + escaped_text(content@, force),
{
    if !force && all_printable_ascii(content) {
        push_str(out, content);
    } else {
        let ghost start = out@;
        push_char(out, '"');
        push_escaped(out, content);
        push_char(out, '"');
        assert(out@ =~= start + escaped_text(content@, force));
    }
}

fn push_tab(out: &mut String)
    ensures
        final(out)@ == old(out)@ + tab(),
{
    let ghost start = out@;
    push_str(out, "    ");
    proof {
        reveal_strlit("    ");
    }
    assert(out@ =~= start + tab());
}

fn push_bool(out: &mut String, b: bool)
    ensures
        final(out)@ == old(out)@ + bool_text(b),
{
    if b {
        push_str(out, "true");
    } else {
        push_str(out, "false");
    }
}

fn push_prop_line(out: &mut String, key: &str, value: &str)
    ensures
        final(out)@ == old(out)@ + prop_line(key@, value@),
{
    let ghost start = out@;
    push_tab(out);
    push_escaped_text(out, key, false);
    push_str(out, " = ");
    push_escaped_text(out, value, true);
    push_char(out, '\n');
    assert(out@ =~= start + prop_line(key@, value@));
}

fn push_quoted_list(out: &mut String, items: &Vec<String>)
    ensures
        final(out)@ == old(out)@ + quoted_list(items@),
{
    let ghost start = out@;
    let mut i: usize = 0;
    while i < items.len()
        invariant
            i <= items.len(),
            out@ == start + quoted_list(items@.subrange(0, i as int)),
        decreases items.len() - i,
    {
        let ghost before = out@;
        if i != 0 {
            push_str(out, ", ");
        }
        push_escaped_text(out, items[i].as_str(), true);
        let ghost next = items@.subrange(0, i + 1);
        assert(next.subrange(0, i as int) =~= items@.subrange(0, i as int));
        if i == 0 {
            assert(out@ =~= start + quoted_list(next));
        } else {
            assert(out@ =~= start + quoted_list(next));
        }
        i = i + 1;
    }
    assert(items@.subrange(0, items.len() as int) =~= items@);
}

fn push_array_line(out: &mut String, key: &str, items: &Vec<String>)
    ensures
        final(out)@ == old(out)@ + array_line(key@, items@),
{
    let ghost start = out@;
    push_tab(out);
    push_escaped_text(out, key, false);
    push_str(out, " = [");
    push_quoted_list(out, items);
    push_str(out, "]\n");
    assert(out@ =~= start + array_line(key@, items@));
}

fn push_bool_line(out: &mut String, key: &str, b: bool)
    ensures
        final(out)@ == old(out)@ + bool_line(key@, b),
{
    let ghost start = out@;
    push_tab(out);
    push_escaped_text(out, key, false);
    push_str(out, " = ");
    push_bool(out, b);
    push_char(out, '\n');
    assert(out@ =~= start + bool_line(key@, b));
}

fn push_import_line(out: &mut String, import: &str)
    ensures
        final(out)@ == old(out)@ + import_line(import@),
{
    let ghost start = out@;
    push_tab(out);
    push_str(out, "import ");
    push_escaped_text(out, import, true);
    push_char(out, '\n');
    assert(out@ =~= start + import_line(import@));
}

/// Appends the text of `v` at the indentation `pad`.
fn push_value(out: &mut String, v: &Value, pad: &str)
    ensures
        final(out)@ == old(out)@ + value_text(*v, pad@),
    decreases *v, 1nat,
{
    let ghost start = out@;
    match v {
        Value::Null => push_str(out, "null"),
        Value::Bool(b) => push_bool(out, *b),
        Value::Number(n) => push_number(out, n),
        Value::Text(s) => push_escaped_text(out, s.as_str(), true),
        Value::Array(a) => {
            let mut inner = String::new();
            push_str(&mut inner, pad);
            push_tab(&mut inner);
            push_char(out, '[');
            push_char(out, '\n');
            let ghost mid = out@;
            let mut i: usize = 0;
            while i < a.len()
                invariant
                    i <= a.len(),
                    *v == Value::Array(*a),
                    inner@ == pad@ + tab(),
                    out@ == mid + items_text(a@.subrange(0, i as int), inner@),
                decreases a.len() - i,
            {
                if i != 0 {
                    push_char(out, ',');
                    push_char(out, '\n');
                }
                push_str(out, inner.as_str());
                assert(decreases_to!(*v => (*v)->Array_0));
                assert(decreases_to!((*v)->Array_0 => (*v)->Array_0@));
                assert(decreases_to!((*v)->Array_0@ => (*v)->Array_0@[i as int]));
                assert(decreases_to!(*v => a@[i as int]));
                push_value(out, &a[i], inner.as_str());
                let ghost next = a@.subrange(0, i + 1);
                assert(next.subrange(0, i as int) =~= a@.subrange(0, i as int));
                assert(out@ =~= mid + items_text(next, inner@));
                i = i + 1;
            }
            assert(a@.subrange(0, a.len() as int) =~= a@);
            push_char(out, '\n');
            push_str(out, pad);
            push_char(out, ']');
        },
        Value::Object(m) => {
            push_vars(out, m, pad);
        },
    }
    assert(out@ =~= start + value_text(*v, pad@));
}

/// Appends the text of the map `m` at the indentation `pad`.
fn push_vars(out: &mut String, m: &ValueMap, pad: &str)
    ensures
        final(out)@ == old(out)@ + vars_text(*m, pad@),
    decreases *m, 0nat,
{
    let ghost start = out@;
    let mut inner = String::new();
    push_str(&mut inner, pad);
    push_tab(&mut inner);
    push_char(out, '{');
    push_char(out, '\n');
    let ghost mid = out@;
    let mut i: usize = 0;
    while i < m.entries.len()
        invariant
            i <= m.entries.len(),
            inner@ == pad@ + tab(),
            out@ == mid + entries_text(m.entries@.subrange(0, i as int), inner@),
        decreases m.entries.len() - i,
    {
        push_str(out, inner.as_str());
        push_escaped_text(out, m.entries[i].0.as_str(), false);
        push_str(out, " = ");
        assert(decreases_to!(*m => m.entries@[i as int].1));
        push_value(out, &m.entries[i].1, inner.as_str());
        push_char(out, '\n');
        let ghost next = m.entries@.subrange(0, i + 1);
        assert(next.subrange(0, i as int) =~= m.entries@.subrange(0, i as int));
        assert(out@ =~= mid + entries_text(next, inner@));
        i = i + 1;
    }
    assert(m.entries@.subrange(0, m.entries.len() as int) =~= m.entries@);
    push_str(out, pad);
    push_char(out, '}');
    assert(out@ =~= start + vars_text(*m, pad@));
}

/// What a configuration object offers to create itself at runtime in an icinga2 instance: its
/// configuration, an expression that looks it up, and a function that creates it unless it
/// already exists.
pub trait ConfigProvider<'a> {
    type Context;

    /// The configuration of the object.
    spec fn configuration_text(&self) -> Seq<char>;

    /// The expression that looks the object up, in the context `ctx`.
    spec fn getter_text(&self, ctx: &'a Self::Context) -> Seq<char>;

    /// The function that creates the object unless the lookup finds it.
    fn live_creation_function(&self, ctx: &'a Self::Context) -> (res: String)
        ensures
            res@ == live_creation_text(self.getter_text(ctx), self.configuration_text()),
    {
        let getter = self.getter_function(ctx);
        let configuration = self.configuration();
        let mut res = String::new();
        push_str(&mut res, "existing = ");
        push_str(&mut res, getter.as_str());
        push_str(&mut res, LIVE_CREATION_MIDDLE);
        push_str(&mut res, configuration.as_str());
        push_str(&mut res, LIVE_CREATION_END);
        res
    }

    /// The configuration of the object.
    fn configuration(&self) -> (res: String)
        ensures
            res@ == self.configuration_text(),
    ;

    /// The expression that looks the object up, in the context `ctx`.
    fn getter_function(&self, ctx: &'a Self::Context) -> (res: String)
        ensures
            res@ == self.getter_text(ctx),
    ;
}

/// The text of the creation function between the lookup and the configuration.
pub const LIVE_CREATION_MIDDLE: &'static str = "\nif (existing) {\n    \"ObjectAlreadyExistingError\"\n} else {\n    result = Internal.run_with_activation_context(function () {\n        ";

/// The text of the creation function after the configuration.
pub const LIVE_CREATION_END: &'static str = "\n    })\n    \n    if (result) {\n        \"Success\"\n    } else {\n        \"ObjectCreationFailureError\"\n    }\n}";

/// The function that creates an object with the configuration `configuration`, unless the
/// expression `getter` finds it.
pub open spec fn live_creation_text(getter: Seq<char>, configuration: Seq<char>) -> Seq<char> {
    "existing = "@ + getter + LIVE_CREATION_MIDDLE@ + configuration + LIVE_CREATION_END@
}

/// A host object of an icinga2 configuration.
#[derive(Debug, PartialEq)]
pub struct Host {
    pub name: String,
    pub import: Option<String>,
    pub check_command: Option<Command>,
    pub zone: Option<String>,
    pub groups: Option<Vec<String>>,
    pub address: Option<String>,
    pub address6: Option<String>,
    pub max_check_attempts: Option<String>,
    pub check_interval: Option<String>,
    pub retry_interval: Option<String>,
    pub enable_active_checks: Option<bool>,
    pub vars: Option<ValueMap>,
}

/// The configuration text of `h`.
pub open spec fn host_text(h: Host) -> Seq<char> {
    "object Host "@ + escaped_text(h.name@, true) + " {\n"@
        + opt_import_line(h.import)
        + command_line(h.check_command)
        + opt_prop_line("zone"@, h.zone)
        + groups_line(h.groups)
        + opt_prop_line("address"@, h.address)
        + opt_prop_line("address6"@, h.address6)
        + opt_prop_line("max_check_attempts"@, h.max_check_attempts)
        + opt_prop_line("check_interval"@, h.check_interval)
        + opt_prop_line("retry_interval"@, h.retry_interval)
        + opt_bool_line("enable_active_checks"@, h.enable_active_checks)
        + opt_vars_line(h.vars)
        + seq!['}']
}

/// A service object of an icinga2 configuration.
#[derive(Debug, PartialEq)]
pub struct Service {
    pub name: String,
    pub import: Option<String>,
    pub host: Option<String>,
    pub check_command: Option<Command>,
    pub command_endpoint: Option<String>,
    pub enable_notifications: Option<bool>,
    pub enable_active_checks: Option<bool>,
    pub enable_passive_checks: Option<bool>,
    pub enable_event_handler: Option<bool>,
    pub enable_flapping: Option<bool>,
    pub enable_perfdata: Option<bool>,
    pub volatile: Option<bool>,
    pub vars: Option<ValueMap>,
}

/// The configuration text of `s`.
pub open spec fn service_text(s: Service) -> Seq<char> {
    "object Service "@ + escaped_text(s.name@, true) + " {\n"@
        + opt_import_line(s.import)
        + opt_prop_line("host"@, s.host)
        + command_line(s.check_command)
        + opt_prop_line("command_endpoint"@, s.command_endpoint)
        + opt_bool_line("enable_notifications"@, s.enable_notifications)
        + opt_bool_line("enable_active_checks"@, s.enable_active_checks)
        + opt_bool_line("enable_passive_checks"@, s.enable_passive_checks)
        + opt_bool_line("enable_event_handler"@, s.enable_event_handler)
        + opt_bool_line("enable_flapping"@, s.enable_flapping)
        + opt_bool_line("enable_perfdata"@, s.enable_perfdata)
        + opt_bool_line("volatile"@, s.volatile)
        + opt_vars_line(s.vars)
        + seq!['}']
}

/// The lookup of the host named `name`.
pub open spec fn host_getter_text(name: Seq<char>) -> Seq<char> {
    "get_host(\""@ + escape_default(name) + "\")"@
}

/// The lookup of the service named `name` on the host named `host`.
pub open spec fn service_getter_text(name: Seq<char>, host: Seq<char>) -> Seq<char> {
    "get_service(\""@ + escape_default(name) + "\", \""@ + escape_default(host) + "\")"@
}

fn push_opt_prop_line(out: &mut String, key: &str, value: &Option<String>)
    ensures
        final(out)@ == old(out)@ + opt_prop_line(key@, *value),
{
    if let Some(v) = value {
        push_prop_line(out, key, v.as_str());
    }
    assert(out@ =~= old(out)@ + opt_prop_line(key@, *value));
}

fn push_opt_bool_line(out: &mut String, key: &str, value: &Option<bool>)
    ensures
        final(out)@ == old(out)@ + opt_bool_line(key@, *value),
{
    if let Some(b) = value {
        push_bool_line(out, key, *b);
    }
    assert(out@ =~= old(out)@ + opt_bool_line(key@, *value));
}

fn push_opt_import_line(out: &mut String, import: &Option<String>)
    ensures
        final(out)@ == old(out)@ + opt_import_line(*import),
{
    if let Some(i) = import {
        push_import_line(out, i.as_str());
    }
    assert(out@ =~= old(out)@ + opt_import_line(*import));
}

fn push_command_line(out: &mut String, command: &Option<Command>)
    ensures
        final(out)@ == old(out)@ + command_line(*command),
{
    match command {
        Some(Command::String(s)) => push_prop_line(out, "check_command", s.as_str()),
        Some(Command::Vec(v)) => push_array_line(out, "check_command", v),
        None => {},
    }
    assert(out@ =~= old(out)@ + command_line(*command));
}

fn push_groups_line(out: &mut String, groups: &Option<Vec<String>>)
    ensures
        final(out)@ == old(out)@ + groups_line(*groups),
{
    if let Some(g) = groups {
        push_array_line(out, "groups", g);
    }
    assert(out@ =~= old(out)@ + groups_line(*groups));
}

fn push_opt_vars_line(out: &mut String, vars: &Option<ValueMap>)
    ensures
        final(out)@ == old(out)@ + opt_vars_line(*vars),
{
    if let Some(m) = vars {
        let ghost start = out@;
        push_tab(out);
        push_str(out, "vars = ");
        let mut pad = String::new();
        push_tab(&mut pad);
        push_vars(out, m, pad.as_str());
        push_char(out, '\n');
        assert(out@ =~= start + vars_line(*m));
    }
    assert(out@ =~= old(out)@ + opt_vars_line(*vars));
}

impl Host {
    /// The configuration of the host, as icinga2 reads it.
    pub fn to_string(&self) -> (res: String)
        ensures
            res@ == host_text(*self),
    {
        let mut out = String::new();
        push_str(&mut out, "object Host ");
        push_escaped_text(&mut out, self.name.as_str(), true);
        push_str(&mut out, " {\n");
        push_opt_import_line(&mut out, &self.import);
        push_command_line(&mut out, &self.check_command);
        push_opt_prop_line(&mut out, "zone", &self.zone);
        push_groups_line(&mut out, &self.groups);
        push_opt_prop_line(&mut out, "address", &self.address);
        push_opt_prop_line(&mut out, "address6", &self.address6);
        push_opt_prop_line(&mut out, "max_check_attempts", &self.max_check_attempts);
        push_opt_prop_line(&mut out, "check_interval", &self.check_interval);
        push_opt_prop_line(&mut out, "retry_interval", &self.retry_interval);
        push_opt_bool_line(&mut out, "enable_active_checks", &self.enable_active_checks);
        push_opt_vars_line(&mut out, &self.vars);
        push_char(&mut out, '}');
        assert(out@ =~= host_text(*self));
        out
    }
}

impl Default for Host {
    fn default() -> (res: Host)
        ensures
            res.name@ == Seq::<char>::empty(),
            res.import is None,
            res.check_command is None,
            res.zone is None,
            res.groups is None,
            res.address is None,
            res.address6 is None,
            res.max_check_attempts is None,
            res.check_interval is None,
            res.retry_interval is None,
            res.enable_active_checks is None,
            res.vars is None,
    {
        Host {
            name: String::new(),
            import: None,
            check_command: None,
            zone: None,
            groups: None,
            address: None,
            address6: None,
            max_check_attempts: None,
            check_interval: None,
            retry_interval: None,
            enable_active_checks: None,
            vars: None,
        }
    }
}

impl<'a> ConfigProvider<'a> for Host {
    type Context = ();

    open spec fn configuration_text(&self) -> Seq<char> {
        host_text(*self)
    }

    open spec fn getter_text(&self, ctx: &'a ()) -> Seq<char> {
        host_getter_text(self.name@)
    }

    fn configuration(&self) -> (res: String) {
        self.to_string()
    }

    fn getter_function(&self, ctx: &'a ()) -> (res: String) {
        let mut out = String::new();
        push_str(&mut out, "get_host(\"");
        push_escaped(&mut out, self.name.as_str());
        push_str(&mut out, "\")");
        out
    }
}

impl Service {
    /// The configuration of the service, as icinga2 reads it.
    pub fn to_string(&self) -> (res: String)
        ensures
            res@ == service_text(*self),
    {
        let mut out = String::new();
        push_str(&mut out, "object Service ");
        push_escaped_text(&mut out, self.name.as_str(), true);
        push_str(&mut out, " {\n");
        push_opt_import_line(&mut out, &self.import);
        push_opt_prop_line(&mut out, "host", &self.host);
        push_command_line(&mut out, &self.check_command);
        push_opt_prop_line(&mut out, "command_endpoint", &self.command_endpoint);
        push_opt_bool_line(&mut out, "enable_notifications", &self.enable_notifications);
        push_opt_bool_line(&mut out, "enable_active_checks", &self.enable_active_checks);
        push_opt_bool_line(&mut out, "enable_passive_checks", &self.enable_passive_checks);
        push_opt_bool_line(&mut out, "enable_event_handler", &self.enable_event_handler);
        push_opt_bool_line(&mut out, "enable_flapping", &self.enable_flapping);
        push_opt_bool_line(&mut out, "enable_perfdata", &self.enable_perfdata);
        push_opt_bool_line(&mut out, "volatile", &self.volatile);
        push_opt_vars_line(&mut out, &self.vars);
        push_char(&mut out, '}');
        assert(out@ =~= service_text(*self));
        out
    }
}

impl Default for Service {
    fn default() -> (res: Service)
        ensures
            res.name@ == Seq::<char>::empty(),
            res.import is None,
            res.host is None,
            res.check_command is None,
            res.command_endpoint is None,
            res.enable_notifications is None,
            res.enable_active_checks is None,
            res.enable_passive_checks is None,
            res.enable_event_handler is None,
            res.enable_flapping is None,
            res.enable_perfdata is None,
            res.volatile is None,
            res.vars is None,
    {
        Service {
            name: String::new(),
            import: None,
            host: None,
            check_command: None,
            command_endpoint: None,
            enable_notifications: None,
            enable_active_checks: None,
            enable_passive_checks: None,
            enable_event_handler: None,
            enable_flapping: None,
            enable_perfdata: None,
            volatile: None,
            vars: None,
        }
    }
}

impl<'a> ConfigProvider<'a> for Service {
    type Context = &'a str;

    open spec fn configuration_text(&self) -> Seq<char> {
        service_text(*self)
    }

    open spec fn getter_text(&self, ctx: &'a &'a str) -> Seq<char> {
        service_getter_text(self.name@, (**ctx)@)
    }

    fn configuration(&self) -> (res: String) {
        self.to_string()
    }

    fn getter_function(&self, ctx: &'a &'a str) -> (res: String) {
        let mut out = String::new();
        push_str(&mut out, "get_service(\"");
        push_escaped(&mut out, self.name.as_str());
        push_str(&mut out, "\", \"");
        push_escaped(&mut out, *ctx);
        push_str(&mut out, "\")");
        out
    }
}

} // verus!

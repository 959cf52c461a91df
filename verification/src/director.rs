use vstd::prelude::*;
use crate::executor::{Action, ExecutorError};
use crate::text::push_str;
use crate::value::{copy_map, lookup, str_eq, Value, ValueMap, ValueView};

verus! {

/// The key of the payload that names the Director action.
pub const DIRECTOR_ACTION_NAME_KEY: &'static str = "action_name";

/// The key of the payload that holds the payload of the Director action.
pub const DIRECTOR_ACTION_PAYLOAD_KEY: &'static str = "action_payload";

/// The key of the payload that says whether the object is also created live in icinga2.
pub const DIRECTOR_ACTION_LIVE_CREATION_KEY: &'static str = "icinga2_live_creation";

/// The error message when the payload names no Director action.
pub const ACTION_NOT_SPECIFIED: &'static str = "Director Action not specified";

/// The actions of the IcingaWeb2 Director.
#[derive(Clone, Copy, Debug, PartialEq, Eq)]
pub enum DirectorActionName {
    CreateHost,
    CreateService,
}

/// The action that `name` names, if any.
pub open spec fn director_action_name(name: Seq<char>) -> Option<DirectorActionName> {
    if name == "create_host"@ {
        Some(DirectorActionName::CreateHost)
    } else if name == "create_service"@ {
        Some(DirectorActionName::CreateService)
    } else {
        None
    }
}

/// The message that refuses the action name `name`.
pub open spec fn unknown_action_message(name: Seq<char>) -> Seq<char> {
    "Invalid action_name value. Found: '"@ + name + "'. Expected valid action_name. Refer to the documentation"@
}

impl DirectorActionName {
    /// The action named `name`: "create_host" or "create_service".
    fn from_str(name: &str) -> (res: Result<DirectorActionName, ExecutorError>)
        ensures
            match director_action_name(name@) {
                Some(n) => res == Ok::<DirectorActionName, ExecutorError>(n),
                None => res matches Err(ExecutorError::UnknownArgumentError { message })
                    && message@ == unknown_action_message(name@),
            },
    {
        if str_eq(name, "create_host") {
            Ok(DirectorActionName::CreateHost)
        } else if str_eq(name, "create_service") {
            Ok(DirectorActionName::CreateService)
        } else {
            let mut message = String::new();
            push_str(&mut message, "Invalid action_name value. Found: '");
            push_str(&mut message, name);
            push_str(&mut message, "'. Expected valid action_name. Refer to the documentation");
            Err(ExecutorError::UnknownArgumentError { message })
        }
    }

    /// The path of the Director API for the action.
    pub fn to_director_api_subpath(&self) -> (res: &'static str)
        ensures
            res@ == match *self {
                DirectorActionName::CreateHost => "host"@,
                DirectorActionName::CreateService => "service"@,
            },
    {
        match self {
            DirectorActionName::CreateHost => "host",
            DirectorActionName::CreateService => "service",
        }
    }
}

/// An action of the Director: its name, its payload, and whether the object is also created
/// live.
#[derive(Debug, PartialEq)]
pub struct DirectorAction {
    pub name: DirectorActionName,
    pub payload: ValueMap,
    pub live_creation: bool,
}

/// The text stored under `key`, if a text is.
pub open spec fn text_under(payload: ValueMap, key: Seq<char>) -> Option<Seq<char>> {
    match lookup(payload.entries@, key) {
        Some(Value::Text(t)) => Some(t@),
        _ => None,
    }
}

/// The payload of the Director action: the map stored under its key, or an empty one.
pub open spec fn director_payload(payload: ValueMap) -> Seq<(Seq<char>, ValueView)> {
    match lookup(payload.entries@, DIRECTOR_ACTION_PAYLOAD_KEY@) {
        Some(Value::Object(m)) => m@,
        _ => Seq::empty(),
    }
}

/// Whether the object is also created live: the flag stored under its key, or `false`.
pub open spec fn live_creation_setting(payload: ValueMap) -> bool {
    match lookup(payload.entries@, DIRECTOR_ACTION_LIVE_CREATION_KEY@) {
        Some(Value::Bool(b)) => b,
        _ => false,
    }
}

/// An executor that hands the actions of the IcingaWeb2 Director to a callback, which calls its
/// API.
pub struct DirectorExecutor<F: Fn(DirectorAction) -> Result<(), ExecutorError>> {
    callback: F,
}

impl<F: Fn(DirectorAction) -> Result<(), ExecutorError>> DirectorExecutor<F> {
    /// The callback of the executor.
    pub closed spec fn spec_callback(&self) -> F {
        self.callback
    }

    /// An executor that hands the Director actions to `callback`.
    pub fn new(callback: F) -> (res: DirectorExecutor<F>)
        ensures
            res.spec_callback() == callback,
    {
        DirectorExecutor { callback }
    }

    fn get_payload(&self, payload: &ValueMap) -> (res: ValueMap)
        ensures
            res@ == director_payload(*payload),
    {
        match payload.get(DIRECTOR_ACTION_PAYLOAD_KEY) {
            Some(v) => match v.get_map() {
                Some(m) => copy_map(m),
                None => ValueMap::new(),
            },
            None => ValueMap::new(),
        }
    }

    fn get_live_creation_setting(&self, payload: &ValueMap) -> (res: bool)
        ensures
            res == live_creation_setting(*payload),
    {
        match payload.get(DIRECTOR_ACTION_LIVE_CREATION_KEY) {
            Some(v) => match v.get_bool() {
                Some(b) => b,
                None => false,
            },
            None => false,
        }
    }

    /// Carries out `action`: the payload has to name a Director action; the callback gets it
    /// with its payload and its live creation flag, and its result is the result.
    pub fn execute(&mut self, action: Action) -> (res: Result<(), ExecutorError>)
        requires
            forall|a: DirectorAction| old(self).spec_callback().requires((a,)),
        ensures
            final(self).spec_callback() == old(self).spec_callback(),
            match text_under(action.payload, DIRECTOR_ACTION_NAME_KEY@) {
                None => res matches Err(ExecutorError::MissingArgumentError { message })
                    && message@ == ACTION_NOT_SPECIFIED@,
                Some(name) => match director_action_name(name) {
                    None => res matches Err(ExecutorError::UnknownArgumentError { message })
                        && message@ == unknown_action_message(name),
                    Some(n) => exists|a: DirectorAction|
                        {
                            &&& a.name == n
                            &&& a.payload@ == director_payload(action.payload)
                            &&& a.live_creation == live_creation_setting(action.payload)
                            &&& #[trigger] old(self).spec_callback().ensures((a,), res)
                        },
                },
            },
    {
        let name = match action.payload.get(DIRECTOR_ACTION_NAME_KEY) {
            Some(v) => v.get_text(),
            None => None,
        };
        match name {
            Some(director_action_name) => {
                let action_payload = self.get_payload(&action.payload);
                let live_creation = self.get_live_creation_setting(&action.payload);
                let name = DirectorActionName::from_str(director_action_name.as_str())?;
                let director_action = DirectorAction { name, payload: action_payload, live_creation };
                let ghost a = director_action;
                assert(self.callback == old(self).spec_callback());
                assert(old(self).spec_callback().requires((a,)));
                let res = (self.callback)(director_action);
                assert(old(self).spec_callback().ensures((a,), res));
                res
            },
            None => {
                let mut message = String::new();
                push_str(&mut message, ACTION_NOT_SPECIFIED);
                Err(ExecutorError::MissingArgumentError { message })
            },
        }
    }
}

/// The live creation flag that the callback gets is the boolean that the payload stores under
/// its key, `true` or `false` alike, and `false` when the payload stores no boolean there.
pub proof fn law_live_creation_follows_the_payload(payload: ValueMap)
    ensures
        lookup(payload.entries@, DIRECTOR_ACTION_LIVE_CREATION_KEY@) matches Some(Value::Bool(b)) ==> live_creation_setting(payload) == b,
        !(lookup(payload.entries@, DIRECTOR_ACTION_LIVE_CREATION_KEY@) matches Some(Value::Bool(_))) ==> !live_creation_setting(payload),
{
}

} // verus!

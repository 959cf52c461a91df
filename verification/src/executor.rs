use vstd::prelude::*;
use crate::text::push_str;
use crate::value::ValueMap;

verus! {

/// An action that an executor carries out: its id and its payload.
#[derive(Debug, PartialEq)]
pub struct Action {
    pub id: String,
    pub payload: ValueMap,
}

impl Action {
    /// An action with the id `id` and an empty payload.
    pub fn new(id: &str) -> (res: Action)
        ensures
            res.id@ == id@,
            res.payload.entries@.len() == 0,
    {
        let mut s = String::new();
        push_str(&mut s, id);
        Action { id: s, payload: ValueMap::new() }
    }
}

/// Why an executor could not carry out an action.
#[derive(Debug, PartialEq)]
pub enum ExecutorError {
    ActionExecutionError { message: String, can_retry: bool, code: Option<String>, data: ValueMap },
    ConfigurationError { message: String },
    MissingArgumentError { message: String },
    UnknownArgumentError { message: String },
}

} // verus!

use vstd::prelude::*;
use crate::executor::ExecutorError;

verus! {

/// The outcome of an attempt to process an action, as the metrics label it.
#[derive(Clone, Copy, Debug, PartialEq, Eq, Structural)]
pub enum AttemptResult {
    Success,
    Failure,
}

/// The meter of the processing attempts of actions: each attempt, with the id of its action
/// and its outcome, in the order they were counted.
#[derive(Debug)]
pub struct ActionMeter {
    attempts: Vec<(String, AttemptResult)>,
}

impl View for ActionMeter {
    type V = Seq<(Seq<char>, AttemptResult)>;

    closed spec fn view(&self) -> Seq<(Seq<char>, AttemptResult)> {
        self.attempts@.map_values(|a: (String, AttemptResult)| (a.0@, a.1))
    }
}

/// How many attempts to process the action `action_id` had the outcome `result`.
pub open spec fn attempt_count(attempts: Seq<(Seq<char>, AttemptResult)>, action_id: Seq<char>, result: AttemptResult) -> nat
    decreases attempts.len(),
{
    if attempts.len() == 0 {
        0
    } else {
        attempt_count(attempts.drop_last(), action_id, result) + if attempts.last().0 == action_id
            && attempts.last().1 == result {
            1nat
        } else {
            0nat
        }
    }
}

impl ActionMeter {
    /// A meter that counted nothing.
    pub fn new() -> (res: ActionMeter)
        ensures
            res@.len() == 0,
    {
        let res = ActionMeter { attempts: Vec::new() };
        assert(res@ =~= Seq::<(Seq<char>, AttemptResult)>::empty());
        res
    }

    /// How many attempts to process the action `action_id` had the outcome `result`.
    pub fn count(&self, action_id: &str, result: AttemptResult) -> (res: usize)
        ensures
            res == attempt_count(self@, action_id@, result),
    {
        let mut n: usize = 0;
        let mut i: usize = 0;
        while i < self.attempts.len()
            invariant
                i <= self.attempts@.len(),
                n == attempt_count(self@.subrange(0, i as int), action_id@, result),
                n <= i,
            decreases self.attempts.len() - i,
        {
            assert(self@.subrange(0, i + 1).drop_last() =~= self@.subrange(0, i as int));
            assert(self@[i as int] == (self.attempts@[i as int].0@, self.attempts@[i as int].1));
            if crate::value::str_eq(self.attempts[i].0.as_str(), action_id) && self.attempts[i].1 == result {
                n = n + 1;
            }
            i = i + 1;
        }
        assert(self@.subrange(0, self.attempts@.len() as int) =~= self@);
        n
    }
}

/// The outcome of an attempt with the result `result`.
pub open spec fn attempt_result(result: Result<(), ExecutorError>) -> AttemptResult {
    match result {
        Ok(_) => AttemptResult::Success,
        Err(_) => AttemptResult::Failure,
    }
}

/// Counts one attempt to process the action `action_id` with the result `result`.
pub fn increment_processing_attempt_counter(result: &Result<(), ExecutorError>, action_id: String, action_meter: &mut ActionMeter)
    ensures
        final(action_meter)@ == old(action_meter)@.push((action_id@, attempt_result(*result))),
{
    let label = match result {
        Ok(_) => AttemptResult::Success,
        Err(_) => AttemptResult::Failure,
    };
    let ghost before = action_meter.attempts@;
    action_meter.attempts.push((action_id, label));
    assert(action_meter.attempts@.map_values(|a: (String, AttemptResult)| (a.0@, a.1)) =~= before.map_values(|a: (String, AttemptResult)| (a.0@, a.1)).push((action_id@, attempt_result(*result))));
}

/// Counting an attempt adds one to the count of its action and outcome, and leaves every other
/// count as it was.
pub proof fn law_increment_counts_one(
    attempts: Seq<(Seq<char>, AttemptResult)>,
    action_id: Seq<char>,
    result: AttemptResult,
    other_id: Seq<char>,
    other_result: AttemptResult,
)
    ensures
        attempt_count(attempts.push((action_id, result)), action_id, result) == attempt_count(attempts, action_id, result) + 1,
        (other_id != action_id || other_result != result) ==> attempt_count(attempts.push((action_id, result)), other_id, other_result)
            == attempt_count(attempts, other_id, other_result),
{
    assert(attempts.push((action_id, result)).drop_last() =~= attempts);
}

} // verus!

use vstd::prelude::*;
use vstd::string::StringExecFns;

use crate::error::ClientError;

verus! {

/// One of the three operations on the counter.
#[derive(Clone, Copy, Debug, PartialEq, Eq, Structural)]
pub enum CallerAction {
    Get,
    Increment,
    Decrement,
}

/// The relay's method that carries out an action.
pub open spec fn method_name(action: CallerAction) -> Seq<char> {
    match action {
        CallerAction::Get => "call_get"@,
        CallerAction::Increment => "call_increment"@,
        CallerAction::Decrement => "call_decrement"@,
    }
}

impl CallerAction {
    /// The name of the relay's method that carries out the action.
    pub fn method(self) -> (r: String)
        ensures
            r@ == method_name(self),
    {
        match self {
            CallerAction::Get => String::from_str("call_get"),
            CallerAction::Increment => String::from_str("call_increment"),
            CallerAction::Decrement => String::from_str("call_decrement"),
        }
    }
}

/// What an action gave, as shown to the user.
#[derive(Clone, Debug)]
pub struct CallerResult {
    pub value: String,
    pub success: bool,
    pub error: Option<String>,
    pub action: CallerAction,
}

/// The mathematical form of a `CallerResult`.
pub struct CallerOutcome {
    pub value: Seq<char>,
    pub success: bool,
    pub error: Option<Seq<char>>,
    pub action: CallerAction,
}

impl CallerOutcome {
    /// A successful outcome carries no error, and an unsuccessful one carries one.
    pub open spec fn consistent(self) -> bool {
        self.success <==> self.error is None
    }
}

impl View for CallerResult {
    type V = CallerOutcome;

    open spec fn view(&self) -> CallerOutcome {
        CallerOutcome {
            value: self.value@,
            success: self.success,
            error: match self.error {
                Some(e) => Some(e@),
                None => None,
            },
            action: self.action,
        }
    }
}

/// The outcome of an action whose reply reads as `reply`: a value is a success; a failure
/// that the relay reported is an unsuccessful outcome with the relay's message; `None` (a
/// reply that could not be decoded) has no outcome.
pub open spec fn reply_outcome(
    action: CallerAction,
    reply: Option<Result<Seq<char>, Seq<char>>>,
) -> Option<CallerOutcome> {
    match reply {
        Some(Ok(v)) => Some(CallerOutcome { value: v, success: true, error: None, action }),
        Some(Err(m)) => Some(
            CallerOutcome { value: Seq::empty(), success: false, error: Some(m), action },
        ),
        None => None,
    }
}

/// The outcome of an action from the client's result for it: a value is a success, a
/// failure that the relay reported is an unsuccessful outcome carrying its message, and
/// any other error stays an error.
pub fn counter_action_result(action: CallerAction, result: Result<String, ClientError>) -> (r:
    Result<CallerResult, ClientError>)
    ensures
        match result {
            Ok(v) => r matches Ok(o) && o@ == reply_outcome(action, Some(Ok(v@)))->Some_0,
            Err(ClientError::RemoteError(m)) => r matches Ok(o) && o@ == reply_outcome(
                action,
                Some(Err(m@)),
            )->Some_0,
            Err(e) => r == Err::<CallerResult, ClientError>(e),
        },
        r matches Ok(o) ==> o@.consistent(),
{
    match result {
        Ok(value) => Ok(CallerResult { value, success: true, error: None, action }),
        Err(ClientError::RemoteError(m)) => Ok(
            CallerResult { value: String::new(), success: false, error: Some(m), action },
        ),
        Err(e) => Err(e),
    }
}

} // verus!

//! The callbacks by which Python reports back.

use crate::python;
use crate::python::{is_type_error, Object};
use crate::script::{ask_only, group_follow, played, Call, Script};
use crate::session::{Functions, Session};
use pyo3::{PyErr, Python};
use std::task::Waker;
use vstd::prelude::*;
use vstd::string::StringExecFns;

verus! {

broadcast use group_follow;

/// What a Python callable of this crate does when it is called.
pub enum Callback {
    /// Wakes the Rust task; called by a future that is done, as `callback(_future)`.
    Wake(Waker),
    /// Resolves the Python future with the argument of the call, as
    /// `callback(value)`. That the future may be cancelled or resolved by then is
    /// no error.
    SetResult(Object),
}

/// The arguments of a call from Python.
pub struct Arguments {
    /// Those given by position.
    pub positional: Vec<Object>,
    /// Those given by name, with their names; a name that is no text is none that a
    /// parameter can have.
    pub keywords: Vec<(Option<String>, Object)>,
}

/// The name of the one parameter of a callback.
pub open spec fn parameter(callback: Callback) -> Seq<char> {
    match callback {
        Callback::Wake(_) => "_future"@,
        Callback::SetResult(_) => "value"@,
    }
}

/// Whether `name` is that of the parameter of a callback.
pub open spec fn names(callback: Callback, name: Option<String>) -> bool {
    name matches Some(name) && name@ == parameter(callback)
}

/// The one argument that a callback takes, given by position or by the name of the
/// parameter; none if the call gives no argument, too many, or one by another name.
pub open spec fn argument_of(callback: Callback, arguments: Arguments) -> Option<Object> {
    let positional = arguments.positional@;
    let keywords = arguments.keywords@;
    if positional.len() == 1 && keywords.len() == 0 {
        Some(positional[0])
    } else if positional.len() == 0 && keywords.len() == 1 && names(callback, keywords[0].0) {
        Some(keywords[0].1)
    } else {
        None
    }
}

/// Acts on a call, and ends in whether the call was accepted. Without its argument, a
/// call is not, and nothing is done; what comes of resolving the future is ignored.
pub open spec fn callback_script(callback: Callback, argument: Option<Object>) -> Script<bool> {
    match argument {
        None => Script::End(false),
        Some(value) => match callback {
            Callback::Wake(waker) => ask_only(Call::Wake { waker }, Script::End(true)),
            Callback::SetResult(future) => ask_only(
                Call::Method { object: future, name: "set_result"@, args: seq![value] },
                Script::End(true),
            ),
        },
    }
}

impl Callback {
    fn parameter(&self) -> (name: String)
        ensures
            name@ == parameter(*self),
    {
        match self {
            Callback::Wake(_) => String::from_str("_future"),
            Callback::SetResult(_) => String::from_str("value"),
        }
    }

    /// Picks the argument out of those of a call.
    fn argument(&self, arguments: Arguments) -> (argument: Option<Object>)
        ensures
            argument == argument_of(*self, arguments),
    {
        let Arguments { mut positional, mut keywords } = arguments;
        if keywords.len() == 0 && positional.len() == 1 {
            return positional.pop();
        }
        if keywords.len() != 1 || positional.len() != 0 {
            return None;
        }
        match keywords.pop() {
            Some((Some(name), value)) => if name == self.parameter() {
                Some(value)
            } else {
                None
            },
            _ => None,
        }
    }

    /// Acts on a call with the given arguments. A call that does not give exactly the
    /// one argument fails with a `TypeError`.
    pub fn call(&self, session: &mut Session<'_>, arguments: Arguments) -> (outcome: Result<
        (),
        PyErr,
    >)
        ensures
            played(
                callback_script(*self, argument_of(*self, arguments)),
                old(session).log(),
                final(session).log(),
                outcome is Ok,
            ),
            outcome matches Err(error) ==> is_type_error(error),
            final(session).functions() == old(session).functions(),
    {
        let value = match self.argument(arguments) {
            None => {
                return Err(python::type_error("the callback takes exactly one argument"));
            },
            Some(value) => value,
        };
        match self {
            Callback::Wake(waker) => session.wake(waker),
            Callback::SetResult(future) => {
                let _ = session.call_method1(future, "set_result", &value);
            },
        }
        Ok(())
    }

    /// Acts on a call that comes from Python, in a session of its own, which is handed
    /// out with the outcome.
    pub(crate) fn invoke<'py>(&self, py: Python<'py>, arguments: Arguments) -> (ended: (
        Result<(), PyErr>,
        Session<'py>,
    ))
        ensures
            played(
                callback_script(*self, argument_of(*self, arguments)),
                Seq::empty(),
                ended.1.log(),
                ended.0 is Ok,
            ),
            ended.0 matches Err(error) ==> is_type_error(error),
    {
        let mut session = Session::new(
            py,
            Functions { isfuture: None, get_running_loop: None },
        );
        let outcome = self.call(&mut session, arguments);
        (outcome, session)
    }
}

} // verus!

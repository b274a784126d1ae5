//! Laws of the two directions together.

use crate::laws::awaitable::{
    law_outcome_is_passed_on, law_poll_resumes_once, resume_at, resumption, PollRun,
};
use crate::laws::coroutine::{
    cancelled_in, completes, law_completion_ends_the_coroutine, law_throw_raises,
    law_yielded_future_is_marked, SendRun, ThrowRun,
};
use crate::outcome::{leaves, reports, Exit, Fault, Progress};
use crate::python::{
    error_message, exception_object, is_python_none, is_runtime_error, is_stop_iteration,
    is_value_error, returned_value, Object,
};
use crate::script::{Call, Reply};
use pyo3::PyErr;
use vstd::prelude::*;

verus! {

/// The exception by which a coroutine leaves `send` is a `StopIteration` unless the coroutine
/// raised: with the value that was returned, or with `None` if there was nothing left to
/// return. What it raised is left as it is.
pub proof fn law_exits_are_exceptions(exit: Exit<Object, PyErr>, error: PyErr)
    requires
        leaves(error, exit),
    ensures
        exit !is Raised ==> is_stop_iteration(error),
        exit matches Exit::Returned(value) ==> returned_value(error) == value,
        exit is Exhausted ==> is_python_none(returned_value(error)),
        exit matches Exit::Raised(raised) ==> error == raised,
{
}

/// What Python raised is reported as it is; a fault of the bridge is reported by an exception
/// of its own class, with its own message, and never by one that looks like a return.
pub proof fn law_faults_are_exceptions(fault: Fault<PyErr>, error: PyErr)
    requires
        reports(error, fault),
    ensures
        fault matches Fault::Python(raised) ==> error == raised,
        fault !is Python ==> !is_stop_iteration(error),
        fault is NotAwaitable ==> is_value_error(error) && error_message(error)
            == "the object does not have `__await__` property"@,
        fault is NotFuture ==> is_runtime_error(error) && error_message(error)
            == ".send returned non-future"@,
        fault is NotBlocking ==> is_runtime_error(error) && error_message(error)
            == ".send returned a future with _asyncio_future_blocking != True"@,
{
}

/// The poll resumes a coroutine of this crate: it is answered as `send` came out, by what
/// `send` returned or by the exception that it left with.
pub open spec fn resumes_by(run: PollRun, sent: SendRun) -> bool {
    &&& resumption(run) matches Some(resumed)
    &&& match (sent.end.reply, resumed.reply) {
        (Ok(yielded), Ok(answer)) => answer == yielded,
        (Err(exit), Err(answer)) => leaves(answer, exit),
        _ => false,
    }
}

/// The value of a `StopIteration` is read as it was made: what is read off the exception
/// that resuming the coroutine raised is the value that it was made with.
pub open spec fn reads_the_value(run: PollRun) -> bool {
    resumption(run)->0.reply matches Err(answer) ==> run.events[resume_at(run.this.state)
        + 1].reply == Reply::Value(Ok(returned_value(answer)))
}

/// The two directions compose. Where an awaitable resumes a coroutine of this crate and is
/// answered as `send` came out, the awaitable
/// - is pending and asks for another turn, if there is no event loop to wake the coroutine;
/// - is pending only if it waits for the very future by which the coroutine is woken, if
///   there is;
/// - is ready with the value that the coroutine returned, provided Python reads that value
///   off the `StopIteration` that was made with it;
/// - fails with the error that the coroutine raised, unless that is a `StopIteration`, by
///   which a coroutine returns.
pub proof fn law_directions_compose(sent: SendRun, run: PollRun)
    requires
        sent.valid(),
        run.valid(),
        resumes_by(run, sent),
    ensures
        sent.end.reply is Ok && sent.end.waker_future is None ==> {
            &&& run.end.1 is Pending
            &&& run.end.0 is ToSend
        },
        sent.end.waker_future matches Some(future) ==> (!is_python_none(future)
            && run.end.1 is Pending ==> run.end.0 is Blocked && run.end.0->blocked_on == future),
        sent.end.reply matches Err(Exit::Returned(value)) ==> {
            &&& run.events[resume_at(run.this.state) + 1].call == (Call::GetAttr {
                object: exception_object(resumption(run)->0.reply->Err_0),
                name: "value"@,
            })
            &&& reads_the_value(run) ==> run.end.1 == Progress::Ready(
                Ok::<Object, Fault<PyErr>>(value),
            )
        },
        sent.end.reply matches Err(Exit::Raised(error)) ==> (!is_stop_iteration(error)
            ==> run.end.1 == Progress::Ready(Err::<Object, Fault<PyErr>>(Fault::Python(error)))),
{
    law_yielded_future_is_marked(sent);
    law_poll_resumes_once(run);
    law_outcome_is_passed_on(run);
}

/// Wrapping a Rust future as a coroutine, and that as a Rust future again, keeps its
/// outcome. When the inner future comes to its end, the outer one is ready in the poll that
/// resumes the coroutine: with the same value, provided Python reads the value off the
/// `StopIteration` that was made with it; with the same error, unless that is a
/// `StopIteration`. Cancelling the future of the waker must not have raised.
pub proof fn law_round_trip_keeps_the_outcome(
    sent: SendRun,
    run: PollRun,
    result: Result<Object, PyErr>,
)
    requires
        sent.valid(),
        completes(sent, result),
        cancelled_in(sent),
        run.valid(),
        resumes_by(run, sent),
    ensures
        match result {
            Ok(value) => reads_the_value(run) ==> run.end.1 == Progress::Ready(
                Ok::<Object, Fault<PyErr>>(value),
            ),
            Err(error) => !is_stop_iteration(error) ==> run.end.1 == Progress::Ready(
                Err::<Object, Fault<PyErr>>(Fault::Python(error)),
            ),
        },
{
    law_completion_ends_the_coroutine(sent, result);
    law_directions_compose(sent, run);
}

/// The poll throws into a coroutine of this crate: what it throws is what `throw` was called
/// with, and it is answered by the exception that `throw` left with.
pub open spec fn throws_by(run: PollRun, thrown: ThrowRun) -> bool {
    &&& resumption(run) matches Some(resumed)
    &&& resumed.to_send is Err
    &&& run.events[resume_at(run.this.state)].call matches Call::Method { args, .. }
    &&& args == seq![thrown.exception]
    &&& resumed.reply matches Err(answer)
    &&& leaves(answer, Exit::Raised(thrown.error))
}

/// What an awaitable throws into a coroutine of this crate comes back as its output: it fails
/// with an error that carries the very exception of the error that it threw, unless that is
/// a `StopIteration`, by which a coroutine returns. Of such a one, its value is read.
pub proof fn law_thrown_comes_back(thrown: ThrowRun, run: PollRun)
    requires
        thrown.valid(),
        run.valid(),
        throws_by(run, thrown),
    ensures
        resumption(run)->0.to_send matches Err(error) && {
            &&& exception_object(thrown.error) == exception_object(error)
            &&& !is_stop_iteration(error) ==> run.end.1 == Progress::Ready(
                Err::<Object, Fault<PyErr>>(Fault::Python(thrown.error)),
            )
            &&& is_stop_iteration(error) ==> run.events[resume_at(run.this.state) + 1].call == (
            Call::GetAttr { object: exception_object(error), name: "value"@ })
        },
{
    law_throw_raises(thrown);
    law_poll_resumes_once(run);
    law_outcome_is_passed_on(run);
    let error = resumption(run)->0.to_send->Err_0;
    assert(seq![thrown.exception][0] == seq![exception_object(error)][0]);
}

} // verus!

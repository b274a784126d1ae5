//! What [`crate::PyAwaitable`] asks of Python, and what it makes of the answers.
//!
//! Each law gives, call by call, everything that an operation asks, and for each answer
//! what the operation comes to or what it asks next.

use crate::asyncio::{get_running_loop_script, is_future_script, isfuture_script};
use crate::callback::Callback;
use crate::laws::awaitable::{resume_at, resumption, PollEnd, PollRun};
use crate::outcome::{Fault, Progress};
use crate::py_as_rs::{poll_script, try_from_script, AwaitableView, State};
use crate::python::{exception_object, is_python_none, is_stop_iteration, Object};
use crate::script::{always, answers, chain, lemma_ran_always, ran, Call, Event, Reply};
use pyo3::PyErr;
use vstd::prelude::*;

verus! {

/// `object.name()`
pub open spec fn method0(object: Object, name: Seq<char>) -> Call {
    Call::Method { object, name, args: seq![] }
}

/// `object.name(argument)`
pub open spec fn method1(object: Object, name: Seq<char>, argument: Object) -> Call {
    Call::Method { object, name, args: seq![argument] }
}

/// Event `i` is the call with an answer to it.
pub open spec fn asked(events: Seq<Event>, i: int, call: Call) -> bool {
    &&& 0 <= i < events.len()
    &&& events[i].call == call
    &&& answers(call, events[i].reply)
}

/// The object that answers event `i`, or what was raised in its place.
pub open spec fn value_at(events: Seq<Event>, i: int) -> Result<Object, PyErr> {
    events[i].reply->Value_0
}

/// The truth value that answers event `i`, or what was raised in its place.
pub open spec fn truth_at(events: Seq<Event>, i: int) -> Result<bool, PyErr> {
    events[i].reply->Truth_0
}

/// The attribute that event `i` found, if there is one, or what was raised in its place.
pub open spec fn attribute_at(events: Seq<Event>, i: int) -> Result<Option<Object>, PyErr> {
    events[i].reply->Attribute_0
}

/// What event `i` raised, if it did.
pub open spec fn status_at(events: Seq<Event>, i: int) -> Result<(), PyErr> {
    events[i].reply->Status_0
}

/// What the event raised, if it did.
pub open spec fn raised_by(event: Event) -> Option<PyErr> {
    match event.reply {
        Reply::Value(Err(error)) => Some(error),
        Reply::Attribute(Err(error)) => Some(error),
        Reply::Truth(Err(error)) => Some(error),
        Reply::Status(Err(error)) => Some(error),
        _ => None,
    }
}

/// The poll ends after `n` events, with a fault.
pub open spec fn faults(run: PollRun, n: int, fault: Fault<PyErr>) -> bool {
    &&& run.events.len() == n
    &&& run.end.0 is Complete
    &&& run.end.1 == Progress::Ready(Err::<Object, Fault<PyErr>>(fault))
}

/// The poll ends after `n` events, ready with a value.
pub open spec fn succeeds(run: PollRun, n: int, value: Object) -> bool {
    &&& run.events.len() == n
    &&& run.end.0 is Complete
    &&& run.end.1 == Progress::Ready(Ok::<Object, Fault<PyErr>>(value))
}

/// The poll ends after `n` events, pending in `state`.
pub open spec fn pends(run: PollRun, n: int, state: State<Object, PyErr>) -> bool {
    &&& run.events.len() == n
    &&& run.end.0 == state
    &&& run.end.1 is Pending
}

/// From event `at` on, `future` is told to wake the task of the poll, and then waited for.
pub open spec fn waits_from(run: PollRun, at: int, coroutine: Object, future: Object) -> bool {
    &&& asked(run.events, at, Call::NewCallable { callback: Callback::Wake(run.waker) })
    &&& match value_at(run.events, at) {
        Err(error) => faults(run, at + 1, Fault::Python(error)),
        Ok(callable) => {
            &&& asked(run.events, at + 1, method1(future, "add_done_callback"@, callable))
            &&& match value_at(run.events, at + 1) {
                Err(error) => faults(run, at + 2, Fault::Python(error)),
                Ok(_) => pends(run, at + 2, State::Blocked { coroutine, blocked_on: future }),
            }
        },
    }
}

/// From event `at` on, `function` is asked whether what was yielded is a future, which is
/// then waited for if it is marked as being blocked on, with the mark taken off.
pub open spec fn examines_from(
    run: PollRun,
    at: int,
    function: Object,
    coroutine: Object,
    yielded: Object,
) -> bool {
    let mark = "_asyncio_future_blocking"@;
    &&& run.known_after == Some(function)
    &&& asked(run.events, at, Call::Invoke { callee: function, args: seq![yielded] })
    &&& match value_at(run.events, at) {
        Err(error) => faults(run, at + 1, Fault::Python(error)),
        Ok(answer) => {
            &&& asked(run.events, at + 1, Call::IsTruthy { object: answer })
            &&& match truth_at(run.events, at + 1) {
                Err(error) => faults(run, at + 2, Fault::Python(error)),
                Ok(false) => faults(run, at + 2, Fault::NotFuture),
                Ok(true) => {
                    &&& asked(run.events, at + 2, Call::GetAttrOpt { object: yielded, name: mark })
                    &&& match attribute_at(run.events, at + 2) {
                        Err(error) => faults(run, at + 3, Fault::Python(error)),
                        Ok(None) => faults(run, at + 3, Fault::NotBlocking),
                        Ok(Some(found)) => {
                            &&& asked(run.events, at + 3, Call::IsTruthy { object: found })
                            &&& match truth_at(run.events, at + 3) {
                                Err(error) => faults(run, at + 4, Fault::Python(error)),
                                Ok(false) => faults(run, at + 4, Fault::NotBlocking),
                                Ok(true) => {
                                    &&& asked(
                                        run.events,
                                        at + 4,
                                        Call::SetAttr { object: yielded, name: mark, value: false },
                                    )
                                    &&& match status_at(run.events, at + 4) {
                                        Err(error) => faults(run, at + 5, Fault::Python(error)),
                                        Ok(_) => waits_from(run, at + 5, coroutine, yielded),
                                    }
                                },
                            }
                        },
                    }
                },
            }
        },
    }
}

/// From event `at` on, it is seen to what the coroutine yielded: `None` has the task woken,
/// to send it back; anything else is examined, once `asyncio.futures.isfuture` is known.
pub open spec fn sees_to_yield(
    run: PollRun,
    at: int,
    coroutine: Object,
    yielded: Object,
) -> bool {
    if is_python_none(yielded) {
        &&& asked(run.events, at, Call::Wake { waker: run.waker })
        &&& pends(run, at + 1, State::ToSend { coroutine, to_send: Ok(yielded) })
        &&& run.known_after == run.known
    } else {
        match run.known {
            Some(function) => examines_from(run, at, function, coroutine, yielded),
            None => {
                &&& asked(run.events, at, Call::Import { module: "asyncio.futures"@ })
                &&& match value_at(run.events, at) {
                    Err(error) => faults(run, at + 1, Fault::Python(error))
                        && run.known_after is None,
                    Ok(module) => {
                        &&& asked(
                            run.events,
                            at + 1,
                            Call::GetAttr { object: module, name: "isfuture"@ },
                        )
                        &&& match value_at(run.events, at + 1) {
                            Err(error) => faults(run, at + 2, Fault::Python(error))
                                && run.known_after is None,
                            Ok(function) => examines_from(
                                run,
                                at + 2,
                                function,
                                coroutine,
                                yielded,
                            ),
                        }
                    },
                }
            },
        }
    }
}

/// From event `at` on, it is seen to what the coroutine raised. Of a `StopIteration` the
/// value is read and is the output; any other exception is the output itself. On an awaitable
/// that is a future, the output is set, whatever comes of that.
pub open spec fn sees_to_raise(run: PollRun, at: int, error: PyErr) -> bool {
    let exception = exception_object(error);
    &&& run.known_after == run.known
    &&& if is_stop_iteration(error) {
        &&& asked(run.events, at, Call::GetAttr { object: exception, name: "value"@ })
        &&& match value_at(run.events, at) {
            Err(other) => faults(run, at + 1, Fault::Python(other)),
            Ok(value) => if run.this.is_future {
                &&& asked(run.events, at + 1, method1(run.this.awaitable, "set_result"@, value))
                &&& succeeds(run, at + 2, value)
            } else {
                succeeds(run, at + 1, value)
            },
        }
    } else {
        if run.this.is_future {
            &&& asked(run.events, at, method1(run.this.awaitable, "set_exception"@, exception))
            &&& faults(run, at + 1, Fault::Python(error))
        } else {
            faults(run, at, Fault::Python(error))
        }
    }
}

/// Event `at` resumes the coroutine by `call`, and then it is seen to what that led to.
pub open spec fn resumes_from(run: PollRun, at: int, coroutine: Object, call: Call) -> bool {
    &&& asked(run.events, at, call)
    &&& match value_at(run.events, at) {
        Ok(yielded) => sees_to_yield(run, at + 1, coroutine, yielded),
        Err(error) => sees_to_raise(run, at + 1, error),
    }
}

/// All that a first poll does.
pub open spec fn polls_first(run: PollRun) -> bool {
    &&& asked(run.events, 0, method0(run.this.awaitable, "__await__"@))
    &&& match value_at(run.events, 0) {
        Err(error) => faults(run, 1, Fault::Python(error)) && run.known_after == run.known,
        Ok(coroutine) => {
            &&& asked(run.events, 1, Call::NoneObject)
            &&& resumes_from(
                run,
                2,
                coroutine,
                method1(coroutine, "send"@, value_at(run.events, 1)->Ok_0),
            )
        },
    }
}

/// All that a poll does that sends a value.
pub open spec fn polls_sending(run: PollRun, coroutine: Object, value: Object) -> bool {
    resumes_from(run, 0, coroutine, method1(coroutine, "send"@, value))
}

/// All that a poll does that throws an exception, its traceback attached.
pub open spec fn polls_throwing(run: PollRun, coroutine: Object, error: PyErr) -> bool {
    &&& asked(run.events, 0, Call::ExceptionToThrow { error })
    &&& resumes_from(
        run,
        1,
        coroutine,
        method1(coroutine, "throw"@, exception_object(error)),
    )
}

/// All that a poll does while the coroutine waits for `future`: if that is done, what its
/// `result` returned or raised is to be sent, and the task is woken for that; if not, it is
/// waited for.
pub open spec fn polls_waiting(run: PollRun, coroutine: Object, future: Object) -> bool {
    &&& run.known_after == run.known
    &&& asked(run.events, 0, method0(future, "done"@))
    &&& match value_at(run.events, 0) {
        Err(error) => faults(run, 1, Fault::Python(error)),
        Ok(done) => {
            &&& asked(run.events, 1, Call::IsTruthy { object: done })
            &&& match truth_at(run.events, 1) {
                Err(error) => faults(run, 2, Fault::Python(error)),
                Ok(false) => waits_from(run, 2, coroutine, future),
                Ok(true) => {
                    &&& asked(run.events, 2, method0(future, "result"@))
                    &&& asked(run.events, 3, Call::Wake { waker: run.waker })
                    &&& pends(
                        run,
                        4,
                        State::ToSend { coroutine, to_send: value_at(run.events, 2) },
                    )
                },
            }
        },
    }
}

/// The run with other events and another end.
spec fn with(run: PollRun, events: Seq<Event>, end: (PollEnd, Option<Object>)) -> PollRun {
    PollRun { events, end: end.0, known_after: end.1, ..run }
}

proof fn lemma_first_poll(run: PollRun)
    requires
        run.valid(),
        run.this.state is Init,
    ensures
        polls_first(run),
{
    let script = poll_script(run.this, run.waker, run.known);
    let goal = |events: Seq<Event>, end: (PollEnd, Option<Object>)|
        polls_first(with(run, events, end));
    assert(always(script, Seq::empty(), goal)) by {
        reveal_with_fuel(always, 17);
        reveal_with_fuel(chain, 17);
    }
    lemma_ran_always(script, run.events, goal, (run.end, run.known_after));
}

proof fn lemma_sending_poll(run: PollRun, coroutine: Object, value: Object)
    requires
        run.valid(),
        run.this.state == (State::<Object, PyErr>::ToSend { coroutine, to_send: Ok(value) }),
    ensures
        polls_sending(run, coroutine, value),
{
    let script = poll_script(run.this, run.waker, run.known);
    let goal = |events: Seq<Event>, end: (PollEnd, Option<Object>)|
        polls_sending(with(run, events, end), coroutine, value);
    assert(always(script, Seq::empty(), goal)) by {
        reveal_with_fuel(always, 15);
        reveal_with_fuel(chain, 15);
    }
    lemma_ran_always(script, run.events, goal, (run.end, run.known_after));
}

proof fn lemma_throwing_poll(run: PollRun, coroutine: Object, error: PyErr)
    requires
        run.valid(),
        run.this.state == (State::<Object, PyErr>::ToSend { coroutine, to_send: Err(error) }),
    ensures
        polls_throwing(run, coroutine, error),
{
    let script = poll_script(run.this, run.waker, run.known);
    let goal = |events: Seq<Event>, end: (PollEnd, Option<Object>)|
        polls_throwing(with(run, events, end), coroutine, error);
    assert(always(script, Seq::empty(), goal)) by {
        reveal_with_fuel(always, 16);
        reveal_with_fuel(chain, 16);
    }
    lemma_ran_always(script, run.events, goal, (run.end, run.known_after));
}

proof fn lemma_waiting_poll(run: PollRun, coroutine: Object, future: Object)
    requires
        run.valid(),
        run.this.state == (State::<Object, PyErr>::Blocked { coroutine, blocked_on: future }),
    ensures
        polls_waiting(run, coroutine, future),
{
    let script = poll_script(run.this, run.waker, run.known);
    let goal = |events: Seq<Event>, end: (PollEnd, Option<Object>)|
        polls_waiting(with(run, events, end), coroutine, future);
    assert(always(script, Seq::empty(), goal)) by {
        reveal_with_fuel(always, 8);
        reveal_with_fuel(chain, 8);
    }
    lemma_ran_always(script, run.events, goal, (run.end, run.known_after));
}

/// What a poll asks, in which order, and what it makes of every answer; it asks nothing
/// else.
pub proof fn law_poll_asks_and_answers(run: PollRun)
    requires
        run.valid(),
    ensures
        match run.this.state {
            State::Init => polls_first(run),
            State::ToSend { coroutine, to_send: Ok(value) } => polls_sending(
                run,
                coroutine,
                value,
            ),
            State::ToSend { coroutine, to_send: Err(error) } => polls_throwing(
                run,
                coroutine,
                error,
            ),
            State::Blocked { coroutine, blocked_on } => polls_waiting(run, coroutine, blocked_on),
            State::Complete => false,
        },
{
    match run.this.state {
        State::Init => lemma_first_poll(run),
        State::ToSend { coroutine, to_send: Ok(value) } => lemma_sending_poll(
            run,
            coroutine,
            value,
        ),
        State::ToSend { coroutine, to_send: Err(error) } => lemma_throwing_poll(
            run,
            coroutine,
            error,
        ),
        State::Blocked { coroutine, blocked_on } => lemma_waiting_poll(run, coroutine, blocked_on),
        State::Complete => {
            let script = poll_script(run.this, run.waker, run.known);
            let goal = |_events: Seq<Event>, _end: (PollEnd, Option<Object>)| false;
            lemma_ran_always(script, run.events, goal, (run.end, run.known_after));
        },
    }
}

/// Whether the event is a truth test that answers true, finds an attribute, or is neither a
/// truth test nor a search for an attribute; and raises nothing.
pub open spec fn favours(event: Event) -> bool {
    &&& raised_by(event) is None
    &&& event.reply matches Reply::Truth(Ok(truth)) ==> truth
    &&& event.reply matches Reply::Attribute(Ok(found)) ==> found is Some
}

/// Every future that is marked as being blocked on is waited for, of whatever class it is.
/// A poll in which the coroutine yields an object that is not `None` is pending and waits
/// for that object, unless something is raised after that, `isfuture` answers no, or the mark
/// is missing or not set.
pub proof fn law_yielded_future_is_waited_for(run: PollRun)
    requires
        run.valid(),
        resumption(run) is Some,
        resumption(run)->0.reply is Ok,
        !is_python_none(resumption(run)->0.reply->Ok_0),
        forall|i: int|
            resume_at(run.this.state) < i < run.events.len() ==> favours(#[trigger] run.events[i]),
    ensures
        run.end.1 is Pending,
        run.end.0 == (State::<Object, PyErr>::Blocked {
            coroutine: resumption(run)->0.coroutine,
            blocked_on: resumption(run)->0.reply->Ok_0,
        }),
{
    law_poll_asks_and_answers(run);
}

/// A poll refuses what was yielded for nothing but what Python answered about it: as no
/// future, only if `isfuture` was asked about it and the answer was false; as a future that is
/// not blocked on, only if its mark is missing or false.
pub proof fn law_refusal_is_answered(run: PollRun)
    requires
        run.valid(),
    ensures
        run.end.1 == Progress::Ready(Err::<Object, Fault<PyErr>>(Fault::NotFuture)) ==> {
            let n = run.events.len() as int;
            &&& resumption(run) matches Some(resumed)
            &&& resumed.reply matches Ok(yielded)
            &&& run.known_after matches Some(isfuture)
            &&& asked(run.events, n - 2, Call::Invoke { callee: isfuture, args: seq![yielded] })
            &&& value_at(run.events, n - 2) matches Ok(answer)
            &&& asked(run.events, n - 1, Call::IsTruthy { object: answer })
            &&& truth_at(run.events, n - 1) == Ok::<bool, PyErr>(false)
        },
        run.end.1 == Progress::Ready(Err::<Object, Fault<PyErr>>(Fault::NotBlocking)) ==> {
            let n = run.events.len() as int;
            &&& resumption(run) matches Some(resumed)
            &&& resumed.reply matches Ok(yielded)
            &&& {
                let sought = Call::GetAttrOpt {
                    object: yielded,
                    name: "_asyncio_future_blocking"@,
                };
                ||| {
                    &&& asked(run.events, n - 1, sought)
                    &&& attribute_at(run.events, n - 1) == Ok::<Option<Object>, PyErr>(None)
                }
                ||| {
                    &&& asked(run.events, n - 2, sought)
                    &&& attribute_at(run.events, n - 2) matches Ok(Some(mark))
                    &&& asked(run.events, n - 1, Call::IsTruthy { object: mark })
                    &&& truth_at(run.events, n - 1) == Ok::<bool, PyErr>(false)
                }
            }
        },
{
    law_poll_asks_and_answers(run);
}

/// A poll fails with an exception only if that is what one of its calls raised.
pub proof fn law_failure_was_raised(run: PollRun)
    requires
        run.valid(),
    ensures
        run.end.1 matches Progress::Ready(Err(Fault::Python(error))) ==> exists|i: int|
            0 <= i < run.events.len() && raised_by(#[trigger] run.events[i]) == Some(error),
{
    law_poll_asks_and_answers(run);
    if let Progress::Ready(Err(Fault::Python(error))) = run.end.1 {
        let n = run.events.len() as int;
        let at = resume_at(run.this.state);
        assert({
            ||| raised_by(run.events[n - 1]) == Some(error)
            ||| at < n && raised_by(run.events[at]) == Some(error)
        });
    }
}

/// Polling again while the coroutine waits for a future does no harm. As long as `done`
/// answers false and nothing raises, the poll is pending and the awaitable is as it was; and
/// it fails only with what its last call raised, which is one of those by which it looks
/// whether the future is done and has itself woken when it is.
pub proof fn law_unfinished_future_is_waited_for(run: PollRun, coroutine: Object, future: Object)
    requires
        run.valid(),
        run.this.state == (State::<Object, PyErr>::Blocked { coroutine, blocked_on: future }),
    ensures
        run.events.len() > 1 && run.events[1].reply == Reply::Truth(Ok(false)) && (forall|i: int|
            0 <= i < run.events.len() ==> raised_by(#[trigger] run.events[i]) is None) ==> {
            &&& run.end.1 is Pending
            &&& run.end.0 == run.this.state
        },
        run.end.1 is Ready ==> {
            let last = run.events.last();
            &&& raised_by(last) matches Some(error)
            &&& run.end.1 == Progress::Ready(Err::<Object, Fault<PyErr>>(Fault::Python(error)))
            &&& {
                ||| last.call == method0(future, "done"@)
                ||| last.call is IsTruthy
                ||| last.call == (Call::NewCallable { callback: Callback::Wake(run.waker) })
                ||| last.call matches Call::Method { object, name, .. } && object == future && name
                    == "add_done_callback"@
            }
        },
        run.events.len() <= 4,
{
    law_poll_asks_and_answers(run);
}

/// From event `at` on, to the last one, `function` is asked whether `object` is a future; the
/// truth of what it answers, or what is raised, is the answer.
pub open spec fn enquires_from(
    events: Seq<Event>,
    at: int,
    function: Object,
    object: Object,
    answer: Result<bool, PyErr>,
) -> bool {
    &&& asked(events, at, Call::Invoke { callee: function, args: seq![object] })
    &&& match value_at(events, at) {
        Err(error) => {
            &&& events.len() == at + 1
            &&& answer == Err::<bool, PyErr>(error)
        },
        Ok(value) => {
            &&& asked(events, at + 1, Call::IsTruthy { object: value })
            &&& events.len() == at + 2
            &&& answer == truth_at(events, at + 1)
        },
    }
}

/// From event `at` on, to the last one, it is found out whether `object` is a future:
/// `asyncio.futures.isfuture` is asked, and looked up before that if it is not known.
pub open spec fn finds_out_from(
    events: Seq<Event>,
    at: int,
    known: Option<Object>,
    object: Object,
    answer: Result<bool, PyErr>,
    known_after: Option<Object>,
) -> bool {
    match known {
        Some(function) => {
            &&& enquires_from(events, at, function, object, answer)
            &&& known_after == known
        },
        None => {
            &&& asked(events, at, Call::Import { module: "asyncio.futures"@ })
            &&& match value_at(events, at) {
                Err(error) => {
                    &&& events.len() == at + 1
                    &&& answer == Err::<bool, PyErr>(error)
                    &&& known_after is None
                },
                Ok(module) => {
                    &&& asked(events, at + 1, Call::GetAttr { object: module, name: "isfuture"@ })
                    &&& match value_at(events, at + 1) {
                        Err(error) => {
                            &&& events.len() == at + 2
                            &&& answer == Err::<bool, PyErr>(error)
                            &&& known_after is None
                        },
                        Ok(function) => {
                            &&& enquires_from(events, at + 2, function, object, answer)
                            &&& known_after == Some(function)
                        },
                    }
                },
            }
        },
    }
}

/// Whether an object is a future is what `asyncio.futures.isfuture` answers about it, and
/// nothing else is asked.
pub proof fn law_isfuture_decides(
    known: Option<Object>,
    object: Object,
    events: Seq<Event>,
    answer: Result<bool, PyErr>,
    known_after: Option<Object>,
)
    requires
        ran(is_future_script(known, object), events, (answer, known_after)),
    ensures
        finds_out_from(events, 0, known, object, answer, known_after),
{
    let script = is_future_script(known, object);
    let goal = |events: Seq<Event>, end: (Result<bool, PyErr>, Option<Object>)|
        finds_out_from(events, 0, known, object, end.0, end.1);
    assert(always(script, Seq::empty(), goal)) by {
        reveal_with_fuel(always, 7);
        reveal_with_fuel(chain, 7);
    }
    lemma_ran_always(script, events, goal, (answer, known_after));
}

/// The events look `name` up in `module`, and nothing else; unless it is known already.
pub open spec fn looks_up(
    known: Option<Object>,
    module: Seq<char>,
    name: Seq<char>,
    events: Seq<Event>,
    reply: Result<Object, PyErr>,
) -> bool {
    match known {
        Some(function) => {
            &&& events.len() == 0
            &&& reply == Ok::<Object, PyErr>(function)
        },
        None => {
            &&& asked(events, 0, Call::Import { module })
            &&& match value_at(events, 0) {
                Err(error) => {
                    &&& events.len() == 1
                    &&& reply == Err::<Object, PyErr>(error)
                },
                Ok(found) => {
                    &&& asked(events, 1, Call::GetAttr { object: found, name })
                    &&& events.len() == 2
                    &&& reply == value_at(events, 1)
                },
            }
        },
    }
}

/// The functions of `asyncio` are looked up where they are, unless they are known.
pub proof fn law_functions_are_looked_up(
    known: Option<Object>,
    events: Seq<Event>,
    reply: Result<Object, PyErr>,
)
    ensures
        ran(isfuture_script(known), events, reply) ==> looks_up(
            known,
            "asyncio.futures"@,
            "isfuture"@,
            events,
            reply,
        ),
        ran(get_running_loop_script(known), events, reply) ==> looks_up(
            known,
            "asyncio"@,
            "get_running_loop"@,
            events,
            reply,
        ),
{
    let goal = |events: Seq<Event>, reply: Result<Object, PyErr>|
        looks_up(known, "asyncio.futures"@, "isfuture"@, events, reply);
    assert(always(isfuture_script(known), Seq::empty(), goal)) by {
        reveal_with_fuel(always, 4);
    }
    if ran(isfuture_script(known), events, reply) {
        lemma_ran_always(isfuture_script(known), events, goal, reply);
    }
    let goal = |events: Seq<Event>, reply: Result<Object, PyErr>|
        looks_up(known, "asyncio"@, "get_running_loop"@, events, reply);
    assert(always(get_running_loop_script(known), Seq::empty(), goal)) by {
        reveal_with_fuel(always, 4);
    }
    if ran(get_running_loop_script(known), events, reply) {
        lemma_ran_always(get_running_loop_script(known), events, goal, reply);
    }
}

/// A run of [`crate::PyAwaitable::try_from`].
pub struct TryRun {
    /// The object to take on.
    pub object: Object,
    /// What was known of `asyncio.futures.isfuture`.
    pub known: Option<Object>,
    /// The calls that were made, with their answers.
    pub events: Seq<Event>,
    /// The awaitable, or why the object was refused.
    pub result: Result<AwaitableView, Fault<PyErr>>,
    /// What is then known of `asyncio.futures.isfuture`.
    pub known_after: Option<Object>,
}

impl TryRun {
    /// The events and the result are those of an attempt to take the object on.
    pub open spec fn valid(self) -> bool {
        ran(
            try_from_script(self.object, self.known),
            self.events,
            (self.result, self.known_after),
        )
    }
}

/// All that taking an object on does, when the answer to whether it is a future is `answer`.
pub open spec fn takes_on(run: TryRun, answer: Result<bool, PyErr>) -> bool {
    &&& asked(run.events, 0, Call::HasAttr { object: run.object, name: "__await__"@ })
    &&& match truth_at(run.events, 0) {
        Err(error) => {
            &&& run.events.len() == 1
            &&& run.result == Err::<AwaitableView, _>(Fault::Python(error))
            &&& run.known_after == run.known
        },
        Ok(false) => {
            &&& run.events.len() == 1
            &&& run.result == Err::<AwaitableView, Fault<PyErr>>(Fault::NotAwaitable)
            &&& run.known_after == run.known
        },
        Ok(true) => {
            &&& finds_out_from(run.events, 1, run.known, run.object, answer, run.known_after)
            &&& run.result == (match answer {
                Err(error) => Err::<AwaitableView, _>(Fault::Python(error)),
                Ok(is_future) => Ok(
                    AwaitableView { awaitable: run.object, is_future, state: State::Init },
                ),
            })
        },
    }
}

/// What `isfuture` answered in the run.
pub open spec fn isfuture_answer(run: TryRun) -> Result<bool, PyErr> {
    match run.result {
        Ok(view) => Ok(view.is_future),
        Err(Fault::Python(error)) => Err(error),
        Err(_) => Ok(false),
    }
}

/// An object is taken on exactly if it has `__await__` and nothing raises while it is found
/// out whether it is a future. The awaitable is then of that object, at the start, and a
/// future exactly if `isfuture` says so. Nothing else is asked.
pub proof fn law_awaitables_are_taken_on(run: TryRun)
    requires
        run.valid(),
    ensures
        takes_on(run, isfuture_answer(run)),
        run.result is Ok <==> {
            &&& truth_at(run.events, 0) == Ok::<bool, PyErr>(true)
            &&& forall|i: int|
                0 <= i < run.events.len() ==> raised_by(#[trigger] run.events[i]) is None
        },
        run.result matches Ok(view) ==> {
            &&& view.awaitable == run.object
            &&& view.state is Init
            &&& run.known_after matches Some(isfuture)
            &&& run.events[run.events.len() - 2].call == (Call::Invoke {
                callee: isfuture,
                args: seq![run.object],
            })
            &&& run.events[run.events.len() - 2].reply matches Reply::Value(Ok(answer))
            &&& run.events.last().call == (Call::IsTruthy { object: answer })
            &&& run.events.last().reply == Reply::Truth(Ok(view.is_future))
        },
{
    let script = try_from_script(run.object, run.known);
    let goal = |
        events: Seq<Event>,
        end: (Result<AwaitableView, Fault<PyErr>>, Option<Object>),
    |
        {
            let run = TryRun { events, result: end.0, known_after: end.1, ..run };
            takes_on(run, isfuture_answer(run))
        };
    assert(always(script, Seq::empty(), goal)) by {
        reveal_with_fuel(always, 8);
        reveal_with_fuel(chain, 8);
    }
    lemma_ran_always(script, run.events, goal, (run.result, run.known_after));
    let n = run.events.len() as int;
    if run.result is Err && truth_at(run.events, 0) == Ok::<bool, PyErr>(true) {
        assert(raised_by(run.events[n - 1]) is Some);
    }
    if truth_at(run.events, 0) is Err {
        assert(raised_by(run.events[0]) is Some);
    }
}

} // verus!

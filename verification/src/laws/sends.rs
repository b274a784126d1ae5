//! What [`crate::RustCoroutine`], its waker and the callbacks ask of Python, and what they
//! make of the answers.
//!
//! Each law gives, call by call, everything that an operation asks, and for each answer
//! what the operation comes to or what it asks next.

use crate::callback::{argument_of, callback_script, Arguments, Callback};
use crate::laws::coroutine::{cancel_call, history, one_life, SendRun, ThrowRun};
use crate::laws::polls::{asked, method0, method1, raised_by, status_at, value_at};
use crate::outcome::{Exit, Progress};
use crate::python::{amounts_to, is_python_none, Object};
use crate::rs_as_py::{
    polled_by, release_script, send_script, throw_script, wake_script, PyFutureWaker, SendEnd,
};
use crate::script::{always, chain, lemma_ran_always, ran, Call, Event, Reply};
use pyo3::PyErr;
use vstd::prelude::*;

verus! {

/// The `send` ends after `n` events, and raises `error`.
pub open spec fn raises(run: SendRun, n: int, error: PyErr) -> bool {
    &&& run.events.len() == n
    &&& run.end.reply == Err::<Object, Exit<Object, PyErr>>(Exit::Raised(error))
    &&& run.end.waker_future is None
}

/// The `send` ends after `n` events, with the result of the Rust future.
pub open spec fn leaves_with(run: SendRun, n: int, result: Result<Object, PyErr>) -> bool {
    &&& run.events.len() == n
    &&& run.end.waker_future is None
    &&& match result {
        Ok(value) => run.end.reply == Err::<Object, Exit<Object, PyErr>>(Exit::Returned(value)),
        Err(error) => run.end.reply == Err::<Object, Exit<Object, PyErr>>(Exit::Raised(error)),
    }
}

/// Event `at` polls the Rust future with a waker of `future`. While that is pending, `future`
/// is yielded; once it is ready, `future` is cancelled, and the result handed on.
pub open spec fn polls_under_loop(
    run: SendRun,
    at: int,
    event_loop: Object,
    future: Object,
) -> bool {
    &&& asked(run.events, at, Call::Poll { using: Some(PyFutureWaker { event_loop, future }) })
    &&& match run.events[at].reply->Polled_0 {
        Progress::Pending => {
            &&& run.events.len() == at + 1
            &&& run.end.reply == Ok::<Object, Exit<Object, PyErr>>(future)
            &&& run.end.waker_future == Some(future)
        },
        Progress::Ready(result) => {
            &&& asked(run.events, at + 1, method0(future, "cancel"@))
            &&& match value_at(run.events, at + 1) {
                Err(error) => raises(run, at + 2, error),
                Ok(_) => leaves_with(run, at + 2, result),
            }
        },
    }
}

/// Event `at` polls the Rust future with a waker that does nothing. While that is pending,
/// `None` is yielded; once it is ready, the result is handed on.
pub open spec fn polls_without_loop(run: SendRun, at: int) -> bool {
    &&& asked(run.events, at, Call::Poll { using: None })
    &&& match run.events[at].reply->Polled_0 {
        Progress::Pending => {
            &&& asked(run.events, at + 1, Call::NoneObject)
            &&& run.events.len() == at + 2
            &&& run.end.reply == Ok::<Object, Exit<Object, PyErr>>(
                value_at(run.events, at + 1)->Ok_0,
            )
            &&& run.end.waker_future is None
        },
        Progress::Ready(result) => leaves_with(run, at + 1, result),
    }
}

/// From event `at` on, `function` is asked for the running event loop. If there is none, the
/// Rust future is polled without one. If there is one, a fresh future of it is made and
/// marked as being blocked on, and the very next thing is the poll.
pub open spec fn drives_from(run: SendRun, at: int, function: Object) -> bool {
    let mark = "_asyncio_future_blocking"@;
    &&& run.end.known == Some(function)
    &&& asked(run.events, at, Call::Invoke { callee: function, args: seq![] })
    &&& match value_at(run.events, at) {
        Err(_) => polls_without_loop(run, at + 1),
        Ok(event_loop) => {
            &&& asked(run.events, at + 1, method0(event_loop, "create_future"@))
            &&& match value_at(run.events, at + 1) {
                Err(error) => raises(run, at + 2, error),
                Ok(future) => {
                    &&& asked(
                        run.events,
                        at + 2,
                        Call::SetAttr { object: future, name: mark, value: true },
                    )
                    &&& match status_at(run.events, at + 2) {
                        Err(error) => raises(run, at + 3, error),
                        Ok(_) => polls_under_loop(run, at + 3, event_loop, future),
                    }
                },
            }
        },
    }
}

/// From event `at` on, all that a `send` does once the future from before is cancelled.
pub open spec fn sends_from(run: SendRun, at: int) -> bool {
    match run.known {
        Some(function) => drives_from(run, at, function),
        None => {
            &&& asked(run.events, at, Call::Import { module: "asyncio"@ })
            &&& match value_at(run.events, at) {
                Err(error) => raises(run, at + 1, error) && run.end.known is None,
                Ok(module) => {
                    &&& asked(
                        run.events,
                        at + 1,
                        Call::GetAttr { object: module, name: "get_running_loop"@ },
                    )
                    &&& match value_at(run.events, at + 1) {
                        Err(error) => raises(run, at + 2, error) && run.end.known is None,
                        Ok(function) => drives_from(run, at + 2, function),
                    }
                },
            }
        },
    }
}

/// All that a `send` does.
pub open spec fn sends(run: SendRun) -> bool {
    match run.waker_future {
        Some(future) => {
            &&& asked(run.events, 0, method0(future, "cancel"@))
            &&& sends_from(run, 1)
        },
        None => sends_from(run, 0),
    }
}

/// What a `send` asks, in which order, and what it makes of every answer; it asks nothing
/// else.
pub proof fn law_send_asks_and_answers(run: SendRun)
    requires
        run.valid(),
    ensures
        sends(run),
{
    let script = send_script(run.waker_future, run.known);
    let goal = |events: Seq<Event>, end: SendEnd| sends(SendRun { events, end, ..run });
    assert(always(script, Seq::empty(), goal)) by {
        reveal_with_fuel(always, 14);
        reveal_with_fuel(chain, 14);
    }
    lemma_ran_always(script, run.events, goal, run.end);
}

/// Whether the event is one that could have an event loop do something of its own accord, or
/// could resolve a future, or wake a task: a call by method of anything but `cancel` and
/// `create_future`, a callable being made, or a wake.
pub open spec fn stirs(event: Event) -> bool {
    match event.call {
        Call::Method { name, args, .. } => !(args.len() == 0 && (name == "cancel"@ || name
            == "create_future"@)),
        Call::NewCallable { .. } => true,
        Call::Wake { .. } => true,
        _ => false,
    }
}

/// No busy polling under an event loop. A `send` makes no callable, schedules nothing and
/// resolves nothing. The future that it yields is fresh, and between its being made and its
/// being yielded it is only marked, and handed to the waker that the Rust future is polled
/// with: nothing but a wake of that waker is there to resolve it.
pub proof fn law_yielded_future_is_left_to_the_waker(run: SendRun)
    requires
        run.valid(),
    ensures
        forall|i: int| 0 <= i < run.events.len() ==> !stirs(#[trigger] run.events[i]),
        run.end.waker_future matches Some(future) ==> {
            let n = run.events.len() as int;
            &&& n >= 4
            &&& run.events[n - 4].call is Invoke
            &&& run.events[n - 4].reply matches Reply::Value(Ok(event_loop))
            &&& run.events[n - 3].call == method0(event_loop, "create_future"@)
            &&& run.events[n - 3].reply == Reply::Value(Ok(future))
            &&& run.events[n - 2].call == (Call::SetAttr {
                object: future,
                name: "_asyncio_future_blocking"@,
                value: true,
            })
            &&& run.events[n - 1].call == (Call::Poll {
                using: Some(PyFutureWaker { event_loop, future }),
            })
            &&& run.events[n - 1].reply == Reply::Polled(Progress::Pending)
            &&& run.end.reply == Ok::<Object, Exit<Object, PyErr>>(future)
        },
{
    law_send_asks_and_answers(run);
}

/// Over the whole life of a coroutine, in whatever sessions it is driven, driving it makes no
/// callable, schedules nothing, resolves nothing and wakes nothing.
pub proof fn law_driving_does_not_stir(runs: Seq<SendRun>)
    requires
        one_life(runs),
    ensures
        forall|i: int| 0 <= i < history(runs).len() ==> !stirs(#[trigger] history(runs)[i]),
    decreases runs.len(),
{
    if runs.len() > 0 {
        let past = history(runs.drop_last());
        law_driving_does_not_stir(runs.drop_last());
        law_yielded_future_is_left_to_the_waker(runs.last());
        assert forall|i: int| 0 <= i < history(runs).len() implies !stirs(
            #[trigger] history(runs)[i],
        ) by {
            if i < past.len() {
                assert(history(runs)[i] == past[i]);
            } else {
                assert(history(runs)[i] == runs.last().events[i - past.len()]);
            }
        }
    }
}

/// With an event loop a coroutine yields a future of that loop or leaves; only without one
/// does it yield `None`, to be resumed at once.
pub proof fn law_none_is_yielded_without_a_loop(run: SendRun)
    requires
        run.valid(),
        run.end.reply is Ok,
    ensures
        run.end.waker_future is None <==> exists|i: int|
            0 <= i < run.events.len() && (#[trigger] run.events[i]).call is Invoke && raised_by(
                run.events[i],
            ) is Some,
        run.end.waker_future is None ==> is_python_none(run.end.reply->Ok_0),
        run.end.waker_future matches Some(future) ==> run.end.reply->Ok_0 == future,
{
    law_send_asks_and_answers(run);
    let first: int = if run.waker_future is Some {
        1
    } else {
        0
    };
    let at: int = if run.known is Some {
        first
    } else {
        first + 2
    };
    assert(run.events[at].call is Invoke);
}

/// A poll of the Rust future that a `send` records is a poll of that very future, with the
/// waker that is recorded, and brought what is recorded.
pub proof fn law_recorded_poll_is_of_the_future<F, P>(
    poll: P,
    future: F,
    event: Event,
    kept: F,
) where P: FnOnce(F, Option<PyFutureWaker>) -> (F, Progress<Result<Object, PyErr>>)
    requires
        polled_by(poll, future, event, kept),
    ensures
        event.call matches Call::Poll { using } && (event.reply matches Reply::Polled(progress)
            && call_ensures(poll, (future, using), (kept, progress))),
{
}

/// A wake fails only if the callable cannot be made: once that is made, it is scheduled on the
/// event loop, with `None` as its argument, and the wake succeeds, whatever came of
/// scheduling it. Nothing else is asked.
pub proof fn law_wake_fails_only_without_a_callable(
    waker: PyFutureWaker,
    events: Seq<Event>,
    result: Result<(), PyErr>,
)
    requires
        ran(wake_script(waker), events, result),
    ensures
        asked(events, 0, Call::NewCallable { callback: Callback::SetResult(waker.future) }),
        match value_at(events, 0) {
            Err(error) => {
                &&& events.len() == 1
                &&& result matches Err(failure) && failure == error
            },
            Ok(callable) => {
                &&& result is Ok
                &&& events.len() == 3
                &&& asked(events, 1, Call::NoneObject)
                &&& asked(
                    events,
                    2,
                    Call::Method {
                        object: waker.event_loop,
                        name: "call_soon_threadsafe"@,
                        args: seq![callable, value_at(events, 1)->Ok_0],
                    },
                )
            },
        },
{
    let goal = |events: Seq<Event>, result: Result<(), PyErr>|
        {
            &&& asked(events, 0, Call::NewCallable { callback: Callback::SetResult(waker.future) })
            &&& match value_at(events, 0) {
                Err(error) => {
                    &&& events.len() == 1
                    &&& result matches Err(failure) && failure == error
                },
                Ok(callable) => {
                    &&& result is Ok
                    &&& events.len() == 3
                    &&& asked(events, 1, Call::NoneObject)
                    &&& asked(
                        events,
                        2,
                        Call::Method {
                            object: waker.event_loop,
                            name: "call_soon_threadsafe"@,
                            args: seq![callable, value_at(events, 1)->Ok_0],
                        },
                    )
                },
            }
        };
    assert(always(wake_script(waker), Seq::empty(), goal)) by {
        reveal_with_fuel(always, 5);
    }
    lemma_ran_always(wake_script(waker), events, goal, result);
}

/// Closing a coroutine cancels the future by which it could be woken, if there is one, and
/// asks nothing else.
pub proof fn law_close_cancels(waker_future: Option<Object>, events: Seq<Event>)
    requires
        ran(release_script(waker_future), events, ()),
    ensures
        match waker_future {
            None => events.len() == 0,
            Some(future) => events.len() == 1 && asked(events, 0, cancel_call(future)),
        },
{
    let goal = |events: Seq<Event>, _end: ()|
        match waker_future {
            None => events.len() == 0,
            Some(future) => events.len() == 1 && asked(events, 0, cancel_call(future)),
        };
    assert(always(release_script(waker_future), Seq::empty(), goal)) by {
        reveal_with_fuel(always, 3);
    }
    lemma_ran_always(release_script(waker_future), events, goal, ());
}

/// Throwing at a coroutine cancels the future by which it could be woken, if there is one,
/// and raises what raising the thrown object amounts to, whatever cancelling came to. It asks
/// nothing else.
pub proof fn law_throw_cancels_and_raises(run: ThrowRun)
    requires
        run.valid(),
    ensures
        amounts_to(run.error, run.exception),
        run.events.len() == if run.waker_future is Some { 2int } else { 1 },
        run.waker_future matches Some(future) ==> asked(run.events, 0, cancel_call(future)),
        asked(
            run.events,
            run.events.len() - 1,
            Call::ErrorFrom { object: run.exception },
        ),
        run.events.last().reply == Reply::Error(run.error),
{
    let script = throw_script(run.waker_future, run.exception);
    let waker_future = run.waker_future;
    let exception = run.exception;
    let goal = |events: Seq<Event>, error: PyErr|
        {
            &&& amounts_to(error, exception)
            &&& events.len() == if waker_future is Some { 2int } else { 1 }
            &&& waker_future matches Some(future) ==> asked(events, 0, cancel_call(future))
            &&& asked(events, events.len() - 1, Call::ErrorFrom { object: exception })
            &&& events.last().reply == Reply::Error(error)
        };
    assert(always(script, Seq::empty(), goal)) by {
        reveal_with_fuel(always, 4);
        reveal_with_fuel(chain, 4);
    }
    lemma_ran_always(script, run.events, goal, run.error);
}

/// A callback that is called with its one argument does the one thing that it is for, and
/// accepts the call whatever comes of that; called otherwise, it does nothing.
pub proof fn law_callback_does_one_thing(
    callback: Callback,
    argument: Option<Object>,
    events: Seq<Event>,
    accepted: bool,
)
    requires
        ran(callback_script(callback, argument), events, accepted),
    ensures
        accepted <==> argument is Some,
        match (argument, callback) {
            (None, _) => events.len() == 0,
            (Some(_), Callback::Wake(waker)) => events.len() == 1 && asked(
                events,
                0,
                Call::Wake { waker },
            ),
            (Some(value), Callback::SetResult(future)) => events.len() == 1 && asked(
                events,
                0,
                method1(future, "set_result"@, value),
            ),
        },
{
    let goal = |events: Seq<Event>, accepted: bool|
        {
            &&& accepted <==> argument is Some
            &&& match (argument, callback) {
                (None, _) => events.len() == 0,
                (Some(_), Callback::Wake(waker)) => events.len() == 1 && asked(
                    events,
                    0,
                    Call::Wake { waker },
                ),
                (Some(value), Callback::SetResult(future)) => events.len() == 1 && asked(
                    events,
                    0,
                    method1(future, "set_result"@, value),
                ),
            }
        };
    assert(always(callback_script(callback, argument), Seq::empty(), goal)) by {
        reveal_with_fuel(always, 3);
    }
    lemma_ran_always(callback_script(callback, argument), events, goal, accepted);
}

/// The argument of a callback is the only one of the call: given by position, or by name, which
/// is `_future` for a callback that wakes and `value` for one that resolves. All other calls
/// have none.
pub proof fn law_callback_takes_one_argument(callback: Callback, arguments: Arguments)
    ensures
        argument_of(callback, arguments) is Some <==> {
            &&& arguments.positional@.len() + arguments.keywords@.len() == 1
            &&& arguments.keywords@.len() == 1 ==> (arguments.keywords@[0].0 matches Some(name)
                && name@ == match callback {
                Callback::Wake(_) => "_future"@,
                Callback::SetResult(_) => "value"@,
            })
        },
        argument_of(callback, arguments) matches Some(value) ==> {
            ||| arguments.positional@ == seq![value]
            ||| arguments.positional@.len() == 0 && arguments.keywords@[0].1 == value
        },
{
}

} // verus!

//! Python awaitables as Rust futures.

use crate::asyncio::{is_future, is_future_script};
use crate::callback::Callback;
use crate::laws::law_played_is_run;
use crate::laws::polls::law_isfuture_decides;
use crate::outcome::{
    awaitable_verdict, blocking_verdict, future_verdict, require_awaitable, require_blocking,
    require_future, Fault, Progress,
};
use crate::python;
use crate::python::{exception_object, is_python_none, is_stop_iteration, Object};
use crate::script::{
    ask_attribute, ask_only, ask_status, ask_truth, ask_value, chain, group_follow,
    lemma_follow_from_join, lemma_played_within, played, Call, Reply, Script,
};
use crate::session::Session;
use pyo3::PyErr;
use std::task::Waker;
use vstd::prelude::*;

verus! {

broadcast use group_follow;

/// How far an awaitable has got.
pub enum State<O, E> {
    /// Nothing was asked of it yet.
    Init,
    /// Its coroutine is to be resumed, with a value or with an exception.
    ToSend { coroutine: O, to_send: Result<O, E> },
    /// Its coroutine waits for a future.
    Blocked { coroutine: O, blocked_on: O },
    /// It has come to an end.
    Complete,
}

/// What a poll that did not fail has led to.
pub struct Turn<O, E> {
    pub state: State<O, E>,
    pub progress: Progress<O>,
}

/// The state that a poll leaves, and what it returns.
pub open spec fn conclusion<O, E>(turn: Result<Turn<O, E>, Fault<E>>) -> (
    State<O, E>,
    Progress<Result<O, Fault<E>>>,
) {
    match turn {
        Err(fault) => (State::Complete, Progress::Ready(Err(fault))),
        Ok(Turn { state, progress: Progress::Ready(value) }) => (state, Progress::Ready(Ok(value))),
        Ok(Turn { state, progress: Progress::Pending }) => (state, Progress::Pending),
    }
}

/// Concludes a poll: a fault completes the awaitable.
pub fn conclude<O, E>(turn: Result<Turn<O, E>, Fault<E>>) -> (end: (
    State<O, E>,
    Progress<Result<O, Fault<E>>>,
))
    ensures
        end == conclusion(turn),
{
    match turn {
        Err(fault) => (State::Complete, Progress::Ready(Err(fault))),
        Ok(Turn { state, progress }) => match progress {
            Progress::Ready(value) => (state, Progress::Ready(Ok(value))),
            Progress::Pending => (state, Progress::Pending),
        },
    }
}

/// A turn of an awaitable, and what is then known of
/// `asyncio.futures.isfuture`.
pub type TurnEnd = (Result<Turn<Object, PyErr>, Fault<PyErr>>, Option<Object>);

/// An awaitable as the contracts see it.
pub struct AwaitableView {
    /// The Python object.
    pub awaitable: Object,
    /// Whether it is an `asyncio` future.
    pub is_future: bool,
    /// How far it has got.
    pub state: State<Object, PyErr>,
}

/// Fails with what Python raised.
pub open spec fn raised(error: PyErr, known: Option<Object>) -> Script<TurnEnd> {
    Script::End((Err(Fault::Python(error)), known))
}

/// Stays pending in `state`.
pub open spec fn pending(state: State<Object, PyErr>, known: Option<Object>) -> Script<TurnEnd> {
    Script::End((Ok(Turn { state, progress: Progress::Pending }), known))
}

/// Comes to an end with `value`.
pub open spec fn ready(value: Object, known: Option<Object>) -> Script<TurnEnd> {
    Script::End((Ok(Turn { state: State::Complete, progress: Progress::Ready(value) }), known))
}

/// The call that resumes a coroutine.
pub open spec fn resume_call(coroutine: Object, to_send: Result<Object, PyErr>) -> Call {
    match to_send {
        Ok(value) => Call::Method { object: coroutine, name: "send"@, args: seq![value] },
        Err(error) => Call::Method {
            object: coroutine,
            name: "throw"@,
            args: seq![exception_object(error)],
        },
    }
}

/// Asks whether a future is marked as being blocked on.
pub open spec fn blocking_script(future: Object) -> Script<Result<bool, PyErr>> {
    ask_attribute(
        Call::GetAttrOpt { object: future, name: "_asyncio_future_blocking"@ },
        |found: Result<Option<Object>, PyErr>|
            match found {
                Err(error) => Script::End(Err(error)),
                Ok(None) => Script::End(Ok(false)),
                Ok(Some(mark)) => ask_truth(
                    Call::IsTruthy { object: mark },
                    |truth: Result<bool, PyErr>| Script::End(truth),
                ),
            },
    )
}

/// Has a future wake the task when it is done, and waits for it.
pub open spec fn watch_script(
    coroutine: Object,
    future: Object,
    waker: Waker,
    known: Option<Object>,
) -> Script<TurnEnd> {
    ask_value(
        Call::NewCallable { callback: Callback::Wake(waker) },
        |made: Result<Object, PyErr>|
            match made {
                Err(error) => raised(error, known),
                Ok(callback) => ask_value(
                    Call::Method {
                        object: future,
                        name: "add_done_callback"@,
                        args: seq![callback],
                    },
                    |added: Result<Object, PyErr>|
                        match added {
                            Err(error) => raised(error, known),
                            Ok(_) => pending(
                                State::Blocked { coroutine, blocked_on: future },
                                known,
                            ),
                        },
                ),
            },
    )
}

/// Takes the mark off a future, and waits for it.
pub open spec fn block_script(
    coroutine: Object,
    future: Object,
    waker: Waker,
    known: Option<Object>,
) -> Script<TurnEnd> {
    ask_status(
        Call::SetAttr { object: future, name: "_asyncio_future_blocking"@, value: false },
        |done: Result<(), PyErr>|
            match done {
                Err(error) => raised(error, known),
                Ok(_) => watch_script(coroutine, future, waker, known),
            },
    )
}

/// Goes on when it is known whether a yielded future is being blocked on.
pub open spec fn after_blocking(
    coroutine: Object,
    future: Object,
    waker: Waker,
    known: Option<Object>,
) -> spec_fn(Result<bool, PyErr>) -> Script<TurnEnd> {
    |answer: Result<bool, PyErr>|
        match blocking_verdict(answer) {
            Err(fault) => Script::End((Err(fault), known)),
            Ok(_) => block_script(coroutine, future, waker, known),
        }
}

/// Goes on when it is known whether a yielded object is a future.
pub open spec fn after_is_future(coroutine: Object, yielded: Object, waker: Waker) -> spec_fn(
    (Result<bool, PyErr>, Option<Object>),
) -> Script<TurnEnd> {
    |answer: (Result<bool, PyErr>, Option<Object>)|
        match future_verdict(answer.0) {
            Err(fault) => Script::End((Err(fault), answer.1)),
            Ok(_) => chain(
                blocking_script(yielded),
                after_blocking(coroutine, yielded, waker, answer.1),
            ),
        }
}

/// A coroutine yielded: `None` asks for another turn, a future is waited for.
pub open spec fn yielded_script(
    coroutine: Object,
    yielded: Object,
    waker: Waker,
    known: Option<Object>,
) -> Script<TurnEnd> {
    if is_python_none(yielded) {
        ask_only(
            Call::Wake { waker },
            pending(State::ToSend { coroutine, to_send: Ok(yielded) }, known),
        )
    } else {
        chain(is_future_script(known, yielded), after_is_future(coroutine, yielded, waker))
    }
}

/// A coroutine returned: its value is read off the `StopIteration` and, where
/// the awaitable is a future, set as its result. The value is the outcome, whatever
/// the future makes of it.
pub open spec fn returned_script(
    awaitable: Object,
    is_future: bool,
    stop_iteration: PyErr,
    known: Option<Object>,
) -> Script<TurnEnd> {
    ask_value(
        Call::GetAttr { object: exception_object(stop_iteration), name: "value"@ },
        |found: Result<Object, PyErr>|
            match found {
                Err(error) => raised(error, known),
                Ok(value) => if is_future {
                    ask_only(
                        Call::Method { object: awaitable, name: "set_result"@, args: seq![value] },
                        ready(value, known),
                    )
                } else {
                    ready(value, known)
                },
            },
    )
}

/// A coroutine raised: where the awaitable is a future, the exception is set on
/// it. The exception is the outcome, whatever the future makes of it.
pub open spec fn raised_script(
    awaitable: Object,
    is_future: bool,
    error: PyErr,
    known: Option<Object>,
) -> Script<TurnEnd> {
    if is_future {
        ask_only(
            Call::Method {
                object: awaitable,
                name: "set_exception"@,
                args: seq![exception_object(error)],
            },
            raised(error, known),
        )
    } else {
        raised(error, known)
    }
}

/// Goes on by what resuming the coroutine has led to.
pub open spec fn resumed_script(
    awaitable: Object,
    is_future: bool,
    coroutine: Object,
    waker: Waker,
    known: Option<Object>,
    reply: Result<Object, PyErr>,
) -> Script<TurnEnd> {
    match reply {
        Ok(yielded) => yielded_script(coroutine, yielded, waker, known),
        Err(error) => if is_stop_iteration(error) {
            returned_script(awaitable, is_future, error, known)
        } else {
            raised_script(awaitable, is_future, error, known)
        },
    }
}

/// Resumes the coroutine, and goes on by what that has led to.
pub open spec fn resume_script(
    awaitable: Object,
    is_future: bool,
    coroutine: Object,
    to_send: Result<Object, PyErr>,
    waker: Waker,
    known: Option<Object>,
) -> Script<TurnEnd> {
    ask_value(
        resume_call(coroutine, to_send),
        |reply: Result<Object, PyErr>|
            resumed_script(awaitable, is_future, coroutine, waker, known, reply),
    )
}

/// A turn that resumes the coroutine. An exception is thrown with its traceback.
pub open spec fn send_script(
    awaitable: Object,
    is_future: bool,
    coroutine: Object,
    to_send: Result<Object, PyErr>,
    waker: Waker,
    known: Option<Object>,
) -> Script<TurnEnd> {
    let resume = resume_script(awaitable, is_future, coroutine, to_send, waker, known);
    match to_send {
        Ok(_) => resume,
        Err(error) => ask_only(Call::ExceptionToThrow { error }, resume),
    }
}

/// The first turn: obtains the coroutine and resumes it with `None`.
pub open spec fn init_script(
    awaitable: Object,
    is_future: bool,
    waker: Waker,
    known: Option<Object>,
) -> Script<TurnEnd> {
    ask_value(
        Call::Method { object: awaitable, name: "__await__"@, args: seq![] },
        |reply: Result<Object, PyErr>|
            match reply {
                Err(error) => raised(error, known),
                Ok(coroutine) => ask_value(
                    Call::NoneObject,
                    |none: Result<Object, PyErr>|
                        send_script(awaitable, is_future, coroutine, none, waker, known),
                ),
            },
    )
}

/// A turn that looks after the future that the coroutine waits for. While that
/// is not done, it is told whom to wake now; then its outcome is to be sent.
pub open spec fn blocked_script(
    coroutine: Object,
    blocked_on: Object,
    waker: Waker,
    known: Option<Object>,
) -> Script<TurnEnd> {
    ask_value(
        Call::Method { object: blocked_on, name: "done"@, args: seq![] },
        |reply: Result<Object, PyErr>|
            match reply {
                Err(error) => raised(error, known),
                Ok(done) => ask_truth(
                    Call::IsTruthy { object: done },
                    |truth: Result<bool, PyErr>|
                        match truth {
                            Err(error) => raised(error, known),
                            Ok(false) => watch_script(coroutine, blocked_on, waker, known),
                            Ok(true) => ask_value(
                                Call::Method { object: blocked_on, name: "result"@, args: seq![] },
                                |outcome: Result<Object, PyErr>|
                                    ask_only(
                                        Call::Wake { waker },
                                        pending(
                                            State::ToSend { coroutine, to_send: outcome },
                                            known,
                                        ),
                                    ),
                            ),
                        },
                ),
            },
    )
}

/// One turn of an awaitable.
pub open spec fn turn_script(this: AwaitableView, waker: Waker, known: Option<Object>) -> Script<
    TurnEnd,
> {
    match this.state {
        State::Init => init_script(this.awaitable, this.is_future, waker, known),
        State::ToSend { coroutine, to_send } => send_script(
            this.awaitable,
            this.is_future,
            coroutine,
            to_send,
            waker,
            known,
        ),
        State::Blocked { coroutine, blocked_on } => blocked_script(
            coroutine,
            blocked_on,
            waker,
            known,
        ),
        State::Complete => Script::Broken,
    }
}

/// A poll of an awaitable. Ends in the state that it leaves, in what it returns,
/// and in what is then known of `asyncio.futures.isfuture`.
pub open spec fn poll_script(this: AwaitableView, waker: Waker, known: Option<Object>) -> Script<
    ((State<Object, PyErr>, Progress<Result<Object, Fault<PyErr>>>), Option<Object>),
> {
    chain(turn_script(this, waker, known), conclusion_script())
}

/// Concludes a poll.
pub open spec fn conclusion_script() -> spec_fn(TurnEnd) -> Script<
    ((State<Object, PyErr>, Progress<Result<Object, Fault<PyErr>>>), Option<Object>),
> {
    |end: TurnEnd| Script::End((conclusion(end.0), end.1))
}

/// A turn of an awaitable, or why it failed.
type TurnResult = Result<Turn<Object, PyErr>, Fault<PyErr>>;

/// Whether a future is marked as being blocked on.
fn is_blocking(session: &mut Session<'_>, future: &Object) -> (reply: Result<bool, PyErr>)
    ensures
        played(blocking_script(*future), old(session).log(), final(session).log(), reply),
        final(session).functions() == old(session).functions(),
{
    match session.getattr_opt(future, "_asyncio_future_blocking") {
        Err(error) => Err(error),
        Ok(None) => Ok(false),
        Ok(Some(mark)) => session.is_truthy(&mark),
    }
}

/// Has a future wake the task when it is done, and waits for it.
fn watch(session: &mut Session<'_>, coroutine: Object, future: Object, waker: &Waker) -> (turn:
    TurnResult)
    ensures
        played(
            watch_script(coroutine, future, *waker, old(session).functions().isfuture),
            old(session).log(),
            final(session).log(),
            (turn, final(session).functions().isfuture),
        ),
        final(session).functions() == old(session).functions(),
{
    let callback = match session.new_callable(Callback::Wake(python::clone_waker(waker))) {
        Err(error) => return Err(Fault::Python(error)),
        Ok(callback) => callback,
    };
    if let Err(error) = session.call_method1(&future, "add_done_callback", &callback) {
        return Err(Fault::Python(error));
    }
    Ok(
        Turn {
            state: State::Blocked { coroutine, blocked_on: future },
            progress: Progress::Pending,
        },
    )
}

/// Takes the mark off a future, and waits for it.
fn block_on(session: &mut Session<'_>, coroutine: Object, future: Object, waker: &Waker) -> (turn:
    TurnResult)
    ensures
        played(
            block_script(coroutine, future, *waker, old(session).functions().isfuture),
            old(session).log(),
            final(session).log(),
            (turn, final(session).functions().isfuture),
        ),
        final(session).functions() == old(session).functions(),
{
    let ghost start = session.log();
    let ghost script = block_script(coroutine, future, *waker, session.functions().isfuture);
    if let Err(error) = session.setattr(&future, "_asyncio_future_blocking", false) {
        return Err(Fault::Python(error));
    }
    let ghost before = session.log();
    let turn = watch(session, coroutine, future, waker);
    proof {
        lemma_follow_from_join(script, before, session.log(), start.len() as int);
    }
    turn
}

/// A turn in which the coroutine yielded.
fn turn_from_yield(
    session: &mut Session<'_>,
    coroutine: Object,
    yielded: Object,
    waker: &Waker,
) -> (turn: TurnResult)
    ensures
        played(
            yielded_script(coroutine, yielded, *waker, old(session).functions().isfuture),
            old(session).log(),
            final(session).log(),
            (turn, final(session).functions().isfuture),
        ),
        final(session).functions().get_running_loop == old(session).functions().get_running_loop,
{
    if session.is_none(&yielded) {
        session.wake(waker);
        return Ok(
            Turn {
                state: State::ToSend { coroutine, to_send: Ok(yielded) },
                progress: Progress::Pending,
            },
        );
    }
    let ghost start = session.log();
    let ghost known = session.functions().isfuture;
    let ghost script = yielded_script(coroutine, yielded, *waker, known);
    let answer = is_future(session, &yielded);
    proof {
        lemma_played_within(
            script,
            start.len() as int,
            is_future_script(known, yielded),
            after_is_future(coroutine, yielded, *waker),
            start,
            session.log(),
            (answer, session.functions().isfuture),
        );
    }
    if let Err(fault) = require_future(answer) {
        return Err(fault);
    }
    let ghost before = session.log();
    let ghost known = session.functions().isfuture;
    let answer = is_blocking(session, &yielded);
    proof {
        lemma_played_within(
            script,
            start.len() as int,
            blocking_script(yielded),
            after_blocking(coroutine, yielded, *waker, known),
            before,
            session.log(),
            answer,
        );
    }
    if let Err(fault) = require_blocking(answer) {
        return Err(fault);
    }
    let ghost before = session.log();
    let turn = block_on(session, coroutine, yielded, waker);
    proof {
        lemma_follow_from_join(script, before, session.log(), start.len() as int);
    }
    turn
}

/// A turn in which the coroutine returned.
fn turn_from_return(
    session: &mut Session<'_>,
    awaitable: &Object,
    is_future: bool,
    stop_iteration: &PyErr,
) -> (turn: TurnResult)
    ensures
        played(
            returned_script(
                *awaitable,
                is_future,
                *stop_iteration,
                old(session).functions().isfuture,
            ),
            old(session).log(),
            final(session).log(),
            (turn, final(session).functions().isfuture),
        ),
        final(session).functions() == old(session).functions(),
{
    let exception = session.exception_value(stop_iteration);
    let value = match session.getattr(&exception, "value") {
        Err(error) => return Err(Fault::Python(error)),
        Ok(value) => value,
    };
    if is_future {
        let _ = session.call_method1(awaitable, "set_result", &value);
    }
    Ok(Turn { state: State::Complete, progress: Progress::Ready(value) })
}

/// A turn in which the coroutine raised.
fn turn_from_raise(session: &mut Session<'_>, awaitable: &Object, is_future: bool, error: PyErr)
    -> (turn: TurnResult)
    ensures
        played(
            raised_script(*awaitable, is_future, error, old(session).functions().isfuture),
            old(session).log(),
            final(session).log(),
            (turn, final(session).functions().isfuture),
        ),
        final(session).functions() == old(session).functions(),
{
    if is_future {
        let exception = session.exception_value(&error);
        let _ = session.call_method1(awaitable, "set_exception", &exception);
    }
    Err(Fault::Python(error))
}

/// A turn that resumes the coroutine.
fn turn_from_send(
    session: &mut Session<'_>,
    awaitable: &Object,
    is_future: bool,
    coroutine: Object,
    to_send: Result<Object, PyErr>,
    waker: &Waker,
) -> (turn: TurnResult)
    ensures
        played(
            send_script(
                *awaitable,
                is_future,
                coroutine,
                to_send,
                *waker,
                old(session).functions().isfuture,
            ),
            old(session).log(),
            final(session).log(),
            (turn, final(session).functions().isfuture),
        ),
        final(session).functions().get_running_loop == old(session).functions().get_running_loop,
{
    let ghost start = session.log();
    let ghost script = send_script(
        *awaitable,
        is_future,
        coroutine,
        to_send,
        *waker,
        session.functions().isfuture,
    );
    let reply = match &to_send {
        Ok(value) => session.call_method1(&coroutine, "send", value),
        Err(error) => {
            let exception = session.exception_to_throw(error);
            session.call_method1(&coroutine, "throw", &exception)
        },
    };
    let ghost before = session.log();
    let turn = match reply {
        Ok(yielded) => turn_from_yield(session, coroutine, yielded, waker),
        Err(error) => if session.stops_iteration(&error) {
            turn_from_return(session, awaitable, is_future, &error)
        } else {
            turn_from_raise(session, awaitable, is_future, error)
        },
    };
    proof {
        lemma_follow_from_join(script, before, session.log(), start.len() as int);
    }
    turn
}

/// The first turn.
fn turn_from_init(
    session: &mut Session<'_>,
    awaitable: &Object,
    is_future: bool,
    waker: &Waker,
) -> (turn: TurnResult)
    ensures
        played(
            init_script(*awaitable, is_future, *waker, old(session).functions().isfuture),
            old(session).log(),
            final(session).log(),
            (turn, final(session).functions().isfuture),
        ),
        final(session).functions().get_running_loop == old(session).functions().get_running_loop,
{
    let ghost start = session.log();
    let ghost script = init_script(*awaitable, is_future, *waker, session.functions().isfuture);
    let coroutine = match session.call_method0(awaitable, "__await__") {
        Err(error) => return Err(Fault::Python(error)),
        Ok(coroutine) => coroutine,
    };
    let none = session.none();
    let ghost before = session.log();
    let turn = turn_from_send(session, awaitable, is_future, coroutine, Ok(none), waker);
    proof {
        lemma_follow_from_join(script, before, session.log(), start.len() as int);
    }
    turn
}

/// A turn that looks after the future that the coroutine waits for.
fn turn_from_blocked(
    session: &mut Session<'_>,
    coroutine: Object,
    blocked_on: Object,
    waker: &Waker,
) -> (turn: TurnResult)
    ensures
        played(
            blocked_script(coroutine, blocked_on, *waker, old(session).functions().isfuture),
            old(session).log(),
            final(session).log(),
            (turn, final(session).functions().isfuture),
        ),
        final(session).functions() == old(session).functions(),
{
    let ghost start = session.log();
    let ghost script = blocked_script(
        coroutine,
        blocked_on,
        *waker,
        session.functions().isfuture,
    );
    let done = match session.call_method0(&blocked_on, "done") {
        Err(error) => return Err(Fault::Python(error)),
        Ok(done) => done,
    };
    let is_done = match session.is_truthy(&done) {
        Err(error) => return Err(Fault::Python(error)),
        Ok(is_done) => is_done,
    };
    if !is_done {
        let ghost before = session.log();
        let turn = watch(session, coroutine, blocked_on, waker);
        proof {
            lemma_follow_from_join(script, before, session.log(), start.len() as int);
        }
        return turn;
    }
    let to_send = session.call_method0(&blocked_on, "result");
    session.wake(waker);
    Ok(Turn { state: State::ToSend { coroutine, to_send }, progress: Progress::Pending })
}

/// A Python awaitable that is driven from Rust.
///
/// Made with [`PyAwaitable::try_from`] of an object that has an `__await__`
/// method, and driven with [`PyAwaitable::poll`]. If the object is also an
/// `asyncio` future, completion and cancellation are propagated back to it.
pub struct PyAwaitable {
    awaitable: Object,
    is_future: bool,
    state: State<Object, PyErr>,
}

impl View for PyAwaitable {
    type V = AwaitableView;

    closed spec fn view(&self) -> AwaitableView {
        AwaitableView { awaitable: self.awaitable, is_future: self.is_future, state: self.state }
    }
}

/// Accepts an object that can be awaited. Ends in the awaitable, and in what is
/// then known of `asyncio.futures.isfuture`.
pub open spec fn try_from_script(awaitable: Object, known: Option<Object>) -> Script<
    (Result<AwaitableView, Fault<PyErr>>, Option<Object>),
> {
    ask_truth(
        Call::HasAttr { object: awaitable, name: "__await__"@ },
        |answer: Result<bool, PyErr>|
            match awaitable_verdict(answer) {
                Err(fault) => Script::End((Err(fault), known)),
                Ok(_) => chain(is_future_script(known, awaitable), accepted(awaitable)),
            },
    )
}

/// Accepts an object once it is known whether it is a future.
pub open spec fn accepted(awaitable: Object) -> spec_fn(
    (Result<bool, PyErr>, Option<Object>),
) -> Script<(Result<AwaitableView, Fault<PyErr>>, Option<Object>)> {
    |answer: (Result<bool, PyErr>, Option<Object>)|
        match answer.0 {
            Err(error) => Script::End((Err(Fault::Python(error)), answer.1)),
            Ok(is_future) => Script::End(
                (Ok(AwaitableView { awaitable, is_future, state: State::Init }), answer.1),
            ),
        }
}

/// The view of an awaitable that may not have come about.
pub open spec fn view_of(result: Result<PyAwaitable, Fault<PyErr>>) -> Result<
    AwaitableView,
    Fault<PyErr>,
> {
    match result {
        Ok(awaitable) => Ok(awaitable@),
        Err(fault) => Err(fault),
    }
}

/// Gives up on an awaitable: unless it is complete, its coroutine is closed, if
/// it has one, and a future is cancelled. What comes of either is ignored.
pub open spec fn abandon_script(this: AwaitableView) -> Script<()> {
    match this.state {
        State::Complete => Script::End(()),
        State::Init => cancel_script(this),
        State::ToSend { coroutine, .. } | State::Blocked { coroutine, .. } => ask_only(
            Call::Method { object: coroutine, name: "close"@, args: seq![] },
            cancel_script(this),
        ),
    }
}

/// Cancels an awaitable that is a future.
pub open spec fn cancel_script(this: AwaitableView) -> Script<()> {
    if this.is_future {
        ask_only(
            Call::Method { object: this.awaitable, name: "cancel"@, args: seq![] },
            Script::End(()),
        )
    } else {
        Script::End(())
    }
}

impl PyAwaitable {
    /// Takes on a Python object, if it can be awaited.
    pub fn try_from(session: &mut Session<'_>, awaitable: Object) -> (result: Result<
        Self,
        Fault<PyErr>,
    >)
        ensures
            played(
                try_from_script(awaitable, old(session).functions().isfuture),
                old(session).log(),
                final(session).log(),
                (view_of(result), final(session).functions().isfuture),
            ),
            result matches Ok(taken) ==> {
                &&& taken@.awaitable == awaitable
                &&& taken@.state is Init
                &&& final(session).log().last().reply == Reply::Truth(Ok(taken@.is_future))
            },
            final(session).functions().get_running_loop == old(
                session,
            ).functions().get_running_loop,
    {
        let ghost start = session.log();
        let ghost known = session.functions().isfuture;
        let answer = session.hasattr(&awaitable, "__await__");
        if let Err(fault) = require_awaitable(answer) {
            return Err(fault);
        }
        let ghost before = session.log();
        let answer = is_future(session, &awaitable);
        proof {
            lemma_played_within(
                try_from_script(awaitable, known),
                start.len() as int,
                is_future_script(known, awaitable),
                accepted(awaitable),
                before,
                session.log(),
                (answer, session.functions().isfuture),
            );
        }
        proof {
            law_played_is_run(
                is_future_script(known, awaitable),
                before,
                session.log(),
                (answer, session.functions().isfuture),
            );
            law_isfuture_decides(
                known,
                awaitable,
                session.log().skip(before.len() as int),
                answer,
                session.functions().isfuture,
            );
        }
        match answer {
            Err(error) => Err(Fault::Python(error)),
            Ok(is_future) => Ok(PyAwaitable { awaitable, is_future, state: State::Init }),
        }
    }

    /// Whether the awaitable has come to an end.
    pub fn is_complete(&self) -> (complete: bool)
        ensures
            complete == (self@.state is Complete),
    {
        match &self.state {
            State::Complete => true,
            _ => false,
        }
    }

    /// Polls the awaitable: takes one turn and, unless that was the last, arranges for
    /// `waker` to be woken when the next one is due.
    ///
    /// A turn resumes the coroutine; the first one obtains it before that. While the
    /// coroutine waits for a future, a turn looks whether the future is done instead, and
    /// fetches its outcome for the next turn if it is.
    pub fn poll(&mut self, session: &mut Session<'_>, waker: &Waker) -> (out: Progress<
        Result<Object, Fault<PyErr>>,
    >)
        requires
            old(self)@.state !is Complete,
        ensures
            final(self)@.awaitable == old(self)@.awaitable,
            final(self)@.is_future == old(self)@.is_future,
            played(
                poll_script(old(self)@, *waker, old(session).functions().isfuture),
                old(session).log(),
                final(session).log(),
                ((final(self)@.state, out), final(session).functions().isfuture),
            ),
            final(session).functions().get_running_loop == old(
                session,
            ).functions().get_running_loop,
    {
        let ghost this = self@;
        let ghost start = session.log();
        let ghost known = session.functions().isfuture;
        let mut state = State::Complete;
        std::mem::swap(&mut state, &mut self.state);
        let turn = match state {
            State::Init => turn_from_init(session, &self.awaitable, self.is_future, waker),
            State::ToSend { coroutine, to_send } => turn_from_send(
                session,
                &self.awaitable,
                self.is_future,
                coroutine,
                to_send,
                waker,
            ),
            State::Blocked { coroutine, blocked_on } => turn_from_blocked(
                session,
                coroutine,
                blocked_on,
                waker,
            ),
            State::Complete => vstd::pervasive::unreached(),
        };
        proof {
            lemma_played_within(
                poll_script(this, *waker, known),
                start.len() as int,
                turn_script(this, *waker, known),
                conclusion_script(),
                start,
                session.log(),
                (turn, session.functions().isfuture),
            );
        }
        let (state, out) = conclude(turn);
        self.state = state;
        out
    }

    /// Gives up on the awaitable, when it is dropped.
    pub fn abandon(&self, session: &mut Session<'_>)
        ensures
            played(abandon_script(self@), old(session).log(), final(session).log(), ()),
            final(session).functions() == old(session).functions(),
            self@.state is Complete ==> final(session).log() == old(session).log(),
    {
        match &self.state {
            State::Complete => return ,
            State::Init => {},
            State::ToSend { coroutine, .. } => {
                let _ = session.call_method0(coroutine, "close");
            },
            State::Blocked { coroutine, .. } => {
                let _ = session.call_method0(coroutine, "close");
            },
        }
        if self.is_future {
            let _ = session.call_method0(&self.awaitable, "cancel");
        }
    }
}

} // verus!

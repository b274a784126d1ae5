//! Rust futures as Python coroutines.

use crate::asyncio::{get_running_loop_fn, get_running_loop_script};
use crate::callback::Callback;
use crate::outcome::{Exit, Progress};
use crate::python::{amounts_to, is_python_none, Object};
use crate::script::{
    ask_error, ask_only, ask_poll, ask_status, ask_value, chain, group_follow,
    lemma_follow_from_join, lemma_played_within, lemma_prefix, played, Call, Event, Script,
};
use crate::session::Session;
use pyo3::PyErr;
use vstd::prelude::*;

verus! {

broadcast use group_follow;

/// What wakes a coroutine that runs under an event loop: a Python future,
/// resolved by way of the loop, so that the loop knows to resume the coroutine.
pub struct PyFutureWaker {
    pub event_loop: Object,
    pub future: Object,
}

/// Has the event loop resolve the future. Fails only if the callback cannot be
/// made; what comes of scheduling it is ignored.
pub open spec fn wake_script(waker: PyFutureWaker) -> Script<Result<(), PyErr>> {
    ask_value(
        Call::NewCallable { callback: Callback::SetResult(waker.future) },
        |made: Result<Object, PyErr>|
            match made {
                Err(error) => Script::End(Err(error)),
                Ok(callback) => ask_value(
                    Call::NoneObject,
                    |none: Result<Object, PyErr>|
                        ask_only(
                            Call::Method {
                                object: waker.event_loop,
                                name: "call_soon_threadsafe"@,
                                args: seq![callback, none->Ok_0],
                            },
                            Script::End(Ok(())),
                        ),
                ),
            },
    )
}

impl PyFutureWaker {
    /// Has the event loop resolve the future.
    pub fn wake_by_ref(&self, session: &mut Session<'_>) -> (result: Result<(), PyErr>)
        ensures
            played(wake_script(*self), old(session).log(), final(session).log(), result),
            final(session).log().len() > old(session).log().len(),
            result is Ok <==> final(session).log()[old(
                session,
            ).log().len() as int].reply->Value_0 is Ok,
            final(session).functions() == old(session).functions(),
    {
        let callback = match session.new_callable(
            Callback::SetResult(session.clone_ref(&self.future)),
        ) {
            Err(error) => return Err(error),
            Ok(callback) => callback,
        };
        let none = session.none();
        let _ = session.call_method2(&self.event_loop, "call_soon_threadsafe", &callback, &none);
        Ok(())
    }

    /// A waker of the same future.
    pub(crate) fn clone_ref(&self, session: &Session<'_>) -> (same: Self)
        ensures
            same == *self,
    {
        PyFutureWaker {
            event_loop: session.clone_ref(&self.event_loop),
            future: session.clone_ref(&self.future),
        }
    }
}

/// How a coroutine leaves `send` when its future is ready.
pub open spec fn exit_of<O, E>(result: Result<O, E>) -> Exit<O, E> {
    match result {
        Ok(value) => Exit::Returned(value),
        Err(error) => Exit::Raised(error),
    }
}

/// Leaves `send` with what the future came to.
pub fn leave<O, E>(result: Result<O, E>) -> (exit: Exit<O, E>)
    ensures
        exit == exit_of(result),
{
    match result {
        Ok(value) => Exit::Returned(value),
        Err(error) => Exit::Raised(error),
    }
}

/// Cancels a future, if there is one. What comes of it is ignored.
pub open spec fn release_script(waker_future: Option<Object>) -> Script<()> {
    match waker_future {
        Some(future) => ask_only(
            Call::Method { object: future, name: "cancel"@, args: seq![] },
            Script::End(()),
        ),
        None => Script::End(()),
    }
}

/// Cancels a future, if there is one, and raises `exception`.
pub open spec fn throw_script(waker_future: Option<Object>, exception: Object) -> Script<PyErr> {
    chain(release_script(waker_future), after_released(exception))
}

/// Makes an error of the exception.
pub open spec fn after_released(exception: Object) -> spec_fn(()) -> Script<PyErr> {
    |_released: ()|
        ask_error(Call::ErrorFrom { object: exception }, |error: PyErr| Script::End(error))
}

/// Makes the waker for one poll under `event_loop`: a fresh future of the loop,
/// marked as being blocked on.
pub open spec fn new_waker_script(event_loop: Object) -> Script<Result<PyFutureWaker, PyErr>> {
    ask_value(
        Call::Method { object: event_loop, name: "create_future"@, args: seq![] },
        |made: Result<Object, PyErr>|
            match made {
                Err(error) => Script::End(Err(error)),
                Ok(future) => ask_status(
                    Call::SetAttr {
                        object: future,
                        name: "_asyncio_future_blocking"@,
                        value: true,
                    },
                    |set: Result<(), PyErr>|
                        match set {
                            Err(error) => Script::End(Err(error)),
                            Ok(_) => Script::End(Ok(PyFutureWaker { event_loop, future })),
                        },
                ),
            },
    )
}

fn new_waker(session: &mut Session<'_>, event_loop: Object) -> (result: Result<
    PyFutureWaker,
    PyErr,
>)
    ensures
        played(new_waker_script(event_loop), old(session).log(), final(session).log(), result),
        final(session).functions() == old(session).functions(),
{
    let future = match session.call_method0(&event_loop, "create_future") {
        Err(error) => return Err(error),
        Ok(future) => future,
    };
    if let Err(error) = session.setattr(&future, "_asyncio_future_blocking", true) {
        return Err(error);
    }
    Ok(PyFutureWaker { event_loop, future })
}

fn release(session: &mut Session<'_>, waker_future: Option<Object>)
    ensures
        played(release_script(waker_future), old(session).log(), final(session).log(), ()),
        final(session).functions() == old(session).functions(),
{
    if let Some(future) = &waker_future {
        let _ = session.call_method0(future, "cancel");
    }
}

/// The waker for a poll, if an event loop is running, and what is then known of
/// `asyncio.get_running_loop`.
pub type PrepareEnd = (Result<Option<PyFutureWaker>, PyErr>, Option<Object>);

/// Gets ready for a poll: cancels the future of the poll before, and makes a
/// fresh one if an event loop is running.
pub open spec fn prepare_script(waker_future: Option<Object>, known: Option<Object>) -> Script<
    PrepareEnd,
> {
    chain(release_script(waker_future), after_release(known))
}

/// Looks for the running event loop.
pub open spec fn after_release(known: Option<Object>) -> spec_fn(()) -> Script<PrepareEnd> {
    |_released: ()| chain(get_running_loop_script(known), after_get_running_loop())
}

/// Makes a waker if there is a running event loop.
pub open spec fn after_get_running_loop() -> spec_fn(Result<Object, PyErr>) -> Script<PrepareEnd> {
    |found: Result<Object, PyErr>|
        match found {
            Err(error) => Script::End((Err(error), None)),
            Ok(function) => ask_value(
                Call::Invoke { callee: function, args: seq![] },
                |running: Result<Object, PyErr>|
                    match running {
                        Err(_) => Script::End((Ok(None), Some(function))),
                        Ok(event_loop) => chain(
                            new_waker_script(event_loop),
                            after_new_waker(function),
                        ),
                    },
            ),
        }
}

/// Hands a fresh waker out.
pub open spec fn after_new_waker(function: Object) -> spec_fn(
    Result<PyFutureWaker, PyErr>,
) -> Script<PrepareEnd> {
    |made: Result<PyFutureWaker, PyErr>|
        match made {
            Err(error) => Script::End((Err(error), Some(function))),
            Ok(waker) => Script::End((Ok(Some(waker)), Some(function))),
        }
}

fn prepare(session: &mut Session<'_>, waker_future: Option<Object>) -> (result: Result<
    Option<PyFutureWaker>,
    PyErr,
>)
    ensures
        played(
            prepare_script(waker_future, old(session).functions().get_running_loop),
            old(session).log(),
            final(session).log(),
            (result, final(session).functions().get_running_loop),
        ),
        final(session).functions().isfuture == old(session).functions().isfuture,
{
    let ghost start = session.log();
    let ghost known = session.functions().get_running_loop;
    let ghost script = prepare_script(waker_future, known);
    release(session, waker_future);
    proof {
        lemma_played_within(
            script,
            start.len() as int,
            release_script(waker_future),
            after_release(known),
            start,
            session.log(),
            (),
        );
    }
    let ghost before = session.log();
    let found = get_running_loop_fn(session);
    proof {
        lemma_played_within(
            script,
            start.len() as int,
            get_running_loop_script(known),
            after_get_running_loop(),
            before,
            session.log(),
            found,
        );
    }
    let function = match found {
        Err(error) => return Err(error),
        Ok(function) => function,
    };
    let event_loop = match session.call0(&function) {
        Err(_) => return Ok(None),
        Ok(event_loop) => event_loop,
    };
    let ghost before = session.log();
    let made = new_waker(session, event_loop);
    proof {
        lemma_played_within(
            script,
            start.len() as int,
            new_waker_script(event_loop),
            after_new_waker(function),
            before,
            session.log(),
            made,
        );
    }
    match made {
        Err(error) => Err(error),
        Ok(waker) => Ok(Some(waker)),
    }
}

/// What a poll of the future has led to: what `send` returns, and the future
/// that is to wake the coroutine.
pub type FinishEnd = (Result<Object, Exit<Object, PyErr>>, Option<Object>);

/// Goes on by what polling the future has brought. A coroutine that is to be
/// resumed yields the future of its waker, or `None` if it has none; one that
/// has come to an end cancels that future.
pub open spec fn finish_script(
    waker: Option<PyFutureWaker>,
    polled: Progress<Result<Object, PyErr>>,
) -> Script<FinishEnd> {
    match (polled, waker) {
        (Progress::Ready(result), Some(waker)) => ask_value(
            Call::Method { object: waker.future, name: "cancel"@, args: seq![] },
            |cancelled: Result<Object, PyErr>|
                match cancelled {
                    Err(error) => Script::End((Err(Exit::Raised(error)), None)),
                    Ok(_) => Script::End((Err(exit_of(result)), None)),
                },
        ),
        (Progress::Ready(result), None) => Script::End((Err(exit_of(result)), None)),
        (Progress::Pending, Some(waker)) => Script::End((Ok(waker.future), Some(waker.future))),
        (Progress::Pending, None) => ask_value(
            Call::NoneObject,
            |none: Result<Object, PyErr>| Script::End((Ok(none->Ok_0), None)),
        ),
    }
}

/// A coroutine as the contracts see it.
pub struct CoroutineView<F> {
    /// The future that it drives, until that has come to an end.
    pub future: Option<F>,
    /// The Python future by which the last poll may wake it.
    pub waker_future: Option<Object>,
}

/// How a `send` comes out.
pub struct SendEnd {
    /// What it returns.
    pub reply: Result<Object, Exit<Object, PyErr>>,
    /// The Python future by which the poll may wake the coroutine.
    pub waker_future: Option<Object>,
    /// What is then known of `asyncio.get_running_loop`.
    pub known: Option<Object>,
}

/// Resumes a coroutine that has not come to an end.
pub open spec fn send_script(waker_future: Option<Object>, known: Option<Object>) -> Script<
    SendEnd,
> {
    chain(prepare_script(waker_future, known), after_prepare())
}

/// Polls the future.
pub open spec fn after_prepare() -> spec_fn(PrepareEnd) -> Script<SendEnd> {
    |prepared: PrepareEnd|
        match prepared.0 {
            Err(error) => Script::End(
                SendEnd { reply: Err(Exit::Raised(error)), waker_future: None, known: prepared.1 },
            ),
            Ok(waker) => ask_poll(
                Call::Poll { using: waker },
                |polled: Progress<Result<Object, PyErr>>|
                    chain(finish_script(waker, polled), after_finish(prepared.1)),
            ),
        }
}

/// Ends a `send`.
pub open spec fn after_finish(known: Option<Object>) -> spec_fn(FinishEnd) -> Script<SendEnd> {
    |end: FinishEnd| Script::End(SendEnd { reply: end.0, waker_future: end.1, known })
}

/// The event is a call of `poll` on `future`, which gave `kept` back.
pub open spec fn polled_by<F, P>(poll: P, future: F, event: Event, kept: F) -> bool where
    P: FnOnce(F, Option<PyFutureWaker>) -> (F, Progress<Result<Object, PyErr>>),
 {
    &&& event.call is Poll
    &&& event.reply is Polled
    &&& call_ensures(poll, (future, event.call->using), (kept, event.reply->Polled_0))
}

/// Getting ready for the poll raised what `send` leaves with, so that there was
/// no poll.
pub open spec fn unprepared(
    prepare: Script<PrepareEnd>,
    before: Seq<Event>,
    after: Seq<Event>,
    reply: Result<Object, Exit<Object, PyErr>>,
    known: Option<Object>,
) -> bool {
    reply matches Err(Exit::Raised(error)) && played(prepare, before, after, (Err(error), known))
}

/// A `send` that is under way: the future is to be polled.
pub struct Started<F> {
    /// The future.
    pub future: F,
    /// The waker to poll it with; without one, it is polled with a waker that
    /// does nothing.
    pub waker: Option<PyFutureWaker>,
}

/// A Python coroutine that drives a Rust future.
///
/// When an `asyncio` event loop is running, wake-ups go through a Python future,
/// so that the event loop resumes the coroutine only when the Rust waker fires.
pub struct RustCoroutine<F> {
    future: Option<F>,
    waker_future: Option<Object>,
}

impl<F> View for RustCoroutine<F> {
    type V = CoroutineView<F>;

    closed spec fn view(&self) -> CoroutineView<F> {
        CoroutineView { future: self.future, waker_future: self.waker_future }
    }
}

impl<F> RustCoroutine<F> {
    /// Wraps a future.
    pub fn new(future: F) -> (coroutine: Self)
        ensures
            coroutine@ == (CoroutineView { future: Some(future), waker_future: None }),
    {
        RustCoroutine { future: Some(future), waker_future: None }
    }

    /// The first half of `send`: everything up to the poll of the future, which
    /// the coroutine lets go of.
    pub fn begin_send(&mut self, session: &mut Session<'_>) -> (result: Result<
        Started<F>,
        Exit<Object, PyErr>,
    >)
        ensures
            old(self)@.future is None ==> {
                &&& result == Err::<Started<F>, Exit<Object, PyErr>>(Exit::Exhausted)
                &&& final(self)@ == old(self)@
                &&& *final(session) == *old(session)
            },
            old(self)@.future matches Some(future) ==> {
                &&& final(self)@ == (CoroutineView { future: None::<F>, waker_future: None })
                &&& played(
                    prepare_script(
                        old(self)@.waker_future,
                        old(session).functions().get_running_loop,
                    ),
                    old(session).log(),
                    final(session).log(),
                    (
                        match result {
                            Ok(started) => Ok(started.waker),
                            Err(exit) => Err(exit->Raised_0),
                        },
                        final(session).functions().get_running_loop,
                    ),
                )
                &&& match result {
                    Ok(started) => started.future == future,
                    Err(exit) => exit is Raised,
                }
            },
            final(session).functions().isfuture == old(session).functions().isfuture,
    {
        let future = match self.future.take() {
            None => return Err(Exit::Exhausted),
            Some(future) => future,
        };
        let previous = self.waker_future.take();
        match prepare(session, previous) {
            Err(error) => Err(Exit::Raised(error)),
            Ok(waker) => Ok(Started { future, waker }),
        }
    }

    /// The second half of `send`: what becomes of the coroutine by what polling
    /// its future has brought.
    pub fn finish_send(
        &mut self,
        session: &mut Session<'_>,
        started: Started<F>,
        polled: Progress<Result<Object, PyErr>>,
    ) -> (reply: Result<Object, Exit<Object, PyErr>>)
        ensures
            played(
                finish_script(started.waker, polled),
                old(session).log(),
                final(session).log(),
                (reply, final(self)@.waker_future),
            ),
            final(self)@.future == (match polled {
                Progress::Ready(_) => None,
                Progress::Pending => Some(started.future),
            }),
            match (polled, started.waker) {
                (Progress::Ready(result), Some(waker)) => {
                    &&& final(session).log().len() == old(session).log().len() + 1
                    &&& final(session).log().last().call == (Call::Method {
                        object: waker.future,
                        name: "cancel"@,
                        args: seq![],
                    })
                    &&& reply == (match final(session).log().last().reply->Value_0 {
                        Err(error) => Err::<Object, _>(Exit::Raised(error)),
                        Ok(_) => Err(exit_of(result)),
                    })
                },
                (Progress::Ready(result), None) => {
                    &&& reply == Err::<Object, _>(exit_of(result))
                    &&& final(session).log() == old(session).log()
                },
                (Progress::Pending, Some(waker)) => {
                    &&& reply == Ok::<_, Exit<Object, PyErr>>(waker.future)
                    &&& final(session).log() == old(session).log()
                },
                (Progress::Pending, None) => reply matches Ok(none) && is_python_none(none),
            },
            final(session).functions() == old(session).functions(),
    {
        let Started { future, waker } = started;
        match polled {
            Progress::Ready(result) => {
                self.future = None;
                self.waker_future = None;
                if let Some(waker) = waker {
                    if let Err(error) = session.call_method0(&waker.future, "cancel") {
                        return Err(Exit::Raised(error));
                    }
                }
                Err(leave(result))
            },
            Progress::Pending => {
                self.future = Some(future);
                match waker {
                    Some(waker) => {
                        self.waker_future = Some(session.clone_ref(&waker.future));
                        Ok(waker.future)
                    },
                    None => {
                        self.waker_future = None;
                        Ok(session.none())
                    },
                }
            },
        }
    }

    /// Resumes the coroutine: polls its future by way of `poll`, which takes the
    /// future and the waker to poll it with, and gives the future back. The value
    /// that is sent is of no account.
    pub fn send<P>(&mut self, session: &mut Session<'_>, _value: &Object, poll: P) -> (reply:
        Result<Object, Exit<Object, PyErr>>) where
        P: FnOnce(F, Option<PyFutureWaker>) -> (F, Progress<Result<Object, PyErr>>),

        requires
            old(self)@.future matches Some(future) ==> forall|waker: Option<PyFutureWaker>|
                #[trigger] call_requires(poll, (future, waker)),
        ensures
            old(self)@.future is None ==> {
                &&& reply == Err::<Object, Exit<Object, PyErr>>(Exit::Exhausted)
                &&& final(self)@ == old(self)@
                &&& *final(session) == *old(session)
            },
            old(self)@.future is Some ==> {
                &&& played(
                    send_script(old(self)@.waker_future, old(session).functions().get_running_loop),
                    old(session).log(),
                    final(session).log(),
                    SendEnd {
                        reply,
                        waker_future: final(self)@.waker_future,
                        known: final(session).functions().get_running_loop,
                    },
                )
            },
            reply is Err ==> final(self)@.future is None,
            reply is Ok ==> final(self)@.future is Some,
            old(self)@.future is Some ==> {
                ||| unprepared(
                    prepare_script(
                        old(self)@.waker_future,
                        old(session).functions().get_running_loop,
                    ),
                    old(session).log(),
                    final(session).log(),
                    reply,
                    final(session).functions().get_running_loop,
                )
                ||| exists|at: int, kept: F|
                    {
                        &&& old(session).log().len() <= at < final(session).log().len()
                        &&& #[trigger] polled_by(
                            poll,
                            old(self)@.future->0,
                            final(session).log()[at],
                            kept,
                        )
                        &&& reply is Ok ==> final(self)@.future == Some(kept)
                    }
            },
            final(session).functions().isfuture == old(session).functions().isfuture,
    {
        let ghost start = session.log();
        let ghost known = session.functions().get_running_loop;
        let ghost waker_future = self@.waker_future;
        let ghost script = send_script(waker_future, known);
        let started = match self.begin_send(session) {
            Err(exit) => {
                proof {
                    if exit is Raised {
                        lemma_played_within(
                            script,
                            start.len() as int,
                            prepare_script(waker_future, known),
                            after_prepare(),
                            start,
                            session.log(),
                            (Err(exit->Raised_0), session.functions().get_running_loop),
                        );
                    }
                }
                return Err(exit);
            },
            Ok(started) => started,
        };
        proof {
            lemma_played_within(
                script,
                start.len() as int,
                prepare_script(waker_future, known),
                after_prepare(),
                start,
                session.log(),
                (Ok(started.waker), session.functions().get_running_loop),
            );
        }
        let Started { future, waker } = started;
        let used = match &waker {
            Some(waker) => Some(waker.clone_ref(session)),
            None => None,
        };
        let (future, polled) = session.poll_future(poll, future, used);
        let ghost before = session.log();
        let reply = self.finish_send(session, Started { future, waker }, polled);
        proof {
            lemma_played_within(
                script,
                start.len() as int,
                finish_script(waker, polled),
                after_finish(session.functions().get_running_loop),
                before,
                session.log(),
                (reply, self@.waker_future),
            );
            lemma_prefix(before, session.log());
            assert(polled_by(poll, old(self)@.future->0, session.log()[before.len() - 1], future));
        }
        reply
    }

    /// Resumes the coroutine as an iterator: sends `None`.
    pub fn next<P>(&mut self, session: &mut Session<'_>, poll: P) -> (reply: Result<
        Object,
        Exit<Object, PyErr>,
    >) where P: FnOnce(F, Option<PyFutureWaker>) -> (F, Progress<Result<Object, PyErr>>),

        requires
            old(self)@.future matches Some(future) ==> forall|waker: Option<PyFutureWaker>|
                #[trigger] call_requires(poll, (future, waker)),
        ensures
            old(self)@.future is None ==> {
                &&& reply == Err::<Object, Exit<Object, PyErr>>(Exit::Exhausted)
                &&& final(self)@ == old(self)@
                &&& played(
                    ask_only(Call::NoneObject, Script::End(())),
                    old(session).log(),
                    final(session).log(),
                    (),
                )
                &&& final(session).functions() == old(session).functions()
            },
            old(self)@.future is Some ==> {
                &&& played(
                    ask_only(
                        Call::NoneObject,
                        send_script(
                            old(self)@.waker_future,
                            old(session).functions().get_running_loop,
                        ),
                    ),
                    old(session).log(),
                    final(session).log(),
                    SendEnd {
                        reply,
                        waker_future: final(self)@.waker_future,
                        known: final(session).functions().get_running_loop,
                    },
                )
            },
            reply is Err ==> final(self)@.future is None,
            reply is Ok ==> final(self)@.future is Some,
            old(self)@.future is Some ==> {
                ||| unprepared(
                    ask_only(
                        Call::NoneObject,
                        prepare_script(
                            old(self)@.waker_future,
                            old(session).functions().get_running_loop,
                        ),
                    ),
                    old(session).log(),
                    final(session).log(),
                    reply,
                    final(session).functions().get_running_loop,
                )
                ||| exists|at: int, kept: F|
                    {
                        &&& old(session).log().len() <= at < final(session).log().len()
                        &&& #[trigger] polled_by(
                            poll,
                            old(self)@.future->0,
                            final(session).log()[at],
                            kept,
                        )
                        &&& reply is Ok ==> final(self)@.future == Some(kept)
                    }
            },
            final(session).functions().isfuture == old(session).functions().isfuture,
    {
        let ghost start = session.log();
        let ghost script = ask_only(
            Call::NoneObject,
            send_script(self@.waker_future, session.functions().get_running_loop),
        );
        let ghost prepare = ask_only(
            Call::NoneObject,
            prepare_script(self@.waker_future, session.functions().get_running_loop),
        );
        let none = session.none();
        let ghost before = session.log();
        let reply = self.send(session, &none, poll);
        proof {
            lemma_follow_from_join(script, before, session.log(), start.len() as int);
            lemma_follow_from_join(prepare, before, session.log(), start.len() as int);
        }
        reply
    }

    /// Ends the coroutine with an exception, which is raised in its place.
    pub fn throw(&mut self, session: &mut Session<'_>, exception: Object) -> (exit: Exit<
        Object,
        PyErr,
    >)
        ensures
            exit matches Exit::Raised(error) && {
                &&& played(
                    throw_script(old(self)@.waker_future, exception),
                    old(session).log(),
                    final(session).log(),
                    error,
                )
                &&& amounts_to(error, exception)
            },
            final(self)@ == (CoroutineView { future: None::<F>, waker_future: None }),
            final(session).functions() == old(session).functions(),
    {
        let waker_future = self.waker_future.take();
        let ghost start = session.log();
        release(session, waker_future);
        proof {
            lemma_played_within(
                throw_script(waker_future, exception),
                start.len() as int,
                release_script(waker_future),
                after_released(exception),
                start,
                session.log(),
                (),
            );
        }
        self.future = None;
        Exit::Raised(session.error_of(exception))
    }

    /// Ends the coroutine.
    pub fn close(&mut self, session: &mut Session<'_>)
        ensures
            final(self)@ == (CoroutineView { future: None::<F>, waker_future: None }),
            played(
                release_script(old(self)@.waker_future),
                old(session).log(),
                final(session).log(),
                (),
            ),
            final(session).functions() == old(session).functions(),
    {
        let waker_future = self.waker_future.take();
        release(session, waker_future);
        self.future = None;
    }
}

} // verus!

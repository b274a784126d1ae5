//! Laws of [`crate::PyAwaitable`].

use crate::asyncio::{get_running_loop_script, isfuture_script, remembered};
use crate::callback::{callback_script, Callback};
use crate::outcome::{Fault, Progress};
use crate::py_as_rs::{abandon_script, poll_script, resume_call, AwaitableView, State};
use crate::python::{
    exception_object, is_exception, is_python_none, is_stop_iteration, Object,
};
use crate::script::{always, chain, lemma_ran_always, ran, Call, Event, Reply, Script};
use pyo3::PyErr;
use std::task::Waker;
use vstd::prelude::*;

verus! {

/// How a poll comes out: the state that it leaves, and what it returns.
pub type PollEnd = (State<Object, PyErr>, Progress<Result<Object, Fault<PyErr>>>);

/// A run of [`crate::PyAwaitable::poll`].
pub struct PollRun {
    /// The awaitable before the poll.
    pub this: AwaitableView,
    /// The waker of the poll.
    pub waker: Waker,
    /// What was known of `asyncio.futures.isfuture`.
    pub known: Option<Object>,
    /// The calls that were made, with their answers.
    pub events: Seq<Event>,
    /// How the poll came out.
    pub end: PollEnd,
    /// What is then known of `asyncio.futures.isfuture`.
    pub known_after: Option<Object>,
}

impl PollRun {
    /// The events and the end are those of a poll.
    pub open spec fn valid(self) -> bool {
        ran(
            poll_script(self.this, self.waker, self.known),
            self.events,
            (self.end, self.known_after),
        )
    }

    /// The awaitable after the poll.
    pub open spec fn left(self) -> AwaitableView {
        AwaitableView { state: self.end.0, ..self.this }
    }
}

/// A poll is ready exactly when the awaitable is complete afterwards.
pub proof fn law_ready_is_complete(run: PollRun)
    requires
        run.valid(),
    ensures
        run.end.1 is Ready <==> run.end.0 is Complete,
{
    let script = poll_script(run.this, run.waker, run.known);
    let goal = |_events: Seq<Event>, end: (PollEnd, Option<Object>)|
        end.0.1 is Ready <==> end.0.0 is Complete;
    assert(always(script, Seq::empty(), goal)) by {
        reveal_with_fuel(always, 17);
        reveal_with_fuel(chain, 17);
    }
    lemma_ran_always(script, run.events, goal, (run.end, run.known_after));
}

/// The task of `waker` is woken exactly once, and no other is.
pub open spec fn wakes_once(events: Seq<Event>, waker: Waker) -> bool {
    exists|i: int| #[trigger] only_wake(events, i, waker)
}

/// Event `i` wakes the task of `waker`, and no other event wakes a task.
pub open spec fn only_wake(events: Seq<Event>, i: int, waker: Waker) -> bool {
    &&& 0 <= i < events.len()
    &&& events[i].call == (Call::Wake { waker })
    &&& forall|j: int|
        0 <= j < events.len() && (#[trigger] events[j]).call is Wake ==> j == i
}

/// No task is woken.
pub open spec fn never_wakes(events: Seq<Event>) -> bool {
    forall|i: int| 0 <= i < events.len() ==> (#[trigger] events[i]).call !is Wake
}

/// Events `i` and `i + 1` have `future` wake `waker` when it is done.
pub open spec fn registers(events: Seq<Event>, i: int, waker: Waker, future: Object) -> bool {
    &&& events[i].call == (Call::NewCallable { callback: Callback::Wake(waker) })
    &&& events[i].reply matches Reply::Value(Ok(callback))
    &&& events[i + 1].call == (Call::Method {
        object: future,
        name: "add_done_callback"@,
        args: seq![callback],
    })
    &&& events[i + 1].reply is Value
    &&& events[i + 1].reply->Value_0 is Ok
}

/// The events have `future` wake `waker` when it is done.
pub open spec fn watches(events: Seq<Event>, waker: Waker, future: Object) -> bool {
    exists|i: int| 0 <= i < events.len() - 1 && #[trigger] registers(events, i, waker, future)
}

/// How [`law_pending_is_woken`] has it, at the positions where it happens.
spec fn woken(waker: Waker) -> spec_fn(Seq<Event>, (PollEnd, Option<Object>)) -> bool {
    |events: Seq<Event>, end: (PollEnd, Option<Object>)|
        end.0.1 is Pending ==> match end.0.0 {
            State::Blocked { blocked_on, .. } => {
                &&& events.len() > 1
                &&& registers(events, events.len() - 2, waker, blocked_on)
                &&& never_wakes(events)
            },
            _ => only_wake(events, events.len() - 1, waker),
        }
}

proof fn lemma_first_poll_wakes(this: AwaitableView, waker: Waker, known: Option<Object>)
    requires
        this.state is Init,
    ensures
        always(poll_script(this, waker, known), Seq::empty(), woken(waker)),
{
    reveal_with_fuel(always, 17);
    reveal_with_fuel(chain, 17);
}

proof fn lemma_later_poll_wakes(this: AwaitableView, waker: Waker, known: Option<Object>)
    requires
        this.state !is Init,
    ensures
        always(poll_script(this, waker, known), Seq::empty(), woken(waker)),
{
    reveal_with_fuel(always, 16);
    reveal_with_fuel(chain, 16);
}

/// No wake-up is lost, and there is no busy polling. A poll that is pending and leaves the
/// coroutine waiting for a future has told that future to wake the task of this very poll
/// when it is done, and wakes no task itself; one that is pending and waits for nothing has
/// woken its task, exactly once.
pub proof fn law_pending_is_woken(run: PollRun)
    requires
        run.valid(),
    ensures
        run.end.1 is Pending ==> match run.end.0 {
            State::Blocked { blocked_on, .. } => {
                &&& watches(run.events, run.waker, blocked_on)
                &&& never_wakes(run.events)
            },
            _ => wakes_once(run.events, run.waker),
        },
{
    let script = poll_script(run.this, run.waker, run.known);
    if run.this.state is Init {
        lemma_first_poll_wakes(run.this, run.waker, run.known);
    } else {
        lemma_later_poll_wakes(run.this, run.waker, run.known);
    }
    lemma_ran_always(script, run.events, woken(run.waker), (run.end, run.known_after));
}

/// The callable that a poll leaves with a future wakes the task of that poll when the future
/// calls it, exactly once a call, and does nothing else.
pub proof fn law_done_callback_wakes(
    waker: Waker,
    future: Object,
    events: Seq<Event>,
    accepted: bool,
)
    requires
        ran(callback_script(Callback::Wake(waker), Some(future)), events, accepted),
    ensures
        accepted,
        events.len() == 1,
        wakes_once(events, waker),
{
    let script = callback_script(Callback::Wake(waker), Some(future));
    let goal = |events: Seq<Event>, accepted: bool|
        {
            &&& accepted
            &&& events.len() == 1
            &&& only_wake(events, 0, waker)
        };
    assert(always(script, Seq::empty(), goal)) by {
        reveal_with_fuel(always, 3);
    }
    lemma_ran_always(script, events, goal, accepted);
}

/// A coroutine being resumed in the course of a poll.
pub struct Resumption {
    /// The coroutine.
    pub coroutine: Object,
    /// What it was resumed with: a value to send or an exception to throw.
    pub to_send: Result<Object, PyErr>,
    /// What it yielded, or what it raised.
    pub reply: Result<Object, PyErr>,
}

/// Which event of a poll resumes the coroutine: the first one, unless the coroutine, or the
/// exception to be thrown into it, must be obtained before that.
pub open spec fn resume_at(state: State<Object, PyErr>) -> int {
    match state {
        State::Init => 2,
        State::ToSend { to_send: Err(_), .. } => 1,
        _ => 0,
    }
}

/// How a poll resumes the coroutine, if it does.
pub open spec fn resumption(run: PollRun) -> Option<Resumption> {
    match run.this.state {
        State::Init => if run.events.len() > 2 {
            Some(
                Resumption {
                    coroutine: run.events[0].reply->Value_0->Ok_0,
                    to_send: run.events[1].reply->Value_0,
                    reply: run.events[2].reply->Value_0,
                },
            )
        } else {
            None
        },
        State::ToSend { coroutine, to_send } => Some(
            Resumption {
                coroutine,
                to_send,
                reply: run.events[resume_at(run.this.state)].reply->Value_0,
            },
        ),
        _ => None,
    }
}

/// Whether the event resumes a coroutine.
pub open spec fn resumes(event: Event) -> bool {
    event.call matches Call::Method { name, .. } && (name == "send"@ || name == "throw"@)
}

/// Whether the event obtains a coroutine.
pub open spec fn awaits(event: Event) -> bool {
    event.call matches Call::Method { name, .. } && name == "__await__"@
}

/// The events of a poll up to the one that resumes the coroutine, if there is one.
pub open spec fn opening(this: AwaitableView, events: Seq<Event>, end: PollEnd) -> bool {
    match this.state {
        State::Init => {
            &&& events.len() > 0
            &&& events[0].call == (Call::Method {
                object: this.awaitable,
                name: "__await__"@,
                args: seq![],
            })
            &&& match events[0].reply->Value_0 {
                Err(error) => {
                    &&& events.len() == 1
                    &&& end.1 == Progress::Ready(Err::<Object, Fault<PyErr>>(Fault::Python(error)))
                },
                Ok(coroutine) => {
                    &&& events.len() > 2
                    &&& events[1].call is NoneObject
                    &&& events[1].reply matches Reply::Value(Ok(none))
                    &&& is_python_none(none)
                    &&& events[2].call == resume_call(coroutine, Ok(none))
                    &&& events[2].reply is Value
                },
            }
        },
        State::ToSend { coroutine, to_send } => {
            let at = resume_at(this.state);
            &&& events.len() > at
            &&& to_send matches Err(error) ==> {
                &&& events[0].call == (Call::ExceptionToThrow { error })
                &&& events[0].reply == Reply::Value(Ok(exception_object(error)))
                &&& is_exception(exception_object(error))
            }
            &&& events[at].call == resume_call(coroutine, to_send)
            &&& events[at].reply is Value
        },
        _ => true,
    }
}

proof fn lemma_names_differ()
    ensures
        "send"@ != "done"@,
        "send"@ != "result"@,
        "send"@ != "__await__"@,
        "send"@ != "add_done_callback"@,
        "send"@ != "set_result"@,
        "send"@ != "set_exception"@,
        "throw"@ != "done"@,
        "throw"@ != "result"@,
        "throw"@ != "__await__"@,
        "throw"@ != "add_done_callback"@,
        "throw"@ != "set_result"@,
        "throw"@ != "set_exception"@,
        "__await__"@ != "done"@,
        "__await__"@ != "result"@,
        "__await__"@ != "add_done_callback"@,
        "__await__"@ != "set_result"@,
        "__await__"@ != "set_exception"@,
{
    reveal_strlit("send");
    reveal_strlit("throw");
    reveal_strlit("done");
    reveal_strlit("result");
    reveal_strlit("__await__");
    reveal_strlit("add_done_callback");
    reveal_strlit("set_result");
    reveal_strlit("set_exception");
    assert("send"@.len() == 4 && "throw"@.len() == 5 && "__await__"@.len() == 9);
    assert("result"@.len() == 6 && "set_result"@.len() == 10 && "set_exception"@.len() == 13);
    assert("send"@[0] == 's' && "done"@[0] == 'd');
}

/// No event but the one at [`resume_at`] resumes a coroutine, and none but the first obtains
/// one; and those only in the states in which that is due.
pub open spec fn resumes_once(this: AwaitableView, events: Seq<Event>) -> bool {
    &&& forall|i: int|
        0 <= i < events.len() && #[trigger] resumes(events[i]) ==> {
            &&& this.state is Init || this.state is ToSend
            &&& i == resume_at(this.state)
        }
    &&& forall|i: int|
        0 <= i < events.len() && #[trigger] awaits(events[i]) ==> this.state is Init && i == 0
}

/// A poll resumes the coroutine exactly once, unless the coroutine waits for a future or
/// cannot be obtained; then it does not. The first poll obtains the coroutine, exactly
/// once, and sends it `None`; no other poll obtains one. An exception is thrown with its
/// traceback attached.
pub proof fn law_poll_resumes_once(run: PollRun)
    requires
        run.valid(),
    ensures
        opening(run.this, run.events, run.end),
        resumes_once(run.this, run.events),
        resumption(run) matches Some(resumed) ==> {
            &&& resume_at(run.this.state) < run.events.len()
            &&& run.events[resume_at(run.this.state)].call == resume_call(
                resumed.coroutine,
                resumed.to_send,
            )
            &&& resumes(run.events[resume_at(run.this.state)])
        },
{
    lemma_names_differ();
    let script = poll_script(run.this, run.waker, run.known);
    let this = run.this;
    let goal = |events: Seq<Event>, end: (PollEnd, Option<Object>)|
        opening(this, events, end.0) && resumes_once(this, events);
    assert(always(script, Seq::empty(), goal)) by {
        reveal_with_fuel(always, 17);
        reveal_with_fuel(chain, 17);
    }
    lemma_ran_always(script, run.events, goal, (run.end, run.known_after));
}

/// Where the coroutine returned, its value is read and, if the awaitable is a
/// future, set as its result; the awaitable is ready with the value.
pub open spec fn return_is_passed_on(
    this: AwaitableView,
    events: Seq<Event>,
    end: PollEnd,
) -> bool {
    let at = resume_at(this.state);
    events[at].reply matches Reply::Value(Err(error)) ==> is_stop_iteration(error) ==> {
        &&& events.len() > at + 1
        &&& events[at + 1].call == (Call::GetAttr {
            object: exception_object(error),
            name: "value"@,
        })
        &&& events[at + 1].reply is Value
        &&& match events[at + 1].reply->Value_0 {
            Err(other) => {
                &&& events.len() == at + 2
                &&& end.1 == Progress::Ready(Err::<Object, Fault<PyErr>>(Fault::Python(other)))
            },
            Ok(value) => {
                &&& end.1 == Progress::Ready(Ok::<Object, Fault<PyErr>>(value))
                &&& if this.is_future {
                    &&& events.len() == at + 3
                    &&& events[at + 2].call == (Call::Method {
                        object: this.awaitable,
                        name: "set_result"@,
                        args: seq![value],
                    })
                } else {
                    events.len() == at + 2
                }
            },
        }
    }
}

/// Where the coroutine raised, its exception is set on an awaitable that is a
/// future; the awaitable fails with the exception.
pub open spec fn raise_is_passed_on(
    this: AwaitableView,
    events: Seq<Event>,
    end: PollEnd,
) -> bool {
    let at = resume_at(this.state);
    events[at].reply matches Reply::Value(Err(error)) ==> !is_stop_iteration(error) ==> {
        &&& end.1 == Progress::Ready(Err::<Object, Fault<PyErr>>(Fault::Python(error)))
        &&& if this.is_future {
            &&& events.len() == at + 2
            &&& events[at + 1].call == (Call::Method {
                object: this.awaitable,
                name: "set_exception"@,
                args: seq![exception_object(error)],
            })
        } else {
            events.len() == at + 1
        }
    }
}

/// Where the coroutine yielded `None`, the awaitable is pending, and `None` is to be sent
/// back. Where it yielded anything else, the awaitable is pending only if that is a future
/// that is now waited for, with the mark taken off.
pub open spec fn yield_is_waited_for(
    this: AwaitableView,
    coroutine: Object,
    events: Seq<Event>,
    end: PollEnd,
) -> bool {
    let at = resume_at(this.state);
    events[at].reply matches Reply::Value(Ok(yielded)) ==> if is_python_none(yielded) {
        &&& end.1 is Pending
        &&& end.0 == (State::<Object, PyErr>::ToSend { coroutine, to_send: Ok(yielded) })
    } else {
        end.1 is Pending ==> {
            &&& end.0 == (State::<Object, PyErr>::Blocked { coroutine, blocked_on: yielded })
            &&& events.len() > at + 3
            &&& events[events.len() - 3].call == (Call::SetAttr {
                object: yielded,
                name: "_asyncio_future_blocking"@,
                value: false,
            })
            &&& events[events.len() - 3].reply->Status_0 is Ok
        }
    }
}

/// How [`law_outcome_is_passed_on`] has it, of a poll that resumes the coroutine.
spec fn passed_on(this: AwaitableView) -> spec_fn(
    Seq<Event>,
    (PollEnd, Option<Object>),
) -> bool {
    |events: Seq<Event>, end: (PollEnd, Option<Object>)|
        events.len() > resume_at(this.state) ==> {
            let coroutine = match this.state {
                State::ToSend { coroutine, .. } => coroutine,
                _ => events[0].reply->Value_0->Ok_0,
            };
            &&& return_is_passed_on(this, events, end.0)
            &&& raise_is_passed_on(this, events, end.0)
            &&& yield_is_waited_for(this, coroutine, events, end.0)
        }
}

proof fn lemma_first_poll_passes_on(this: AwaitableView, waker: Waker, known: Option<Object>)
    requires
        this.state is Init,
    ensures
        always(poll_script(this, waker, known), Seq::empty(), passed_on(this)),
{
    reveal_with_fuel(always, 17);
    reveal_with_fuel(chain, 17);
}

proof fn lemma_send_passes_on(this: AwaitableView, waker: Waker, known: Option<Object>)
    requires
        this.state is ToSend,
        this.state->to_send is Ok,
    ensures
        always(poll_script(this, waker, known), Seq::empty(), passed_on(this)),
{
    reveal_with_fuel(always, 15);
    reveal_with_fuel(chain, 15);
}

proof fn lemma_throw_passes_on(this: AwaitableView, waker: Waker, known: Option<Object>)
    requires
        this.state is ToSend,
        this.state->to_send is Err,
    ensures
        always(poll_script(this, waker, known), Seq::empty(), passed_on(this)),
{
    reveal_with_fuel(always, 16);
    reveal_with_fuel(chain, 16);
}

/// A poll that resumes the coroutine passes the outcome on: what the coroutine returns or
/// raises is the output of the awaitable, and is set on it if it is a future, whatever that
/// makes of it; what it yields is waited for.
pub proof fn law_outcome_is_passed_on(run: PollRun)
    requires
        run.valid(),
        resumption(run) is Some,
    ensures
        return_is_passed_on(run.this, run.events, run.end),
        raise_is_passed_on(run.this, run.events, run.end),
        yield_is_waited_for(run.this, resumption(run)->0.coroutine, run.events, run.end),
{
    law_poll_resumes_once(run);
    match run.this.state {
        State::Init => lemma_first_poll_passes_on(run.this, run.waker, run.known),
        State::ToSend { to_send: Ok(_), .. } => lemma_send_passes_on(
            run.this,
            run.waker,
            run.known,
        ),
        _ => lemma_throw_passes_on(run.this, run.waker, run.known),
    }
    lemma_ran_always(
        poll_script(run.this, run.waker, run.known),
        run.events,
        passed_on(run.this),
        (run.end, run.known_after),
    );
}

/// An awaitable is ready with a value only if its coroutine was resumed and returned
/// that value.
pub proof fn law_value_was_returned(run: PollRun)
    requires
        run.valid(),
    ensures
        run.end.1 matches Progress::Ready(Ok(value)) ==> {
            &&& resumption(run) matches Some(resumed)
            &&& resumed.reply matches Err(error)
            &&& is_stop_iteration(error)
            &&& run.events[resume_at(run.this.state) + 1].call == (Call::GetAttr {
                object: exception_object(error),
                name: "value"@,
            })
            &&& run.events[resume_at(run.this.state) + 1].reply == Reply::Value(Ok(value))
        },
{
    let script = poll_script(run.this, run.waker, run.known);
    let this = run.this;
    let at = resume_at(run.this.state);
    let goal = |events: Seq<Event>, end: (PollEnd, Option<Object>)|
        end.0.1 matches Progress::Ready(Ok(value)) ==> {
            &&& this.state is Init || this.state is ToSend
            &&& events.len() > at + 1
            &&& events[at].reply matches Reply::Value(Err(error))
            &&& is_stop_iteration(error)
            &&& events[at + 1].call == (Call::GetAttr {
                object: exception_object(error),
                name: "value"@,
            })
            &&& events[at + 1].reply == Reply::Value(Ok(value))
        };
    assert(always(script, Seq::empty(), goal)) by {
        reveal_with_fuel(always, 17);
        reveal_with_fuel(chain, 17);
    }
    lemma_ran_always(script, run.events, goal, (run.end, run.known_after));
}

/// The poll found that `future` is done, and then fetched `outcome` from it.
pub open spec fn fetches(run: PollRun, future: Object, outcome: Result<Object, PyErr>) -> bool {
    &&& run.end.1 is Pending
    &&& run.events.len() == 4
    &&& run.events[0].call == (Call::Method { object: future, name: "done"@, args: seq![] })
    &&& run.events[0].reply matches Reply::Value(Ok(done))
    &&& run.events[1].call == (Call::IsTruthy { object: done })
    &&& run.events[1].reply == Reply::Truth(Ok(true))
    &&& run.events[2].call == (Call::Method { object: future, name: "result"@, args: seq![] })
    &&& run.events[2].reply == Reply::Value(outcome)
}

/// While the coroutine waits for a future, a poll does not resume it. It leaves the
/// coroutine waiting, or has fetched the outcome of a future that is done, which is to be
/// sent next, or fails with what Python raised.
pub proof fn law_waiting_leaves_the_coroutine_alone(run: PollRun)
    requires
        run.valid(),
        run.this.state is Blocked,
    ensures
        forall|i: int| 0 <= i < run.events.len() ==> !#[trigger] resumes(run.events[i]),
        match run.end.0 {
            State::Blocked { .. } => run.end.0 == run.this.state && run.end.1 is Pending,
            State::ToSend { coroutine, to_send } => {
                &&& coroutine == run.this.state->Blocked_coroutine
                &&& fetches(run, run.this.state->blocked_on, to_send)
            },
            State::Complete => run.end.1 matches Progress::Ready(Err(Fault::Python(_))),
            State::Init => false,
        },
{
    law_poll_resumes_once(run);
    let script = poll_script(run.this, run.waker, run.known);
    let this = run.this;
    let goal = |events: Seq<Event>, end: (PollEnd, Option<Object>)|
        match end.0.0 {
            State::Blocked { .. } => end.0.0 == this.state && end.0.1 is Pending,
            State::ToSend { coroutine, to_send } => {
                &&& coroutine == this.state->Blocked_coroutine
                &&& fetches(PollRun { events, end: end.0, ..run }, this.state->blocked_on, to_send)
            },
            State::Complete => end.0.1 matches Progress::Ready(Err(Fault::Python(_))),
            State::Init => false,
        };
    assert(always(script, Seq::empty(), goal)) by {
        reveal_with_fuel(always, 8);
        reveal_with_fuel(chain, 8);
    }
    lemma_ran_always(script, run.events, goal, (run.end, run.known_after));
}

/// The runs are the polls of one awaitable from the first on, in their order.
pub open spec fn one_life(runs: Seq<PollRun>) -> bool
    decreases runs.len(),
{
    runs.len() > 0 ==> {
        let earlier = runs.drop_last();
        &&& one_life(earlier)
        &&& runs.last().valid()
        &&& if earlier.len() == 0 {
            runs.last().this.state is Init
        } else {
            runs.last().this == earlier.last().left()
        }
    }
}

/// The polls that resume the coroutine: their positions, in order.
pub open spec fn resuming(runs: Seq<PollRun>) -> Seq<int>
    decreases runs.len(),
{
    if runs.len() == 0 {
        Seq::empty()
    } else {
        let earlier = resuming(runs.drop_last());
        if resumption(runs.last()) is Some {
            earlier.push(runs.len() - 1)
        } else {
            earlier
        }
    }
}

/// How often the coroutine yielded.
pub open spec fn yields(runs: Seq<PollRun>) -> nat
    decreases runs.len(),
{
    if runs.len() == 0 {
        0
    } else {
        let earlier = yields(runs.drop_last());
        match resumption(runs.last()) {
            Some(resumed) => if resumed.reply is Ok {
                earlier + 1
            } else {
                earlier
            },
            None => earlier,
        }
    }
}

/// `to_send` is due at poll `next` to a coroutine that yielded at poll `at`. What was
/// yielded as `None` is sent back, in the very next poll. Otherwise it is a future: in all
/// polls between, the coroutine waits for it, and in the last of them it was found done,
/// and `to_send` is what its `result` then returned or raised.
pub open spec fn due(
    runs: Seq<PollRun>,
    at: int,
    next: int,
    to_send: Result<Object, PyErr>,
) -> bool {
    &&& 0 <= at < next
    &&& resumption(runs[at]) matches Some(resumed)
    &&& resumed.reply matches Ok(yielded)
    &&& if is_python_none(yielded) {
        &&& next == at + 1
        &&& to_send == Ok::<Object, PyErr>(yielded)
    } else {
        &&& at + 1 < next
        &&& waits_for(runs, at + 1, next, resumed.coroutine, yielded)
        &&& fetches(runs[next - 1], yielded, to_send)
    }
}

/// In all polls from `start` up to `stop`, the coroutine waits for `future`.
pub open spec fn waits_for(
    runs: Seq<PollRun>,
    start: int,
    stop: int,
    coroutine: Object,
    future: Object,
) -> bool {
    forall|i: int|
        start <= i < stop ==> (#[trigger] runs[i]).this.state == (State::<
            Object,
            PyErr,
        >::Blocked { coroutine, blocked_on: future })
}

/// What holds of the polls of one awaitable, seen from the polls that resume it.
pub open spec fn driven(runs: Seq<PollRun>) -> bool {
    let at = resuming(runs);
    &&& forall|k: int| 0 <= k < at.len() ==> resumed_in_turn(runs, #[trigger] at[k], k)
    &&& yields(runs) <= at.len() <= yields(runs) + 1
    &&& at.len() > 0 ==> (resumption(runs[at.last()])->0.reply is Err <==> at.len() == yields(
        runs,
    ) + 1)
}

/// Poll `at` is the one that resumes the coroutine after `k` others.
///
/// It resumes the same coroutine as they do. The first of all is the first poll, and sends
/// `None`; the others send or throw what is due after the one before, which the coroutine
/// answered by yielding.
pub open spec fn resumed_in_turn(runs: Seq<PollRun>, at: int, k: int) -> bool {
    let order = resuming(runs);
    &&& 0 <= at < runs.len()
    &&& resumption(runs[at]) matches Some(resumed)
    &&& resumed.coroutine == resumption(runs[0])->0.coroutine
    &&& if k == 0 {
        &&& at == 0
        &&& resumed.to_send matches Ok(none)
        &&& is_python_none(none)
    } else {
        due(runs, order[k - 1], at, resumed.to_send)
    }
}

/// What the state after the polls says of them.
spec fn consistent(runs: Seq<PollRun>) -> bool {
    let order = resuming(runs);
    let last = order.last();
    runs.len() > 0 ==> match runs.last().end.0 {
        State::Init => false,
        State::Complete => true,
        State::ToSend { coroutine, to_send } => {
            &&& order.len() > 0
            &&& coroutine == resumption(runs[0])->0.coroutine
            &&& due(runs, last, runs.len() as int, to_send)
        },
        State::Blocked { coroutine, blocked_on } => {
            &&& order.len() > 0
            &&& coroutine == resumption(runs[0])->0.coroutine
            &&& resumption(runs[last])->0.reply == Ok::<Object, PyErr>(blocked_on)
            &&& resumption(runs[last]) is Some
            &&& !is_python_none(blocked_on)
            &&& waits_for(runs, last + 1, runs.len() as int, coroutine, blocked_on)
        },
    }
}

proof fn lemma_complete_is_not_polled(run: PollRun)
    requires
        run.valid(),
    ensures
        run.this.state !is Complete,
{
    if run.this.state is Complete {
        let script = poll_script(run.this, run.waker, run.known);
        let goal = |_events: Seq<Event>, _end: (PollEnd, Option<Object>)| false;
        lemma_ran_always(script, run.events, goal, (run.end, run.known_after));
    }
}

/// Where one poll leads to.
spec fn leads_on(run: PollRun) -> bool {
    match run.this.state {
        State::Complete => false,
        State::Blocked { coroutine, blocked_on } => match run.end.0 {
            State::Init => false,
            State::Blocked { .. } => run.end.0 == run.this.state,
            State::ToSend { coroutine: left, to_send } => left == coroutine && fetches(
                run,
                blocked_on,
                to_send,
            ),
            State::Complete => true,
        },
        _ => match resumption(run) {
            None => run.end.0 is Complete,
            Some(resumed) => {
                &&& run.this.state is Init ==> (resumed.to_send matches Ok(none)
                    && is_python_none(none))
                &&& match resumed.reply {
                    Err(_) => run.end.0 is Complete,
                    Ok(yielded) => {
                        ||| run.end.0 is Complete
                        ||| is_python_none(yielded) && run.end.0 == (State::<
                            Object,
                            PyErr,
                        >::ToSend { coroutine: resumed.coroutine, to_send: Ok(yielded) })
                        ||| !is_python_none(yielded) && run.end.0 == (State::<
                            Object,
                            PyErr,
                        >::Blocked { coroutine: resumed.coroutine, blocked_on: yielded })
                    },
                }
            },
        },
    }
}

proof fn lemma_leads_on(run: PollRun)
    requires
        run.valid(),
    ensures
        leads_on(run),
{
    lemma_complete_is_not_polled(run);
    law_ready_is_complete(run);
    law_poll_resumes_once(run);
    if run.this.state is Blocked {
        law_waiting_leaves_the_coroutine_alone(run);
    }
    if resumption(run) is Some {
        law_outcome_is_passed_on(run);
    }
}

/// The last run goes on where the ones before it left off.
spec fn goes_on(runs: Seq<PollRun>) -> bool {
    if runs.len() == 1 {
        runs.last().this.state is Init
    } else {
        runs.last().this == runs.drop_last().last().left()
    }
}

proof fn lemma_due_later(
    earlier: Seq<PollRun>,
    runs: Seq<PollRun>,
    at: int,
    next: int,
    to_send: Result<Object, PyErr>,
)
    requires
        runs.len() > 0,
        earlier == runs.drop_last(),
        next <= earlier.len(),
        due(earlier, at, next, to_send),
    ensures
        due(runs, at, next, to_send),
{
    assert forall|i: int| 0 <= i < earlier.len() implies #[trigger] runs[i] == earlier[i] by {}
}

proof fn lemma_last_order(runs: Seq<PollRun>)
    requires
        driven(runs),
        resuming(runs).len() > 0,
    ensures
        0 <= resuming(runs).last() < runs.len(),
        resumption(runs[resuming(runs).last()]) is Some,
        resumption(runs[resuming(runs).last()])->0.coroutine == resumption(runs[0])->0.coroutine,
        resumption(runs[resuming(runs).last()])->0.reply is Ok ==> resuming(runs).len() == yields(
            runs,
        ),
{
    let order = resuming(runs);
    assert(resumed_in_turn(runs, order[order.len() - 1], order.len() - 1));
}

proof fn lemma_driven_step(runs: Seq<PollRun>)
    requires
        runs.len() > 0,
        driven(runs.drop_last()),
        consistent(runs.drop_last()),
        leads_on(runs.last()),
        goes_on(runs),
    ensures
        driven(runs),
{
    let earlier = runs.drop_last();
    let run = runs.last();
    let order = resuming(earlier);
    let now = resuming(runs);
    let n = runs.len() as int;
    if order.len() > 0 {
        lemma_last_order(earlier);
    }
    if earlier.len() == 0 {
        assert(order == Seq::<int>::empty());
    }
    assert forall|k: int| 0 <= k < now.len() implies resumed_in_turn(
        runs,
        #[trigger] now[k],
        k,
    ) by {
        if k < order.len() {
            assert(now[k] == order[k]);
            assert(resumed_in_turn(earlier, order[k], k));
            assert(runs[order[k]] == earlier[order[k]]);
            assert(runs[0] == earlier[0]);
            if k > 0 {
                assert(now[k - 1] == order[k - 1]);
                lemma_due_later(
                    earlier,
                    runs,
                    order[k - 1],
                    order[k],
                    resumption(earlier[order[k]])->0.to_send,
                );
            }
        } else {
            assert(now[k] == n - 1);
            if run.this.state is ToSend {
                assert(runs[0] == earlier[0]);
                assert(now[k - 1] == order.last());
                lemma_due_later(earlier, runs, order.last(), n - 1, run.this.state->to_send);
            }
        }
    }
    if resumption(run) is Some {
        assert(now.last() == n - 1);
    } else if order.len() > 0 {
        assert(runs[order.last()] == earlier[order.last()]);
    }
}

proof fn lemma_consistent_step(runs: Seq<PollRun>)
    requires
        runs.len() > 0,
        driven(runs.drop_last()),
        consistent(runs.drop_last()),
        driven(runs),
        leads_on(runs.last()),
        goes_on(runs),
    ensures
        consistent(runs),
{
    let earlier = runs.drop_last();
    let run = runs.last();
    let order = resuming(earlier);
    let now = resuming(runs);
    let n = runs.len() as int;
    if resumption(run) is Some {
        assert(now.last() == n - 1);
        lemma_last_order(runs);
    } else if run.this.state is Blocked {
        lemma_last_order(earlier);
        assert(runs[order.last()] == earlier[order.last()]);
        assert(runs[0] == earlier[0]);
        let coroutine = run.this.state->Blocked_coroutine;
        let future = run.this.state->blocked_on;
        assert forall|i: int| order.last() + 1 <= i < n implies (#[trigger] runs[i]).this.state == (
        State::<Object, PyErr>::Blocked { coroutine, blocked_on: future }) by {
            if i < n - 1 {
                assert(runs[i] == earlier[i]);
            }
        }
    }
}

proof fn lemma_driven(runs: Seq<PollRun>)
    requires
        one_life(runs),
    ensures
        driven(runs),
        consistent(runs),
    decreases runs.len(),
{
    if runs.len() > 0 {
        lemma_driven(runs.drop_last());
        lemma_leads_on(runs.last());
        lemma_driven_step(runs);
        lemma_consistent_step(runs);
    }
}

/// A coroutine that is driven from Rust is resumed as the coroutine protocol has it, over
/// any number of polls, in whatever sessions they take place.
///
/// - All resumptions are of the one coroutine, and the first one sends `None`.
/// - Each of the others follows a yield, and sends or throws what is due after that: `None`
///   after `None`; after a future, what its `result` returned or raised, once it was found
///   done, and not before.
/// - Once the coroutine has returned or raised after `n` yields, it has been resumed `n + 1`
///   times; before that, as often as it has yielded.
pub proof fn law_coroutine_is_driven(runs: Seq<PollRun>)
    requires
        one_life(runs),
    ensures
        driven(runs),
{
    lemma_driven(runs);
}

/// An awaitable that is complete is not polled again: only the last poll is ready.
pub proof fn law_completion_is_last(runs: Seq<PollRun>, i: int)
    requires
        one_life(runs),
        0 <= i < runs.len(),
        runs[i].end.1 is Ready,
    ensures
        i == runs.len() - 1,
    decreases runs.len(),
{
    reveal_with_fuel(one_life, 2);
    let earlier = runs.drop_last();
    if i < runs.len() - 1 {
        assert(earlier[i] == runs[i]);
        law_completion_is_last(earlier, i);
        law_ready_is_complete(earlier.last());
        lemma_complete_is_not_polled(runs.last());
    }
}

/// The events close the coroutine, if there is one that has not come to an end, and then
/// cancel the awaitable, if it is a future that has not; there are no others.
pub open spec fn closes_and_cancels(this: AwaitableView, events: Seq<Event>) -> bool {
    let cancel = Call::Method { object: this.awaitable, name: "cancel"@, args: seq![] };
    match this.state {
        State::Complete => events.len() == 0,
        State::Init => if this.is_future {
            &&& events.len() == 1
            &&& events[0].call == cancel
        } else {
            events.len() == 0
        },
        State::ToSend { coroutine, .. } | State::Blocked { coroutine, .. } => {
            &&& events.len() == if this.is_future { 2int } else { 1 }
            &&& events[0].call == (Call::Method {
                object: coroutine,
                name: "close"@,
                args: seq![],
            })
            &&& this.is_future ==> events[1].call == cancel
        },
    }
}

/// Giving up on a complete awaitable does nothing. Otherwise its coroutine is closed,
/// if it has one, and then it is cancelled, if it is a future; nothing else is done.
pub proof fn law_abandon_cancels(this: AwaitableView, events: Seq<Event>)
    requires
        ran(abandon_script(this), events, ()),
    ensures
        closes_and_cancels(this, events),
{
    let goal = |events: Seq<Event>, _end: ()| closes_and_cancels(this, events);
    assert(always(abandon_script(this), Seq::empty(), goal)) by {
        reveal_with_fuel(always, 4);
    }
    lemma_ran_always(abandon_script(this), events, goal, ());
}

/// A function that was found is not looked up again.
pub proof fn law_found_functions_are_kept(reply: Result<Object, PyErr>)
    requires
        reply is Ok,
    ensures
        isfuture_script(remembered(reply)) == Script::End(reply),
        get_running_loop_script(remembered(reply)) == Script::End(reply),
{
}

} // verus!

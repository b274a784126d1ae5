//! Laws of [`crate::RustCoroutine`].

use crate::callback::{callback_script, Callback};
use crate::outcome::{Exit, Progress};
use crate::python::{amounts_to, is_python_none, Object};
use crate::rs_as_py::{
    exit_of, release_script, send_script, throw_script, wake_script, PyFutureWaker, SendEnd,
};
use crate::script::{always, chain, lemma_ran_always, ran, Call, Event, Reply};
use pyo3::PyErr;
use vstd::prelude::*;

verus! {

/// A run of [`crate::RustCoroutine::send`] on a coroutine that has not come to an end.
pub struct SendRun {
    /// The future by which the coroutine could be woken before.
    pub waker_future: Option<Object>,
    /// What was known of `asyncio.get_running_loop`.
    pub known: Option<Object>,
    /// The calls that were made, with their answers.
    pub events: Seq<Event>,
    /// How it came out.
    pub end: SendEnd,
}

impl SendRun {
    /// The events and the end are those of a `send`.
    pub open spec fn valid(self) -> bool {
        ran(send_script(self.waker_future, self.known), self.events, self.end)
    }
}

/// A run of [`crate::RustCoroutine::throw`].
pub struct ThrowRun {
    /// The future by which the coroutine could be woken before.
    pub waker_future: Option<Object>,
    /// What was thrown.
    pub exception: Object,
    /// The calls that were made, with their answers.
    pub events: Seq<Event>,
    /// What the coroutine raised.
    pub error: PyErr,
}

impl ThrowRun {
    /// The events and the error are those of a `throw`.
    pub open spec fn valid(self) -> bool {
        ran(throw_script(self.waker_future, self.exception), self.events, self.error)
    }
}

/// The call that cancels `future`.
pub open spec fn cancel_call(future: Object) -> Call {
    Call::Method { object: future, name: "cancel"@, args: seq![] }
}

/// Event `i` polls the Rust future, and what that brought is how the `send` comes out. A
/// coroutine whose future is pending yields. One whose future is ready with a result
/// leaves `send` with that result, once the future of its waker, if it has one, is
/// cancelled; what Python raises instead of cancelling, it raises.
pub open spec fn passes_on(events: Seq<Event>, i: int, end: SendEnd) -> bool {
    &&& 0 <= i < events.len()
    &&& events[i].call is Poll
    &&& events[i].reply is Polled
    &&& match (events[i].reply->Polled_0, events[i].call->using) {
        (Progress::Pending, _) => end.reply is Ok,
        (Progress::Ready(result), None) => {
            &&& i == events.len() - 1
            &&& end.reply == Err::<Object, _>(exit_of(result))
        },
        (Progress::Ready(result), Some(waker)) => {
            &&& i == events.len() - 2
            &&& events[i + 1].call == cancel_call(waker.future)
            &&& events[i + 1].reply is Value
            &&& end.reply == Err::<Object, _>(
                match events[i + 1].reply->Value_0 {
                    Ok(_) => exit_of(result),
                    Err(error) => Exit::Raised(error),
                },
            )
        },
    }
}

/// The Rust future is polled exactly once, and what that brought is passed on.
pub open spec fn polls_once(events: Seq<Event>, end: SendEnd) -> bool {
    exists|i: int| #[trigger] only_poll(events, i, end)
}

/// Event `i` polls the Rust future and is passed on, and no other event polls it.
pub open spec fn only_poll(events: Seq<Event>, i: int, end: SendEnd) -> bool {
    &&& passes_on(events, i, end)
    &&& forall|j: int|
        0 <= j < events.len() && (#[trigger] events[j]).call is Poll ==> j == i
}

/// Every `send` polls the Rust future exactly once and passes on what that brought, unless
/// what Python raised while getting ready for the poll is raised instead.
pub proof fn law_send_polls_once(run: SendRun)
    requires
        run.valid(),
    ensures
        polls_once(run.events, run.end) || {
            &&& run.end.reply matches Err(Exit::Raised(_))
            &&& run.end.waker_future is None
            &&& forall|i: int|
                0 <= i < run.events.len() ==> (#[trigger] run.events[i]).call !is Poll
        },
{
    let script = send_script(run.waker_future, run.known);
    let goal = |events: Seq<Event>, end: SendEnd|
        {
            ||| only_poll(events, events.len() - 1, end)
            ||| only_poll(events, events.len() - 2, end)
            ||| {
                &&& end.reply matches Err(Exit::Raised(_))
                &&& end.waker_future is None
                &&& forall|i: int|
                    0 <= i < events.len() ==> (#[trigger] events[i]).call !is Poll
            }
        };
    assert(always(script, Seq::empty(), goal)) by {
        reveal_with_fuel(always, 14);
        reveal_with_fuel(chain, 14);
    }
    lemma_ran_always(script, run.events, goal, run.end);
}

/// The `send` yielded what it may be woken by: a future, marked as being blocked on before
/// the poll, whose waker resolves it; or `None`, if it yielded and there is no such future.
pub open spec fn yields_its_waker(events: Seq<Event>, end: SendEnd) -> bool {
    match end.waker_future {
        Some(future) => {
            &&& end.reply == Ok::<Object, Exit<Object, PyErr>>(future)
            &&& events.len() > 1
            &&& marked(events[events.len() - 2]) == Some(future)
            &&& events.last().call is Poll
            &&& events.last().call->using matches Some(waker) && waker.future == future
        },
        None => end.reply matches Ok(yielded) ==> is_python_none(yielded),
    }
}

/// A coroutine that has a future to be woken by has just yielded that future, marked
/// as being blocked on, and its Rust future was polled with a waker that resolves it. One
/// that yields and has none yields `None`.
pub proof fn law_yielded_future_is_marked(run: SendRun)
    requires
        run.valid(),
    ensures
        yields_its_waker(run.events, run.end),
{
    let script = send_script(run.waker_future, run.known);
    let goal = |events: Seq<Event>, end: SendEnd| yields_its_waker(events, end);
    assert(always(script, Seq::empty(), goal)) by {
        reveal_with_fuel(always, 14);
        reveal_with_fuel(chain, 14);
    }
    lemma_ran_always(script, run.events, goal, run.end);
}

/// The future that the event marks as being blocked on.
pub open spec fn marked(event: Event) -> Option<Object> {
    match event.call {
        Call::SetAttr { object, name, value: true } => if name == "_asyncio_future_blocking"@
            && event.reply is Status && event.reply->Status_0 is Ok {
            Some(object)
        } else {
            None
        },
        _ => None,
    }
}

/// The events from `start` on cancel `future`.
pub open spec fn cancels(events: Seq<Event>, start: int, future: Object) -> bool {
    exists|i: int| start <= i < events.len() && #[trigger] events[i].call == cancel_call(future)
}

/// The future, if there is one, is `current`, or is cancelled from event `start` on.
pub open spec fn spared_or_cancelled(
    events: Seq<Event>,
    start: int,
    future: Option<Object>,
    current: Option<Object>,
) -> bool {
    future matches Some(future) ==> current == Some(future) || cancels(events, start, future)
}

/// Of the futures that the events mark as being blocked on, all but `current` have
/// been cancelled.
pub open spec fn settled(events: Seq<Event>, current: Option<Object>) -> bool {
    forall|i: int|
        0 <= i < events.len() ==> spared_or_cancelled(
            events,
            i,
            #[trigger] marked(events[i]),
            current,
        )
}

proof fn lemma_cancels_later(past: Seq<Event>, events: Seq<Event>, start: int, future: Object)
    requires
        cancels(past, start, future),
        0 <= start,
    ensures
        cancels(past + events, start, future),
{
    let i = choose|i: int|
        start <= i < past.len() && #[trigger] past[i].call == cancel_call(future);
    assert((past + events)[i] == past[i]);
}

/// The first event cancels the future, if there is one, and none marks a future.
spec fn releases(waker_future: Option<Object>, events: Seq<Event>) -> bool {
    &&& waker_future matches Some(future) ==> events.len() > 0 && events[0].call == cancel_call(
        future,
    )
    &&& forall|i: int| 0 <= i < events.len() ==> (#[trigger] marked(events[i])) is None
}

proof fn lemma_settles(past: Seq<Event>, waker_future: Option<Object>, events: Seq<Event>)
    requires
        settled(past, waker_future),
        releases(waker_future, events),
    ensures
        settled(past + events, None),
{
    let all = past + events;
    assert forall|i: int| 0 <= i < all.len() implies spared_or_cancelled(
        all,
        i,
        #[trigger] marked(all[i]),
        None,
    ) by {
        if let Some(future) = marked(all[i]) {
            if i < past.len() {
                assert(marked(past[i]) == Some(future));
                if waker_future == Some(future) {
                    assert(all[past.len() as int] == events[0]);
                } else {
                    lemma_cancels_later(past, events, i, future);
                }
            } else {
                assert(marked(events[i - past.len()]) is Some);
            }
        }
    }
}

/// Closing a coroutine leaves none of its futures that is not cancelled, whatever has
/// happened before, in this session and in others.
pub proof fn law_close_settles(past: Seq<Event>, waker_future: Option<Object>, events: Seq<Event>)
    requires
        settled(past, waker_future),
        ran(release_script(waker_future), events, ()),
    ensures
        settled(past + events, None),
{
    let goal = |events: Seq<Event>, _end: ()| releases(waker_future, events);
    assert(always(release_script(waker_future), Seq::empty(), goal)) by {
        reveal_with_fuel(always, 3);
    }
    lemma_ran_always(release_script(waker_future), events, goal, ());
    lemma_settles(past, waker_future, events);
}

/// Throwing at a coroutine leaves none of its futures that is not cancelled, whatever has
/// happened before, in this session and in others.
pub proof fn law_throw_settles(past: Seq<Event>, run: ThrowRun)
    requires
        settled(past, run.waker_future),
        run.valid(),
    ensures
        settled(past + run.events, None),
{
    let script = throw_script(run.waker_future, run.exception);
    let waker_future = run.waker_future;
    let goal = |events: Seq<Event>, _end: PyErr| releases(waker_future, events);
    assert(always(script, Seq::empty(), goal)) by {
        reveal_with_fuel(always, 4);
        reveal_with_fuel(chain, 4);
    }
    lemma_ran_always(script, run.events, goal, run.error);
    lemma_settles(past, waker_future, run.events);
}

/// What a throw raises is what raising the thrown object amounts to.
pub proof fn law_throw_raises(run: ThrowRun)
    requires
        run.valid(),
    ensures
        amounts_to(run.error, run.exception),
{
    let script = throw_script(run.waker_future, run.exception);
    let exception = run.exception;
    let goal = |_events: Seq<Event>, error: PyErr| amounts_to(error, exception);
    assert(always(script, Seq::empty(), goal)) by {
        reveal_with_fuel(always, 4);
        reveal_with_fuel(chain, 4);
    }
    lemma_ran_always(script, run.events, goal, run.error);
}

/// Every future by which a coroutine could be woken is cancelled once it is of no more
/// use: when the coroutine is resumed, the one from before; when the coroutine comes to
/// an end, the fresh one. Only the future that was yielded last may be left, whatever has
/// happened before, in this session and in others.
pub proof fn law_send_settles(past: Seq<Event>, run: SendRun)
    requires
        settled(past, run.waker_future),
        run.valid(),
    ensures
        settled(past + run.events, run.end.waker_future),
{
    let script = send_script(run.waker_future, run.known);
    let waker_future = run.waker_future;
    let goal = |events: Seq<Event>, end: SendEnd|
        {
            &&& waker_future matches Some(future) ==> events.len() > 0 && events[0].call
                == cancel_call(future)
            &&& forall|i: int|
                0 <= i < events.len() ==> ((#[trigger] marked(events[i])) matches Some(future)
                    ==> end.waker_future == Some(future) || i < events.len() - 1
                    && events[events.len() - 1].call == cancel_call(future))
        };
    assert(always(script, Seq::empty(), goal)) by {
        reveal_with_fuel(always, 14);
        reveal_with_fuel(chain, 14);
    }
    lemma_ran_always(script, run.events, goal, run.end);
    let all = past + run.events;
    assert forall|i: int| 0 <= i < all.len() implies spared_or_cancelled(
        all,
        i,
        #[trigger] marked(all[i]),
        run.end.waker_future,
    ) by {
        if let Some(future) = marked(all[i]) {
            if i < past.len() {
                assert(marked(past[i]) == Some(future));
                if waker_future == Some(future) {
                    assert(all[past.len() as int] == run.events[0]);
                } else {
                    lemma_cancels_later(past, run.events, i, future);
                }
            } else {
                assert(marked(run.events[i - past.len()]) == Some(future));
                assert(all[all.len() - 1] == run.events.last());
            }
        }
    }
}

/// The runs are the sends to one coroutine from the first on, in their order. After a
/// `send` that left the coroutine at an end, there is none: a coroutine without its Rust
/// future makes no calls.
pub open spec fn one_life(runs: Seq<SendRun>) -> bool
    decreases runs.len(),
{
    runs.len() > 0 ==> {
        let earlier = runs.drop_last();
        &&& one_life(earlier)
        &&& runs.last().valid()
        &&& runs.last().waker_future == current(earlier)
        &&& earlier.len() > 0 ==> earlier.last().end.reply is Ok
    }
}

/// The future by which the coroutine may be woken after the runs.
pub open spec fn current(runs: Seq<SendRun>) -> Option<Object> {
    if runs.len() == 0 {
        None
    } else {
        runs.last().end.waker_future
    }
}

/// All that happened in the runs.
pub open spec fn history(runs: Seq<SendRun>) -> Seq<Event>
    decreases runs.len(),
{
    if runs.len() == 0 {
        Seq::empty()
    } else {
        history(runs.drop_last()) + runs.last().events
    }
}

/// At any point in the life of a coroutine, all the futures that it ever had to be woken by
/// are cancelled, but for the one that it yielded last; and once it has come to an end, all
/// of them.
pub proof fn law_futures_are_settled(runs: Seq<SendRun>)
    requires
        one_life(runs),
    ensures
        settled(history(runs), current(runs)),
        runs.len() > 0 && runs.last().end.reply is Err ==> settled(history(runs), None),
    decreases runs.len(),
{
    if runs.len() > 0 {
        law_futures_are_settled(runs.drop_last());
        law_send_settles(history(runs.drop_last()), runs.last());
        law_yielded_future_is_marked(runs.last());
    }
}

/// The Rust future comes to its end with `result` in the run.
pub open spec fn completes(run: SendRun, result: Result<Object, PyErr>) -> bool {
    exists|i: int|
        0 <= i < run.events.len() && #[trigger] run.events[i].reply == Reply::Polled(
            Progress::Ready(result),
        )
}

/// A Rust future is not polled again after it has come to its end: that happens in the last
/// `send` alone.
pub proof fn law_completed_future_is_left_alone(
    runs: Seq<SendRun>,
    i: int,
    result: Result<Object, PyErr>,
)
    requires
        one_life(runs),
        0 <= i < runs.len(),
        completes(runs[i], result),
    ensures
        i == runs.len() - 1,
    decreases runs.len(),
{
    reveal_with_fuel(one_life, 2);
    let earlier = runs.drop_last();
    if i < runs.len() - 1 {
        assert(earlier[i] == runs[i]);
        law_completed_future_is_left_alone(earlier, i, result);
        law_completion_ends_the_coroutine(earlier.last(), result);
    }
}

/// Whether Python cancelled what it was asked to cancel in the run.
pub open spec fn cancelled_in(run: SendRun) -> bool {
    run.events.last().call is Method ==> run.events.last().reply->Value_0 is Ok
}

/// A `send` in which the Rust future comes to its end leaves with its result: returns its
/// value or raises its error, unless cancelling the future of the waker raises instead.
pub proof fn law_completion_ends_the_coroutine(run: SendRun, result: Result<Object, PyErr>)
    requires
        run.valid(),
        completes(run, result),
    ensures
        run.end.reply is Err,
        cancelled_in(run) ==> run.end.reply == Err::<Object, _>(exit_of(result)),
{
    let script = send_script(run.waker_future, run.known);
    let goal = |events: Seq<Event>, end: SendEnd|
        forall|i: int|
            0 <= i < events.len() && (#[trigger] events[i]).reply is Polled ==> passes_on(
                events,
                i,
                end,
            );
    assert(always(script, Seq::empty(), goal)) by {
        reveal_with_fuel(always, 14);
        reveal_with_fuel(chain, 14);
    }
    lemma_ran_always(script, run.events, goal, run.end);
    let i = choose|i: int|
        0 <= i < run.events.len() && #[trigger] run.events[i].reply == Reply::Polled(
            Progress::Ready(result),
        );
    assert(passes_on(run.events, i, run.end));
}

/// The events of a wake: a callable that resolves the future is made, and scheduled on the
/// event loop with `None` as its argument. Nothing else is done.
pub open spec fn schedules(waker: PyFutureWaker, events: Seq<Event>) -> bool {
    &&& events.len() == 3
    &&& events[0].call == (Call::NewCallable { callback: Callback::SetResult(waker.future) })
    &&& events[0].reply matches Reply::Value(Ok(callable))
    &&& events[1].call is NoneObject
    &&& events[2].call matches Call::Method { object, name, args }
    &&& object == waker.event_loop
    &&& name == "call_soon_threadsafe"@
    &&& args.len() == 2
    &&& args[0] == callable
    &&& is_python_none(args[1])
}

/// The argument that a wake has its callable called with.
pub open spec fn scheduled_argument(events: Seq<Event>) -> Object {
    events[2].call->Method_args[1]
}

/// The one event resolves `future` with `None`.
pub open spec fn resolves(future: Object, events: Seq<Event>) -> bool {
    &&& events.len() == 1
    &&& events[0].call matches Call::Method { object, name, args }
    &&& object == future
    &&& name == "set_result"@
    &&& args.len() == 1
    &&& is_python_none(args[0])
}

/// The result of a future on which nothing but the calls was done, by the rule of
/// `asyncio`: the first result that is set on it stays, and later ones are refused.
pub open spec fn result_after(calls: Seq<Seq<Event>>) -> Option<Object>
    decreases calls.len(),
{
    if calls.len() == 0 {
        None
    } else {
        match result_after(calls.drop_last()) {
            Some(result) => Some(result),
            None => Some(calls.last()[0].call->Method_args[0]),
        }
    }
}

proof fn lemma_result_after(future: Object, calls: Seq<Seq<Event>>)
    requires
        forall|i: int| 0 <= i < calls.len() ==> resolves(future, #[trigger] calls[i]),
    ensures
        result_after(calls) is Some <==> calls.len() > 0,
        result_after(calls) matches Some(result) ==> is_python_none(result),
    decreases calls.len(),
{
    if calls.len() > 0 {
        let earlier = calls.drop_last();
        assert forall|i: int| 0 <= i < earlier.len() implies resolves(
            future,
            #[trigger] earlier[i],
        ) by {
            assert(earlier[i] == calls[i]);
        }
        lemma_result_after(future, earlier);
        assert(resolves(future, calls[calls.len() - 1]));
    }
}

/// Any number of wakes of a coroutine schedule as many callables on the event loop, one
/// each, and do nothing else. Each of them, when the event loop calls it as scheduled,
/// resolves the yielded future with `None`, does nothing else, and raises nothing, whatever
/// the future answers: the future may be resolved or cancelled by then. So the future has a
/// result if there was a wake, and only then, and that is `None`, however many there were.
pub proof fn law_wakes_resolve(
    waker: PyFutureWaker,
    wakes: Seq<Seq<Event>>,
    calls: Seq<Seq<Event>>,
    accepted: Seq<bool>,
)
    requires
        calls.len() == wakes.len(),
        accepted.len() == wakes.len(),
        forall|i: int|
            0 <= i < wakes.len() ==> ran(wake_script(waker), #[trigger] wakes[i], Ok(())),
        forall|i: int|
            0 <= i < wakes.len() ==> ran(
                callback_script(
                    Callback::SetResult(waker.future),
                    Some(scheduled_argument(wakes[i])),
                ),
                #[trigger] calls[i],
                accepted[i],
            ),
    ensures
        forall|i: int| 0 <= i < wakes.len() ==> schedules(waker, #[trigger] wakes[i]),
        forall|i: int| 0 <= i < wakes.len() ==> resolves(waker.future, #[trigger] calls[i]),
        forall|i: int| 0 <= i < wakes.len() ==> #[trigger] accepted[i],
        result_after(calls) is Some <==> wakes.len() > 0,
        result_after(calls) matches Some(result) ==> is_python_none(result),
{
    assert forall|i: int| 0 <= i < wakes.len() implies {
        &&& schedules(waker, #[trigger] wakes[i])
        &&& resolves(waker.future, calls[i])
        &&& accepted[i]
    } by {
        assert(ran(wake_script(waker), wakes[i], Ok(())));
        assert(ran(
            callback_script(
                Callback::SetResult(waker.future),
                Some(scheduled_argument(wakes[i])),
            ),
            calls[i],
            accepted[i],
        ));
        lemma_wake_resolves(waker, wakes[i], calls[i], accepted[i]);
    }
    assert forall|i: int| 0 <= i < wakes.len() implies resolves(
        waker.future,
        #[trigger] calls[i],
    ) by {
        assert(schedules(waker, wakes[i]));
    }
    assert forall|i: int| 0 <= i < wakes.len() implies #[trigger] accepted[i] by {
        assert(schedules(waker, wakes[i]));
    }
    lemma_result_after(waker.future, calls);
}

proof fn lemma_wake_resolves(
    waker: PyFutureWaker,
    events: Seq<Event>,
    call: Seq<Event>,
    accepted: bool,
)
    requires
        ran(wake_script(waker), events, Ok(())),
        ran(
            callback_script(Callback::SetResult(waker.future), Some(scheduled_argument(events))),
            call,
            accepted,
        ),
    ensures
        schedules(waker, events),
        resolves(waker.future, call),
        accepted,
{
    let goal = |events: Seq<Event>, end: Result<(), PyErr>| end is Ok ==> schedules(waker, events);
    assert(always(wake_script(waker), Seq::empty(), goal)) by {
        reveal_with_fuel(always, 5);
    }
    lemma_ran_always(wake_script(waker), events, goal, Ok(()));
    let argument = scheduled_argument(events);
    let script = callback_script(Callback::SetResult(waker.future), Some(argument));
    let goal = |events: Seq<Event>, end: bool|
        {
            &&& is_python_none(argument) ==> resolves(waker.future, events)
            &&& end
        };
    assert(always(script, Seq::empty(), goal)) by {
        reveal_with_fuel(always, 3);
    }
    lemma_ran_always(script, call, goal, accepted);
}

} // verus!

//! Scripts: what an operation does, for every answer that it may get.
//!
//! What Python answers to a call is beyond this crate. What the crate asks, in
//! which order, and what it makes of each answer is not: a
//! [`crate::session::Session`] keeps a record of every call with its answer, and
//! each operation of the crate states the [`Script`] that its part of the record
//! follows. A script says which call comes first and, for every answer to it,
//! how to go on.
//!
//! Scripts exist in proofs only.

use crate::callback::Callback;
use crate::outcome::Progress;
use crate::python::{amounts_to, exception_object, is_exception, is_python_none, Object};
use crate::rs_as_py::PyFutureWaker;
use pyo3::PyErr;
use std::task::Waker;
use vstd::prelude::*;

verus! {

/// A call out of the crate.
pub enum Call {
    /// `None`
    NoneObject,
    /// `hasattr(object, name)`
    HasAttr { object: Object, name: Seq<char> },
    /// `import module`
    Import { module: Seq<char> },
    /// `object.name`
    GetAttr { object: Object, name: Seq<char> },
    /// `object.name`, where a missing attribute is no error
    GetAttrOpt { object: Object, name: Seq<char> },
    /// `object.name = value`
    SetAttr { object: Object, name: Seq<char>, value: bool },
    /// `bool(object)`
    IsTruthy { object: Object },
    /// `callee(*args)`
    Invoke { callee: Object, args: Seq<Object> },
    /// `object.name(*args)`
    Method { object: Object, name: Seq<char>, args: Seq<Object> },
    /// The exception that `error` carries, with the traceback of the error attached
    ExceptionToThrow { error: PyErr },
    /// The error that raising `object` amounts to
    ErrorFrom { object: Object },
    /// Make a Python callable of a callback.
    NewCallable { callback: Callback },
    /// Wake the Rust task.
    Wake { waker: Waker },
    /// Poll a Rust future, with the given waker or with one that does nothing.
    Poll { using: Option<PyFutureWaker> },
}

/// The answer to a call.
pub enum Reply {
    /// An object, or the exception that was raised in its place.
    Value(Result<Object, PyErr>),
    /// An attribute that may be missing.
    Attribute(Result<Option<Object>, PyErr>),
    /// A truth value.
    Truth(Result<bool, PyErr>),
    /// Nothing but success or an exception.
    Status(Result<(), PyErr>),
    /// An error.
    Error(PyErr),
    /// What a poll has brought.
    Polled(Progress<Result<Object, PyErr>>),
    /// Nothing.
    Silence,
}

/// Whether `reply` is of the kind that answers `call`.
pub open spec fn answers(call: Call, reply: Reply) -> bool {
    match call {
        Call::NoneObject => reply matches Reply::Value(Ok(object)) && is_python_none(object),
        Call::HasAttr { .. } | Call::IsTruthy { .. } => reply is Truth,
        Call::GetAttrOpt { .. } => reply is Attribute,
        Call::SetAttr { .. } => reply is Status,
        Call::Import { .. } | Call::GetAttr { .. } | Call::Invoke { .. } | Call::Method { .. }
        | Call::NewCallable { .. } => reply is Value,
        Call::ExceptionToThrow { error } => reply matches Reply::Value(Ok(object)) && object
            == exception_object(error) && is_exception(object),
        Call::ErrorFrom { object } => reply matches Reply::Error(error) && amounts_to(
            error,
            object,
        ),
        Call::Wake { .. } => reply is Silence,
        Call::Poll { .. } => reply is Polled,
    }
}

/// A call with its answer.
pub struct Event {
    pub call: Call,
    pub reply: Reply,
}

/// What an operation does, for every answer that it may get: it ends, or it
/// makes a call and goes on by the answer.
pub enum Script<R> {
    End(R),
    Ask(Call, spec_fn(Reply) -> Script<R>),
    /// The record did not keep to the script.
    Broken,
}

/// Makes a call that is answered by an object.
pub open spec fn ask_value<R>(
    call: Call,
    then: spec_fn(Result<Object, PyErr>) -> Script<R>,
) -> Script<R> {
    Script::Ask(call, |reply: Reply| then(reply->Value_0))
}

/// Makes a call that is answered by a truth value.
pub open spec fn ask_truth<R>(
    call: Call,
    then: spec_fn(Result<bool, PyErr>) -> Script<R>,
) -> Script<R> {
    Script::Ask(call, |reply: Reply| then(reply->Truth_0))
}

/// Makes a call that is answered by an attribute that may be missing.
pub open spec fn ask_attribute<R>(
    call: Call,
    then: spec_fn(Result<Option<Object>, PyErr>) -> Script<R>,
) -> Script<R> {
    Script::Ask(call, |reply: Reply| then(reply->Attribute_0))
}

/// Makes a call that is answered by success or an exception.
pub open spec fn ask_status<R>(
    call: Call,
    then: spec_fn(Result<(), PyErr>) -> Script<R>,
) -> Script<R> {
    Script::Ask(call, |reply: Reply| then(reply->Status_0))
}

/// Makes a call that is answered by an error.
pub open spec fn ask_error<R>(call: Call, then: spec_fn(PyErr) -> Script<R>) -> Script<R> {
    Script::Ask(call, |reply: Reply| then(reply->Error_0))
}

/// Polls a Rust future.
pub open spec fn ask_poll<R>(
    call: Call,
    then: spec_fn(Progress<Result<Object, PyErr>>) -> Script<R>,
) -> Script<R> {
    Script::Ask(call, |reply: Reply| then(reply->Polled_0))
}

/// Makes a call whose answer is of no account.
pub open spec fn ask_only<R>(call: Call, next: Script<R>) -> Script<R> {
    Script::Ask(call, |_reply: Reply| next)
}

/// Goes through `first`, and on from what it ended in.
pub open spec fn chain<A, R>(first: Script<A>, then: spec_fn(A) -> Script<R>) -> Script<R>
    decreases first,
{
    match first {
        Script::End(end) => then(end),
        Script::Ask(call, next) => Script::Ask(call, |reply: Reply| chain(next(reply), then)),
        Script::Broken => Script::Broken,
    }
}

/// What is left of a script after one event.
pub open spec fn step<R>(script: Script<R>, event: Event) -> Script<R> {
    match script {
        Script::Ask(call, then) => if event.call == call && answers(call, event.reply) {
            then(event.reply)
        } else {
            Script::Broken
        },
        _ => Script::Broken,
    }
}

/// What is left of a script after a record of events.
pub open spec fn follow<R>(script: Script<R>, events: Seq<Event>) -> Script<R>
    decreases events.len(),
{
    if events.len() == 0 {
        script
    } else {
        follow(step(script, events[0]), events.skip(1))
    }
}

/// The events are a run of `script` that ended in `end`.
pub open spec fn ran<R>(script: Script<R>, events: Seq<Event>, end: R) -> bool {
    follow(script, events) == Script::End(end)
}

/// What is left of a script after the events of `log` from position `start` on.
pub open spec fn follow_from<R>(script: Script<R>, log: Seq<Event>, start: int) -> Script<R> {
    follow(script, log.skip(start))
}

/// Between `before` and `after` the record grew by a run of `script` that ended
/// in `end`: the events of `after` that `before` does not have are such a run.
pub open spec fn played<R>(
    script: Script<R>,
    before: Seq<Event>,
    after: Seq<Event>,
    end: R,
) -> bool {
    &&& before.is_prefix_of(after)
    &&& follow_from(script, after, before.len() as int) == Script::End(end)
}

proof fn lemma_follow_push<R>(script: Script<R>, events: Seq<Event>, event: Event)
    ensures
        follow(script, events.push(event)) == step(follow(script, events), event),
    decreases events.len(),
{
    let longer = events.push(event);
    if events.len() == 0 {
        assert(longer.skip(1) =~= Seq::<Event>::empty());
        assert(follow(step(script, event), longer.skip(1)) == step(script, event));
    } else {
        assert(longer.skip(1) =~= events.skip(1).push(event));
        lemma_follow_push(step(script, events[0]), events.skip(1), event);
    }
}

proof fn lemma_follow_join<R>(script: Script<R>, first: Seq<Event>, second: Seq<Event>)
    ensures
        follow(script, first + second) == follow(follow(script, first), second),
    decreases first.len(),
{
    if first.len() == 0 {
        assert(first + second =~= second);
    } else {
        assert((first + second).skip(1) =~= first.skip(1) + second);
        lemma_follow_join(step(script, first[0]), first.skip(1), second);
    }
}

proof fn lemma_follow_chain<A, R>(
    first: Script<A>,
    then: spec_fn(A) -> Script<R>,
    events: Seq<Event>,
    end: A,
)
    requires
        follow(first, events) == Script::End(end),
    ensures
        follow(chain(first, then), events) == then(end),
    decreases events.len(),
{
    if events.len() > 0 {
        match first {
            Script::Ask(call, next) => {
                if step(first, events[0]) is Broken {
                    lemma_broken_stays_broken::<A>(events.skip(1));
                }
                lemma_follow_chain(step(first, events[0]), then, events.skip(1), end);
            },
            _ => {
                lemma_broken_stays_broken::<A>(events.skip(1));
            },
        }
    }
}

proof fn lemma_broken_stays_broken<R>(events: Seq<Event>)
    ensures
        follow(Script::<R>::Broken, events) == Script::<R>::Broken,
    decreases events.len(),
{
    if events.len() > 0 {
        lemma_broken_stays_broken::<R>(events.skip(1));
    }
}

/// Before its first event a script is untouched.
pub broadcast proof fn lemma_follow_from_end<R>(script: Script<R>, log: Seq<Event>)
    ensures
        #[trigger] follow_from(script, log, log.len() as int) == script,
{
    assert(log.skip(log.len() as int) =~= Seq::<Event>::empty());
}

/// One more event takes a script one step further.
pub broadcast proof fn lemma_follow_from_push<R>(
    script: Script<R>,
    log: Seq<Event>,
    event: Event,
    start: int,
)
    requires
        0 <= start <= log.len(),
    ensures
        #[trigger] follow_from(script, log.push(event), start) == step(
            follow_from(script, log, start),
            event,
        ),
{
    assert(log.push(event).skip(start) =~= log.skip(start).push(event));
    lemma_follow_push(script, log.skip(start), event);
}

/// A record that grows keeps its events.
pub proof fn lemma_prefix(before: Seq<Event>, after: Seq<Event>)
    requires
        before.is_prefix_of(after),
    ensures
        before.len() <= after.len(),
        forall|i: int| 0 <= i < before.len() ==> #[trigger] after[i] == before[i],
{
    assert forall|i: int| 0 <= i < before.len() implies #[trigger] after[i] == before[i] by {
        assert(after.subrange(0, before.len() as int)[i] == before[i]);
    }
}

/// A script may be followed in two stages.
pub proof fn lemma_follow_from_join<R>(
    script: Script<R>,
    middle: Seq<Event>,
    log: Seq<Event>,
    start: int,
)
    requires
        0 <= start <= middle.len(),
        middle.is_prefix_of(log),
    ensures
        follow_from(script, log, start) == follow_from(
            follow_from(script, middle, start),
            log,
            middle.len() as int,
        ),
{
    lemma_prefix(middle, log);
    assert(log.skip(start) =~= middle.skip(start) + log.skip(middle.len() as int));
    lemma_follow_join(script, middle.skip(start), log.skip(middle.len() as int));
}

/// A run of `first` in the middle of an operation takes the operation to what
/// follows `first`.
pub proof fn lemma_played_within<A, R>(
    script: Script<R>,
    start: int,
    first: Script<A>,
    then: spec_fn(A) -> Script<R>,
    before: Seq<Event>,
    after: Seq<Event>,
    end: A,
)
    requires
        0 <= start <= before.len(),
        follow_from(script, before, start) == chain(first, then),
        played(first, before, after, end),
    ensures
        follow_from(script, after, start) == then(end),
{
    lemma_follow_from_join(script, before, after, start);
    lemma_follow_chain(first, then, after.skip(before.len() as int), end);
}

/// Of an operation that makes no call, the record shows nothing.
pub broadcast proof fn lemma_played_end<R>(
    given: R,
    before: Seq<Event>,
    after: Seq<Event>,
    end: R,
)
    requires
        #[trigger] played(Script::End(given), before, after, end),
    ensures
        end == given,
        after == before,
{
    lemma_prefix(before, after);
    let events = after.skip(before.len() as int);
    if events.len() > 0 {
        lemma_broken_stays_broken::<R>(events.skip(1));
    }
    assert(after =~= before);
}

/// Of an operation that begins with a call, the record shows the call and its answer,
/// and then the rest.
pub broadcast proof fn lemma_played_ask<R>(
    call: Call,
    then: spec_fn(Reply) -> Script<R>,
    before: Seq<Event>,
    after: Seq<Event>,
    end: R,
)
    requires
        #[trigger] played(Script::Ask(call, then), before, after, end),
    ensures
        after.len() > before.len(),
        after[before.len() as int].call == call,
        answers(call, after[before.len() as int].reply),
        played(
            then(after[before.len() as int].reply),
            before.push(after[before.len() as int]),
            after,
            end,
        ),
{
    lemma_prefix(before, after);
    let events = after.skip(before.len() as int);
    let script = Script::Ask(call, then);
    assert(events.len() > 0);
    let event = events[0];
    if step(script, event) is Broken {
        lemma_broken_stays_broken::<R>(events.skip(1));
    }
    let longer = before.push(event);
    assert(longer =~= after.subrange(0, longer.len() as int));
    assert(after.skip(longer.len() as int) =~= events.skip(1));
}

/// No record follows a broken script.
pub broadcast proof fn lemma_played_broken<R>(before: Seq<Event>, after: Seq<Event>, end: R)
    ensures
        !#[trigger] played(Script::<R>::Broken, before, after, end),
{
    lemma_broken_stays_broken::<R>(after.skip(before.len() as int));
}

/// How the contracts, which are stated by scripts, are proved and used.
pub broadcast group group_follow {
    lemma_follow_from_end,
    lemma_follow_from_push,
    lemma_played_end,
    lemma_played_ask,
    lemma_played_broken,
}

/// Whatever the answers, `goal` holds of the record and of the end, when
/// `script` is followed from a record of `past`.
pub open spec fn always<R>(
    script: Script<R>,
    past: Seq<Event>,
    goal: spec_fn(Seq<Event>, R) -> bool,
) -> bool
    decreases script,
{
    match script {
        Script::End(end) => goal(past, end),
        Script::Ask(call, then) => forall|reply: Reply|
            answers(call, reply) ==> always(
                #[trigger] then(reply),
                past.push(Event { call, reply }),
                goal,
            ),
        Script::Broken => true,
    }
}

/// What a script always leads to, every run of it leads to.
pub proof fn lemma_always<R>(
    script: Script<R>,
    past: Seq<Event>,
    goal: spec_fn(Seq<Event>, R) -> bool,
    events: Seq<Event>,
    end: R,
)
    requires
        always(script, past, goal),
        follow(script, events) == Script::End(end),
    ensures
        goal(past + events, end),
    decreases events.len(),
{
    if events.len() == 0 {
        assert(past + events =~= past);
    } else {
        let event = events[0];
        if step(script, event) is Broken {
            lemma_broken_stays_broken::<R>(events.skip(1));
        }
        match script {
            Script::Ask(call, then) => {
                assert(event == (Event { call, reply: event.reply }));
                assert(then(event.reply) == step(script, event));
                lemma_always(step(script, event), past.push(event), goal, events.skip(1), end);
                assert(past.push(event) + events.skip(1) =~= past + events);
            },
            _ => {},
        }
    }
}

/// What a script always leads to, a run of it leads to.
pub proof fn lemma_ran_always<R>(
    script: Script<R>,
    events: Seq<Event>,
    goal: spec_fn(Seq<Event>, R) -> bool,
    end: R,
)
    requires
        ran(script, events, end),
        always(script, Seq::empty(), goal),
    ensures
        goal(events, end),
{
    lemma_always(script, Seq::empty(), goal, events, end);
    assert(Seq::<Event>::empty() + events =~= events);
}

} // verus!

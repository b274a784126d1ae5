//! The calls into PyO3 and `std::task` that a session makes.
//!
//! Each function here but [`Record::new`] and [`poll_future`] is trusted: it makes one
//! outside call, and what it states of that call is not proved.
//!
//! Whatever runs Python code (attribute access, calls, imports, truth tests) may answer
//! anything at all. Of such a call a function states that the [`Record`] grew by the
//! call, with its arguments, and by the answer that it returns, whatever that is.
//! PyO3 resumes a Rust panic that comes back to it through Python; no function here says
//! when that happens.

#![allow(unused_variables)]

use crate::callback::{Arguments, Callback};
use crate::outcome::Progress;
use crate::python::{
    error_message, exception_object, is_exception, is_exception_class,
    is_python_none, is_stop_iteration, is_stop_iteration_instance, is_type_error, Object,
};
use crate::rs_as_py::PyFutureWaker;
use crate::script::{Call, Event, Reply};
use pyo3::exceptions::PyStopIteration;
use pyo3::types::{PyAnyMethods, PyCFunction, PyDict, PyTuple, PyTupleMethods};
use pyo3::{Bound, PyErr, Python};
use std::task::Waker;
use vstd::prelude::*;

verus! {

/// The calls out of the crate so far, each with its answer. It grows by the calls of
/// this module and in no other way, and exists in proofs only.
pub struct Record {
    events: Ghost<Seq<Event>>,
}

impl View for Record {
    type V = Seq<Event>;

    closed spec fn view(&self) -> Seq<Event> {
        self.events@
    }
}

impl Record {
    /// The record before the first call.
    pub(super) fn new() -> (record: Self)
        ensures
            record@ == Seq::<Event>::empty(),
    {
        Record { events: Ghost(Seq::empty()) }
    }
}

/// `Python::None`: the object is Python's `None`.
#[verifier::external_body]
pub(super) fn none(py: Python<'_>, record: &mut Record) -> (object: Object)
    ensures
        is_python_none(object),
        final(record)@ == old(record)@.push(
            Event { call: Call::NoneObject, reply: Reply::Value(Ok(object)) },
        ),
{
    py.None()
}

/// `Py::is_none`: the Python expression `object is None`, which depends on the
/// object alone.
#[verifier::external_body]
pub(super) fn is_none(py: Python<'_>, object: &Object) -> (answer: bool)
    ensures
        answer == is_python_none(*object),
{
    object.is_none(py)
}

/// `Py::clone_ref`: one more reference to the same Python object.
#[verifier::external_body]
pub(super) fn clone_ref(py: Python<'_>, object: &Object) -> (same: Object)
    ensures
        same == *object,
{
    object.clone_ref(py)
}

/// `PyErr::is_instance_of::<PyStopIteration>`: whether the exception that the error
/// carries is a `StopIteration`, which depends on the exception alone.
#[verifier::external_body]
pub(super) fn stops_iteration(py: Python<'_>, error: &PyErr) -> (answer: bool)
    ensures
        answer == is_stop_iteration_instance(exception_object(*error)),
{
    error.is_instance_of::<PyStopIteration>(py)
}

/// `PyErr::value`: the exception instance that the error carries.
#[verifier::external_body]
pub(super) fn exception_value(py: Python<'_>, error: &PyErr) -> (object: Object)
    ensures
        object == exception_object(*error),
        is_exception(object),
{
    error.value(py).clone().into_any().unbind()
}

/// `PyErr::into_value`, on a further reference to the error, recorded: the exception
/// instance that the error carries, with the error's traceback attached.
#[verifier::external_body]
pub(super) fn exception_to_throw(py: Python<'_>, record: &mut Record, error: &PyErr) -> (object:
    Object)
    ensures
        object == exception_object(*error),
        is_exception(object),
        final(record)@ == old(record)@.push(
            Event {
                call: Call::ExceptionToThrow { error: *error },
                reply: Reply::Value(Ok(object)),
            },
        ),
{
    error.clone_ref(py).into_value(py).into_any()
}

/// `PyErr::from_value`, recorded with the error that it gave: the error that raising the
/// object amounts to. Of an exception, it is the error that carries that very exception; of
/// an object that is no class of exceptions either, a `TypeError`, with its message. Of a
/// class of exceptions nothing more is stated: PyO3 calls the class later, which may do
/// anything.
#[verifier::external_body]
pub(super) fn error_of(py: Python<'_>, record: &mut Record, object: Object) -> (error: PyErr)
    ensures
        is_exception(object) ==> exception_object(error) == object,
        !is_exception(object) && !is_exception_class(object) ==> {
            &&& is_type_error(error)
            &&& !is_stop_iteration(error)
            &&& error_message(error) == "exceptions must derive from BaseException"@
        },
        final(record)@ == old(record)@.push(
            Event { call: Call::ErrorFrom { object }, reply: Reply::Error(error) },
        ),
{
    PyErr::from_value(object.into_bound(py))
}

/// `PyAnyMethods::hasattr`, recorded with its answer.
#[verifier::external_body]
pub(super) fn hasattr(
    py: Python<'_>,
    record: &mut Record,
    object: &Object,
    name: &str,
) -> (reply: Result<bool, PyErr>)
    ensures
        final(record)@ == old(record)@.push(
            Event {
                call: Call::HasAttr { object: *object, name: name@ },
                reply: Reply::Truth(reply),
            },
        ),
{
    object.bind(py).hasattr(name)
}

/// `Python::import`, recorded with its answer.
#[verifier::external_body]
pub(super) fn import(
    py: Python<'_>,
    record: &mut Record,
    module: &str,
) -> (reply: Result<Object, PyErr>)
    ensures
        final(record)@ == old(record)@.push(
            Event {
                call: Call::Import { module: module@ },
                reply: Reply::Value(reply),
            },
        ),
{
    py.import(module).map(|found| found.into_any().unbind())
}

/// `PyAnyMethods::getattr`, recorded with its answer.
#[verifier::external_body]
pub(super) fn getattr(
    py: Python<'_>,
    record: &mut Record,
    object: &Object,
    name: &str,
) -> (reply: Result<Object, PyErr>)
    ensures
        final(record)@ == old(record)@.push(
            Event {
                call: Call::GetAttr { object: *object, name: name@ },
                reply: Reply::Value(reply),
            },
        ),
{
    object.bind(py).getattr(name).map(|found| found.unbind())
}

/// `PyAnyMethods::getattr_opt`, recorded with its answer.
#[verifier::external_body]
pub(super) fn getattr_opt(
    py: Python<'_>,
    record: &mut Record,
    object: &Object,
    name: &str,
) -> (reply: Result<Option<Object>, PyErr>)
    ensures
        final(record)@ == old(record)@.push(
            Event {
                call: Call::GetAttrOpt { object: *object, name: name@ },
                reply: Reply::Attribute(reply),
            },
        ),
{
    object.bind(py).getattr_opt(name).map(|found| found.map(|value| value.unbind()))
}

/// `PyAnyMethods::setattr` with a Python `bool`, recorded with its answer.
#[verifier::external_body]
pub(super) fn setattr(
    py: Python<'_>,
    record: &mut Record,
    object: &Object,
    name: &str,
    value: bool,
) -> (reply: Result<(), PyErr>)
    ensures
        final(record)@ == old(record)@.push(
            Event {
                call: Call::SetAttr { object: *object, name: name@, value },
                reply: Reply::Status(reply),
            },
        ),
{
    object.bind(py).setattr(name, value)
}

/// `PyAnyMethods::is_truthy`, recorded with its answer.
#[verifier::external_body]
pub(super) fn is_truthy(
    py: Python<'_>,
    record: &mut Record,
    object: &Object,
) -> (reply: Result<bool, PyErr>)
    ensures
        final(record)@ == old(record)@.push(
            Event {
                call: Call::IsTruthy { object: *object },
                reply: Reply::Truth(reply),
            },
        ),
{
    object.bind(py).is_truthy()
}

/// `PyAnyMethods::call0`, recorded with its answer.
#[verifier::external_body]
pub(super) fn call0(
    py: Python<'_>,
    record: &mut Record,
    callee: &Object,
) -> (reply: Result<Object, PyErr>)
    ensures
        final(record)@ == old(record)@.push(
            Event {
                call: Call::Invoke { callee: *callee, args: seq![] },
                reply: Reply::Value(reply),
            },
        ),
{
    callee.bind(py).call0().map(|value| value.unbind())
}

/// `PyAnyMethods::call1` with one positional argument, recorded with its answer.
#[verifier::external_body]
pub(super) fn call1(
    py: Python<'_>,
    record: &mut Record,
    callee: &Object,
    argument: &Object,
) -> (reply: Result<Object, PyErr>)
    ensures
        final(record)@ == old(record)@.push(
            Event {
                call: Call::Invoke { callee: *callee, args: seq![*argument] },
                reply: Reply::Value(reply),
            },
        ),
{
    callee.bind(py).call1((argument,)).map(|value| value.unbind())
}

/// `PyAnyMethods::call_method0`, recorded with its answer.
#[verifier::external_body]
pub(super) fn call_method0(
    py: Python<'_>,
    record: &mut Record,
    object: &Object,
    name: &str,
) -> (reply: Result<Object, PyErr>)
    ensures
        final(record)@ == old(record)@.push(
            Event {
                call: Call::Method { object: *object, name: name@, args: seq![] },
                reply: Reply::Value(reply),
            },
        ),
{
    object.bind(py).call_method0(name).map(|value| value.unbind())
}

/// `PyAnyMethods::call_method1` with one positional argument, recorded with its answer.
#[verifier::external_body]
pub(super) fn call_method1(
    py: Python<'_>,
    record: &mut Record,
    object: &Object,
    name: &str,
    argument: &Object,
) -> (reply: Result<Object, PyErr>)
    ensures
        final(record)@ == old(record)@.push(
            Event {
                call: Call::Method { object: *object, name: name@, args: seq![*argument] },
                reply: Reply::Value(reply),
            },
        ),
{
    object.bind(py).call_method1(name, (argument,)).map(|value| value.unbind())
}

/// `PyAnyMethods::call_method1` with two positional arguments, recorded with its
/// answer.
#[verifier::external_body]
pub(super) fn call_method2(
    py: Python<'_>,
    record: &mut Record,
    object: &Object,
    name: &str,
    first: &Object,
    second: &Object,
) -> (reply: Result<Object, PyErr>)
    ensures
        final(record)@ == old(record)@.push(
            Event {
                call: Call::Method { object: *object, name: name@, args: seq![*first, *second] },
                reply: Reply::Value(reply),
            },
        ),
{
    object.bind(py).call_method1(name, (first, second)).map(|value| value.unbind())
}

/// `PyCFunction::new_closure`, recorded with its answer: a Python callable that runs the
/// callback with the arguments of the call, those by position and those by name, and
/// returns `None`, or raises what the callback fails with. A name is the content of the
/// Python string, if that is a string of Unicode.
#[verifier::external_body]
pub(super) fn new_callable(
    py: Python<'_>,
    record: &mut Record,
    callback: Callback,
) -> (reply: Result<Object, PyErr>)
    ensures
        final(record)@ == old(record)@.push(
            Event {
                call: Call::NewCallable { callback },
                reply: Reply::Value(reply),
            },
        ),
{
    PyCFunction::new_closure(
        py,
        None,
        None,
        move |args: &Bound<'_, PyTuple>, kwargs: Option<&Bound<'_, PyDict>>| {
            let positional = args.iter().map(|value| value.unbind()).collect();
            let keywords = kwargs.into_iter().flatten().map(
                |(name, value)| (name.extract().ok(), value.unbind()),
            ).collect();
            let called = callback.invoke(args.py(), Arguments { positional, keywords }).0;
            called.map(|()| args.py().None())
        },
    ).map(|function| function.into_any().unbind())
}

/// `Waker::wake_by_ref`, recorded.
#[verifier::external_body]
pub(super) fn wake_by_ref(record: &mut Record, waker: &Waker)
    ensures
        final(record)@ == old(record)@.push(
            Event { call: Call::Wake { waker: *waker }, reply: Reply::Silence },
        ),
{
    waker.wake_by_ref()
}

/// Polls a Rust future by way of `poll`, which takes the future, and the waker to poll it
/// with, and gives the future back. The poll is recorded with what it brought.
pub(super) fn poll_future<F, P>(
    record: &mut Record,
    poll: P,
    future: F,
    waker: Option<PyFutureWaker>,
) -> (end: (F, Progress<Result<Object, PyErr>>)) where
    P: FnOnce(F, Option<PyFutureWaker>) -> (F, Progress<Result<Object, PyErr>>),

    requires
        call_requires(poll, (future, waker)),
    ensures
        call_ensures(poll, (future, waker), end),
        final(record)@ == old(record)@.push(
            Event { call: Call::Poll { using: waker }, reply: Reply::Polled(end.1) },
        ),
{
    let ghost used = waker;
    let end = poll(future, waker);
    record.events = Ghost(
        record.events@.push(
            Event { call: Call::Poll { using: used }, reply: Reply::Polled(end.1) },
        ),
    );
    end
}

} // verus!

//! Sessions with the interpreter.

use crate::callback::Callback;
use crate::outcome::Progress;
use crate::python::{
    amounts_to, exception_object, is_exception, is_python_none, is_stop_iteration, Object,
};
use crate::rs_as_py::PyFutureWaker;
use crate::script::{Call, Event, Reply};
use calls::Record;
use pyo3::{PyErr, Python};
use std::task::Waker;
use vstd::prelude::*;

mod calls;

verus! {

/// The Python functions that a session has looked up so far.
///
/// Looking one up takes an import and an attribute access; a function that was
/// found is kept.
pub struct Functions {
    /// `asyncio.futures.isfuture`
    pub isfuture: Option<Object>,
    /// `asyncio.get_running_loop`
    pub get_running_loop: Option<Object>,
}

/// A stretch of work attached to the interpreter.
///
/// Whatever is asked of Python in the course of it is asked through the session, and
/// recorded: the token by which it is attached does not leave it.
pub struct Session<'py> {
    py: Python<'py>,
    functions: Functions,
    record: Record,
}

impl<'py> Session<'py> {
    /// Every call so far, with its answer.
    pub closed spec fn log(self) -> Seq<Event> {
        self.record@
    }

    /// The functions that are known so far.
    pub closed spec fn functions(self) -> Functions {
        self.functions
    }

    /// Starts a session that knows the given functions.
    pub fn new(py: Python<'py>, functions: Functions) -> (session: Self)
        ensures
            session.log() == Seq::<Event>::empty(),
            session.functions() == functions,
    {
        Session { py, functions, record: Record::new() }
    }

    /// Ends the session; what it looked up may serve the next one.
    pub fn into_functions(self) -> (functions: Functions)
        ensures
            functions == self.functions(),
    {
        self.functions
    }

    /// A reference to `asyncio.futures.isfuture`, if it is known.
    pub(crate) fn known_isfuture(&self) -> (known: Option<Object>)
        ensures
            known == self.functions().isfuture,
    {
        match &self.functions.isfuture {
            Some(function) => Some(calls::clone_ref(self.py, function)),
            None => None,
        }
    }

    /// Keeps `asyncio.futures.isfuture`.
    pub(crate) fn keep_isfuture(&mut self, function: &Object)
        ensures
            final(self).log() == old(self).log(),
            final(self).functions() == (Functions {
                isfuture: Some(*function),
                ..old(self).functions()
            }),
    {
        self.functions.isfuture = Some(calls::clone_ref(self.py, function));
    }

    /// A reference to `asyncio.get_running_loop`, if it is known.
    pub(crate) fn known_get_running_loop(&self) -> (known: Option<Object>)
        ensures
            known == self.functions().get_running_loop,
    {
        match &self.functions.get_running_loop {
            Some(function) => Some(calls::clone_ref(self.py, function)),
            None => None,
        }
    }

    /// Keeps `asyncio.get_running_loop`.
    pub(crate) fn keep_get_running_loop(&mut self, function: &Object)
        ensures
            final(self).log() == old(self).log(),
            final(self).functions() == (Functions {
                get_running_loop: Some(*function),
                ..old(self).functions()
            }),
    {
        self.functions.get_running_loop = Some(calls::clone_ref(self.py, function));
    }

    /// One more reference to the same Python object.
    pub(crate) fn clone_ref(&self, object: &Object) -> (same: Object)
        ensures
            same == *object,
    {
        calls::clone_ref(self.py, object)
    }

    /// `object is None`
    pub(crate) fn is_none(&self, object: &Object) -> (answer: bool)
        ensures
            answer == is_python_none(*object),
    {
        calls::is_none(self.py, object)
    }

    /// `isinstance(error, StopIteration)`
    pub(crate) fn stops_iteration(&self, error: &PyErr) -> (answer: bool)
        ensures
            answer == is_stop_iteration(*error),
    {
        calls::stops_iteration(self.py, error)
    }

    /// The exception instance that the error carries.
    pub(crate) fn exception_value(&self, error: &PyErr) -> (object: Object)
        ensures
            object == exception_object(*error),
            is_exception(object),
    {
        calls::exception_value(self.py, error)
    }

    /// The exception instance that the error carries, with the error's traceback
    /// attached.
    pub(crate) fn exception_to_throw(&mut self, error: &PyErr) -> (object: Object)
        ensures
            object == exception_object(*error),
            is_exception(object),
            final(self).functions() == old(self).functions(),
            final(self).log() == old(self).log().push(
                Event {
                    call: Call::ExceptionToThrow { error: *error },
                    reply: Reply::Value(Ok(object)),
                },
            ),
    {
        calls::exception_to_throw(self.py, &mut self.record, error)
    }

    /// The error that raising `object` amounts to.
    pub(crate) fn error_of(&mut self, object: Object) -> (error: PyErr)
        ensures
            amounts_to(error, object),
            final(self).functions() == old(self).functions(),
            final(self).log() == old(self).log().push(
                Event { call: Call::ErrorFrom { object }, reply: Reply::Error(error) },
            ),
    {
        calls::error_of(self.py, &mut self.record, object)
    }

    /// `None`
    pub(crate) fn none(&mut self) -> (object: Object)
        ensures
            is_python_none(object),
            final(self).functions() == old(self).functions(),
            final(self).log() == old(self).log().push(
                Event { call: Call::NoneObject, reply: Reply::Value(Ok(object)) },
            ),
    {
        calls::none(self.py, &mut self.record)
    }

    /// `hasattr(object, name)`
    pub(crate) fn hasattr(&mut self, object: &Object, name: &str) -> (reply: Result<bool, PyErr>)
        ensures
            final(self).functions() == old(self).functions(),
            final(self).log() == old(self).log().push(
                Event {
                    call: Call::HasAttr { object: *object, name: name@ },
                    reply: Reply::Truth(reply),
                },
            ),
    {
        calls::hasattr(self.py, &mut self.record, object, name)
    }

    /// `import module`
    pub(crate) fn import(&mut self, module: &str) -> (reply: Result<Object, PyErr>)
        ensures
            final(self).functions() == old(self).functions(),
            final(self).log() == old(self).log().push(
                Event { call: Call::Import { module: module@ }, reply: Reply::Value(reply) },
            ),
    {
        calls::import(self.py, &mut self.record, module)
    }

    /// `object.name`
    pub(crate) fn getattr(&mut self, object: &Object, name: &str) -> (reply: Result<Object, PyErr>)
        ensures
            final(self).functions() == old(self).functions(),
            final(self).log() == old(self).log().push(
                Event {
                    call: Call::GetAttr { object: *object, name: name@ },
                    reply: Reply::Value(reply),
                },
            ),
    {
        calls::getattr(self.py, &mut self.record, object, name)
    }

    /// `object.name`, where a missing attribute is no error
    pub(crate) fn getattr_opt(&mut self, object: &Object, name: &str) -> (reply: Result<
        Option<Object>,
        PyErr,
    >)
        ensures
            final(self).functions() == old(self).functions(),
            final(self).log() == old(self).log().push(
                Event {
                    call: Call::GetAttrOpt { object: *object, name: name@ },
                    reply: Reply::Attribute(reply),
                },
            ),
    {
        calls::getattr_opt(self.py, &mut self.record, object, name)
    }

    /// `object.name = value`
    pub(crate) fn setattr(&mut self, object: &Object, name: &str, value: bool) -> (reply: Result<
        (),
        PyErr,
    >)
        ensures
            final(self).functions() == old(self).functions(),
            final(self).log() == old(self).log().push(
                Event {
                    call: Call::SetAttr { object: *object, name: name@, value },
                    reply: Reply::Status(reply),
                },
            ),
    {
        calls::setattr(self.py, &mut self.record, object, name, value)
    }

    /// `bool(object)`
    pub(crate) fn is_truthy(&mut self, object: &Object) -> (reply: Result<bool, PyErr>)
        ensures
            final(self).functions() == old(self).functions(),
            final(self).log() == old(self).log().push(
                Event { call: Call::IsTruthy { object: *object }, reply: Reply::Truth(reply) },
            ),
    {
        calls::is_truthy(self.py, &mut self.record, object)
    }

    /// `callee()`
    pub(crate) fn call0(&mut self, callee: &Object) -> (reply: Result<Object, PyErr>)
        ensures
            final(self).functions() == old(self).functions(),
            final(self).log() == old(self).log().push(
                Event {
                    call: Call::Invoke { callee: *callee, args: seq![] },
                    reply: Reply::Value(reply),
                },
            ),
    {
        calls::call0(self.py, &mut self.record, callee)
    }

    /// `callee(argument)`
    pub(crate) fn call1(&mut self, callee: &Object, argument: &Object) -> (reply: Result<
        Object,
        PyErr,
    >)
        ensures
            final(self).functions() == old(self).functions(),
            final(self).log() == old(self).log().push(
                Event {
                    call: Call::Invoke { callee: *callee, args: seq![*argument] },
                    reply: Reply::Value(reply),
                },
            ),
    {
        calls::call1(self.py, &mut self.record, callee, argument)
    }

    /// `object.name()`
    pub(crate) fn call_method0(&mut self, object: &Object, name: &str) -> (reply: Result<
        Object,
        PyErr,
    >)
        ensures
            final(self).functions() == old(self).functions(),
            final(self).log() == old(self).log().push(
                Event {
                    call: Call::Method { object: *object, name: name@, args: seq![] },
                    reply: Reply::Value(reply),
                },
            ),
    {
        calls::call_method0(self.py, &mut self.record, object, name)
    }

    /// `object.name(argument)`
    pub(crate) fn call_method1(&mut self, object: &Object, name: &str, argument: &Object) -> (reply:
        Result<Object, PyErr>)
        ensures
            final(self).functions() == old(self).functions(),
            final(self).log() == old(self).log().push(
                Event {
                    call: Call::Method { object: *object, name: name@, args: seq![*argument] },
                    reply: Reply::Value(reply),
                },
            ),
    {
        calls::call_method1(self.py, &mut self.record, object, name, argument)
    }

    /// `object.name(first, second)`
    pub(crate) fn call_method2(
        &mut self,
        object: &Object,
        name: &str,
        first: &Object,
        second: &Object,
    ) -> (reply: Result<Object, PyErr>)
        ensures
            final(self).functions() == old(self).functions(),
            final(self).log() == old(self).log().push(
                Event {
                    call: Call::Method {
                        object: *object,
                        name: name@,
                        args: seq![*first, *second],
                    },
                    reply: Reply::Value(reply),
                },
            ),
    {
        calls::call_method2(self.py, &mut self.record, object, name, first, second)
    }

    /// Makes a Python callable of a callback.
    pub(crate) fn new_callable(&mut self, callback: Callback) -> (reply: Result<Object, PyErr>)
        ensures
            final(self).functions() == old(self).functions(),
            final(self).log() == old(self).log().push(
                Event { call: Call::NewCallable { callback }, reply: Reply::Value(reply) },
            ),
    {
        calls::new_callable(self.py, &mut self.record, callback)
    }

    /// Wakes the Rust task.
    pub(crate) fn wake(&mut self, waker: &Waker)
        ensures
            final(self).functions() == old(self).functions(),
            final(self).log() == old(self).log().push(
                Event { call: Call::Wake { waker: *waker }, reply: Reply::Silence },
            ),
    {
        calls::wake_by_ref(&mut self.record, waker)
    }

    /// Polls a Rust future by way of `poll`, which takes the future, and the
    /// waker to poll it with, and gives the future back.
    pub(crate) fn poll_future<F, P>(
        &mut self,
        poll: P,
        future: F,
        waker: Option<PyFutureWaker>,
    ) -> (end: (F, Progress<Result<Object, PyErr>>)) where
        P: FnOnce(F, Option<PyFutureWaker>) -> (F, Progress<Result<Object, PyErr>>),

        requires
            call_requires(poll, (future, waker)),
        ensures
            call_ensures(poll, (future, waker), end),
            final(self).functions() == old(self).functions(),
            final(self).log() == old(self).log().push(
                Event { call: Call::Poll { using: waker }, reply: Reply::Polled(end.1) },
            ),
    {
        calls::poll_future(&mut self.record, poll, future, waker)
    }
}

} // verus!

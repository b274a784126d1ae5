//! How the operations of the bridge come out.

use crate::python;
use crate::python::{
    error_message, is_python_none, is_runtime_error, is_stop_iteration, is_value_error,
    returned_value, Object,
};
use pyo3::PyErr;
use vstd::prelude::*;

verus! {

/// What one poll has brought.
pub enum Progress<T> {
    /// The value is there.
    Ready(T),
    /// There is no value yet.
    Pending,
}

/// Why driving a Python awaitable failed.
pub enum Fault<E> {
    /// Python raised an exception.
    Python(E),
    /// The object cannot be awaited.
    NotAwaitable,
    /// The coroutine yielded something that is neither `None` nor a future.
    NotFuture,
    /// The coroutine yielded a future that it does not block on.
    NotBlocking,
}

/// How a coroutine left `send` without yielding.
pub enum Exit<O, E> {
    /// It had come to an end before.
    Exhausted,
    /// It returned a value.
    Returned(O),
    /// It raised an exception.
    Raised(E),
}

/// The answer to whether an object can be awaited, where it must be.
pub open spec fn awaitable_verdict<E>(answer: Result<bool, E>) -> Result<(), Fault<E>> {
    match answer {
        Err(error) => Err(Fault::Python(error)),
        Ok(false) => Err(Fault::NotAwaitable),
        Ok(true) => Ok(()),
    }
}

/// The answer to whether a yielded object is a future, where it must be one.
pub open spec fn future_verdict<E>(answer: Result<bool, E>) -> Result<(), Fault<E>> {
    match answer {
        Err(error) => Err(Fault::Python(error)),
        Ok(false) => Err(Fault::NotFuture),
        Ok(true) => Ok(()),
    }
}

/// The answer to whether a yielded future is being blocked on, where it must be.
pub open spec fn blocking_verdict<E>(answer: Result<bool, E>) -> Result<(), Fault<E>> {
    match answer {
        Err(error) => Err(Fault::Python(error)),
        Ok(false) => Err(Fault::NotBlocking),
        Ok(true) => Ok(()),
    }
}

/// Insists that an object can be awaited.
pub fn require_awaitable<E>(answer: Result<bool, E>) -> (verdict: Result<(), Fault<E>>)
    ensures
        verdict == awaitable_verdict(answer),
{
    match answer {
        Err(error) => Err(Fault::Python(error)),
        Ok(false) => Err(Fault::NotAwaitable),
        Ok(true) => Ok(()),
    }
}

/// Insists that a yielded object is a future.
pub fn require_future<E>(answer: Result<bool, E>) -> (verdict: Result<(), Fault<E>>)
    ensures
        verdict == future_verdict(answer),
{
    match answer {
        Err(error) => Err(Fault::Python(error)),
        Ok(false) => Err(Fault::NotFuture),
        Ok(true) => Ok(()),
    }
}

/// Insists that a yielded future is being blocked on.
pub fn require_blocking<E>(answer: Result<bool, E>) -> (verdict: Result<(), Fault<E>>)
    ensures
        verdict == blocking_verdict(answer),
{
    match answer {
        Err(error) => Err(Fault::Python(error)),
        Ok(false) => Err(Fault::NotBlocking),
        Ok(true) => Ok(()),
    }
}

/// `error` reports the fault: what Python raised as it is, and a fault of the bridge
/// itself by an exception of its class and with its message, never a `StopIteration`.
pub open spec fn reports(error: PyErr, fault: Fault<PyErr>) -> bool {
    match fault {
        Fault::Python(raised) => error == raised,
        Fault::NotAwaitable => {
            &&& is_value_error(error)
            &&& !is_stop_iteration(error)
            &&& error_message(error) == "the object does not have `__await__` property"@
        },
        Fault::NotFuture => {
            &&& is_runtime_error(error)
            &&& !is_stop_iteration(error)
            &&& error_message(error) == ".send returned non-future"@
        },
        Fault::NotBlocking => {
            &&& is_runtime_error(error)
            &&& !is_stop_iteration(error)
            &&& error_message(error)
                == ".send returned a future with _asyncio_future_blocking != True"@
        },
    }
}

/// `error` is how a coroutine leaves `send`: what it raised as it is, and otherwise a
/// `StopIteration`, with the value that was returned or, of a coroutine that had come to
/// an end before, with `None`.
pub open spec fn leaves(error: PyErr, exit: Exit<Object, PyErr>) -> bool {
    match exit {
        Exit::Exhausted => is_stop_iteration(error) && is_python_none(returned_value(error)),
        Exit::Returned(value) => is_stop_iteration(error) && returned_value(error) == value,
        Exit::Raised(raised) => error == raised,
    }
}

impl Fault<PyErr> {
    /// Reports the fault as a Python exception.
    pub fn into_py_err(self) -> (error: PyErr)
        ensures
            reports(error, self),
    {
        match self {
            Fault::Python(error) => error,
            Fault::NotAwaitable => python::value_error(
                "the object does not have `__await__` property",
            ),
            Fault::NotFuture => python::runtime_error(".send returned non-future"),
            Fault::NotBlocking => python::runtime_error(
                ".send returned a future with _asyncio_future_blocking != True",
            ),
        }
    }
}

impl Exit<Object, PyErr> {
    /// Reports the exit as the exception by which a coroutine leaves `send`.
    pub fn into_py_err(self) -> (error: PyErr)
        ensures
            leaves(error, self),
    {
        match self {
            Exit::Exhausted => python::bare_stop_iteration(),
            Exit::Returned(value) => python::stop_iteration(value),
            Exit::Raised(error) => error,
        }
    }
}

} // verus!

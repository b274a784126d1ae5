//! What the crate has from PyO3 and from `std::task`: their types, names for what is
//! observed of their values, and the functions that run no Python code.
//!
//! The functions here are trusted: each makes one outside call, and what it states of
//! that call is not proved. The calls that take an interpreter are in
//! [`crate::session`].

use pyo3::exceptions::{PyRuntimeError, PyStopIteration, PyTypeError, PyValueError};
use pyo3::{Py, PyAny, PyErr};
use std::task::Waker;
use vstd::prelude::*;

verus! {

/// PyO3's proof that the current thread is attached to the interpreter.
#[verifier::external_type_specification]
#[verifier::external_body]
pub struct ExPython<'py>(pyo3::Python<'py>);

/// PyO3's owned reference to a Python object.
#[verifier::external_type_specification]
#[verifier::external_body]
#[verifier::reject_recursive_types(T)]
pub struct ExPy<T>(pyo3::Py<T>);

/// PyO3's type of a Python object about which nothing more is known.
#[verifier::external_type_specification]
#[verifier::external_body]
pub struct ExPyAny(pyo3::PyAny);

/// PyO3's Python exception.
#[verifier::external_type_specification]
#[verifier::external_body]
pub struct ExPyErr(pyo3::PyErr);

/// The handle by which a Rust task is woken.
#[verifier::external_type_specification]
#[verifier::external_body]
pub struct ExWaker(std::task::Waker);

/// A reference to a Python object.
pub type Object = Py<PyAny>;

/// Whether `object` is Python's `None`.
pub uninterp spec fn is_python_none(object: Py<PyAny>) -> bool;

/// Whether `object` is an exception: an instance of `BaseException`.
pub uninterp spec fn is_exception(object: Py<PyAny>) -> bool;

/// Whether `object` is a class of exceptions: `BaseException` or a subclass of it.
pub uninterp spec fn is_exception_class(object: Py<PyAny>) -> bool;

/// Whether the exception is an instance of `StopIteration`.
pub uninterp spec fn is_stop_iteration_instance(exception: Py<PyAny>) -> bool;

/// Whether `error` is an instance of `ValueError`.
pub uninterp spec fn is_value_error(error: PyErr) -> bool;

/// Whether `error` is an instance of `RuntimeError`.
pub uninterp spec fn is_runtime_error(error: PyErr) -> bool;

/// Whether `error` is an instance of `TypeError`.
pub uninterp spec fn is_type_error(error: PyErr) -> bool;

/// The exception instance that `error` carries.
pub uninterp spec fn exception_object(error: PyErr) -> Py<PyAny>;

/// Whether `error` is a `StopIteration`: whether the exception that it carries is one.
pub open spec fn is_stop_iteration(error: PyErr) -> bool {
    is_stop_iteration_instance(exception_object(error))
}

/// `error` is what raising `object` amounts to. Raising an exception raises that very
/// exception, and an object that is neither an exception nor a class of exceptions cannot
/// be raised: that is a `TypeError`. What comes of a class is up to the class.
pub open spec fn amounts_to(error: PyErr, object: Object) -> bool {
    &&& is_exception(object) ==> exception_object(error) == object
    &&& !is_exception(object) && !is_exception_class(object) ==> {
        &&& is_type_error(error)
        &&& !is_stop_iteration(error)
        &&& error_message(error) == "exceptions must derive from BaseException"@
    }
}

/// The value that the `StopIteration` was made with: what its attribute `value`
/// holds, unless Python code has set that attribute since.
pub uninterp spec fn returned_value(error: PyErr) -> Py<PyAny>;

/// The message that the exception was made with.
pub uninterp spec fn error_message(error: PyErr) -> Seq<char>;

/// `PyStopIteration::new_err` with no argument: a `StopIteration` whose value is
/// `None`.
#[verifier::external_body]
pub(crate) fn bare_stop_iteration() -> (error: PyErr)
    ensures
        is_stop_iteration(error),
        is_python_none(returned_value(error)),
{
    PyStopIteration::new_err(())
}

/// `PyStopIteration::new_err` with one argument: a `StopIteration` with that value,
/// whatever the value is. The arguments are handed over as a tuple, so that a value
/// that is a tuple itself is not taken apart.
#[verifier::external_body]
pub(crate) fn stop_iteration(value: Object) -> (error: PyErr)
    ensures
        is_stop_iteration(error),
        returned_value(error) == value,
{
    PyStopIteration::new_err((value,))
}

/// `PyValueError::new_err`: a `ValueError` with the message; no `StopIteration`.
#[verifier::external_body]
pub(crate) fn value_error(message: &'static str) -> (error: PyErr)
    ensures
        is_value_error(error),
        error_message(error) == message@,
        !is_stop_iteration(error),
{
    PyValueError::new_err(message)
}

/// `PyRuntimeError::new_err`: a `RuntimeError` with the message; no `StopIteration`.
#[verifier::external_body]
pub(crate) fn runtime_error(message: &'static str) -> (error: PyErr)
    ensures
        is_runtime_error(error),
        error_message(error) == message@,
        !is_stop_iteration(error),
{
    PyRuntimeError::new_err(message)
}

/// `PyTypeError::new_err`: a `TypeError` with the message; no `StopIteration`.
#[verifier::external_body]
pub(crate) fn type_error(message: &'static str) -> (error: PyErr)
    ensures
        is_type_error(error),
        error_message(error) == message@,
        !is_stop_iteration(error),
{
    PyTypeError::new_err(message)
}

/// `Waker::clone`: a handle that wakes the same task.
#[verifier::external_body]
pub(crate) fn clone_waker(waker: &Waker) -> (same: Waker)
    ensures
        same == *waker,
{
    waker.clone()
}

} // verus!

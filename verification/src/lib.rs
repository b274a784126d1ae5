//! Bidirectional bridge between Rust Futures and Python Coroutines, built on PyO3.
//!
//! - [`RustCoroutine`] wraps a Rust future as a Python coroutine.
//! - [`PyAwaitable`] wraps a Python awaitable as a Rust future.
//!
//! Both are state machines that are polled. Whatever they ask of Python goes through a
//! [`session::Session`], and each operation states, as a [`script::Script`], which calls
//! it makes and what it makes of every answer; [`laws`] holds what follows from that.

pub mod asyncio;
pub mod callback;
pub mod laws;
pub mod outcome;
pub mod py_as_rs;
pub mod python;
pub mod rs_as_py;
pub mod script;
pub mod session;

pub use py_as_rs::PyAwaitable;
pub use rs_as_py::RustCoroutine;

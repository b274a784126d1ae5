# pytures

Bidirectional bridge between Rust Futures and Python Coroutines, built on
[PyO3](https://pyo3.rs/) and verified with Verus.

Both are poll-based state machines; `pytures` adapts one to the other while preserving
proper wakeup semantics (no busy-polling when an event loop is available).

- `RustCoroutine` wraps a Rust future as a Python coroutine.
- `PyAwaitable` wraps a Python awaitable as a Rust future.

## Layout

- `src/` is the verified library.
  - `py_as_rs`, `rs_as_py`: the two state machines.
  - `asyncio`, `callback`, `outcome`: what they share.
  - `script`: how contracts speak of calls into Python.
  - `session`, `python`: the calls themselves. What is trusted is in `session/calls` (the
    calls that need the interpreter) and in `python` (those that do not, and the types).
  - `laws`: what holds across operations: of awaitables, of coroutines, and of both ways
    together.
- `app/` holds the `Future`, `Wake` and Python class implementations around it.
- `tests/` drives the library with a Python interpreter and with tokio.

## Contracts

What Python answers to a call cannot be known. What the library asks, in which order, and
what it makes of each answer can. A `Session` therefore keeps a record (in proofs only) of
every call and its answer, and an operation's contract gives the `Script` that its part of
the record follows: the first call, and for every answer to it how to go on.

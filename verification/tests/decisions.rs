//! The decisions of the bridge on plain values.

use pytures::outcome::{
    require_awaitable, require_blocking, require_future, Exit, Fault, Progress,
};
use pytures::py_as_rs::{conclude, State, Turn};
use pytures::rs_as_py::leave;

#[test]
fn an_object_must_be_awaitable() {
    assert!(matches!(require_awaitable::<i32>(Ok(true)), Ok(())));
    assert!(matches!(require_awaitable::<i32>(Ok(false)), Err(Fault::NotAwaitable)));
    assert!(matches!(require_awaitable(Err(7)), Err(Fault::Python(7))));
}

#[test]
fn a_yielded_object_must_be_a_future() {
    assert!(matches!(require_future::<i32>(Ok(true)), Ok(())));
    assert!(matches!(require_future::<i32>(Ok(false)), Err(Fault::NotFuture)));
    assert!(matches!(require_future(Err(7)), Err(Fault::Python(7))));
}

#[test]
fn a_yielded_future_must_be_blocked_on() {
    assert!(matches!(require_blocking::<i32>(Ok(true)), Ok(())));
    assert!(matches!(require_blocking::<i32>(Ok(false)), Err(Fault::NotBlocking)));
    assert!(matches!(require_blocking(Err(7)), Err(Fault::Python(7))));
}

#[test]
fn a_fault_completes_the_awaitable() {
    let (state, out) = conclude::<i32, i32>(Err(Fault::NotFuture));
    assert!(matches!(state, State::Complete));
    assert!(matches!(out, Progress::Ready(Err(Fault::NotFuture))));
}

#[test]
fn a_turn_leaves_its_state() {
    let (state, out) = conclude::<i32, i32>(Ok(Turn {
        state: State::Blocked { coroutine: 1, blocked_on: 2 },
        progress: Progress::Pending,
    }));
    assert!(matches!(state, State::Blocked { coroutine: 1, blocked_on: 2 }));
    assert!(matches!(out, Progress::Pending));

    let (state, out) = conclude::<i32, i32>(Ok(Turn {
        state: State::Complete,
        progress: Progress::Ready(3),
    }));
    assert!(matches!(state, State::Complete));
    assert!(matches!(out, Progress::Ready(Ok(3))));
}

#[test]
fn a_future_leaves_with_its_value_or_its_error() {
    assert!(matches!(leave::<i32, i32>(Ok(4)), Exit::Returned(4)));
    assert!(matches!(leave::<i32, i32>(Err(5)), Exit::Raised(5)));
}

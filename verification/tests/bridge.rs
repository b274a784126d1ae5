//! The bridge, driven by a Python interpreter and by tokio.

use std::future::Future;
use std::pin::Pin;
use std::sync::atomic::{AtomicUsize, Ordering};
use std::sync::{Arc, Mutex};
use std::task::{Context, Poll, Wake, Waker};
use std::time::Duration;

use pyo3::exceptions::{PyRuntimeError, PyStopIteration, PyTypeError, PyValueError};
use pyo3::types::{PyAnyMethods, PyCFunction, PyDict, PyTuple, PyTupleMethods};
use pyo3::{Bound, IntoPyObject, Py, PyAny, PyErr, PyResult, Python};

use pytures::asyncio::{get_running_loop_fn, is_future, isfuture_fn};
use pytures::callback::{Arguments, Callback};
use pytures::outcome::{Exit, Fault, Progress};
use pytures::rs_as_py::PyFutureWaker;
use pytures::session::{Functions, Session};
use pytures::{PyAwaitable, RustCoroutine};

fn session(py: Python<'_>) -> Session<'_> {
    Session::new(py, Functions { isfuture: None, get_running_loop: None })
}

/// A Python awaitable as a Rust future.
struct Awaited(PyAwaitable);

impl Awaited {
    fn try_from(object: Py<PyAny>) -> PyResult<Self> {
        Python::attach(|py| PyAwaitable::try_from(&mut session(py), object))
            .map(Awaited)
            .map_err(|fault| fault.into_py_err())
    }
}

impl Future for Awaited {
    type Output = PyResult<Py<PyAny>>;

    fn poll(mut self: Pin<&mut Self>, cx: &mut Context<'_>) -> Poll<Self::Output> {
        assert!(!self.0.is_complete());
        match Python::attach(|py| self.0.poll(&mut session(py), cx.waker())) {
            Progress::Pending => Poll::Pending,
            Progress::Ready(Ok(value)) => Poll::Ready(Ok(value)),
            Progress::Ready(Err(fault)) => Poll::Ready(Err(fault.into_py_err())),
        }
    }
}

impl Drop for Awaited {
    fn drop(&mut self) {
        if !self.0.is_complete() {
            Python::attach(|py| self.0.abandon(&mut session(py)));
        }
    }
}

struct LoopWaker(PyFutureWaker);

impl Wake for LoopWaker {
    fn wake(self: Arc<Self>) {
        self.wake_by_ref();
    }

    fn wake_by_ref(self: &Arc<Self>) {
        Python::attach(|py| self.0.wake_by_ref(&mut session(py))).unwrap();
    }
}

type BoxFuture = Pin<Box<dyn Future<Output = PyResult<Py<PyAny>>> + Send>>;

fn poll_boxed(
    mut future: BoxFuture,
    waker: Option<PyFutureWaker>,
) -> (BoxFuture, Progress<PyResult<Py<PyAny>>>) {
    let waker = match waker {
        Some(waker) => Waker::from(Arc::new(LoopWaker(waker))),
        None => Waker::noop().clone(),
    };
    let polled = match future.as_mut().poll(&mut Context::from_waker(&waker)) {
        Poll::Ready(result) => Progress::Ready(result),
        Poll::Pending => Progress::Pending,
    };
    (future, polled)
}

fn send(coroutine: &mut RustCoroutine<BoxFuture>, py: Python<'_>) -> PyResult<Py<PyAny>> {
    coroutine.send(&mut session(py), &py.None(), poll_boxed).map_err(|exit| exit.into_py_err())
}

const COROUTINE_CLASS: &str = "class Coroutine:
    def __init__(self, send, throw, close):
        self._send, self._throw, self._close = send, throw, close
    def __await__(self):
        return self
    def __iter__(self):
        return self
    def __next__(self):
        return self._send(None)
    def send(self, value):
        return self._send(value)
    def throw(self, exc):
        return self._throw(exc)
    def close(self):
        self._close()
";

fn module<'py>(py: Python<'py>, code: &str, name: &str) -> PyResult<Bound<'py, PyAny>> {
    let module = py.import("types")?.call_method1("ModuleType", (name,))?;
    py.import("builtins")?.call_method1("exec", (code, module.getattr("__dict__")?))?;
    Ok(module)
}

/// A Rust future as a Python object that can be awaited.
fn coroutine_object<'py>(
    py: Python<'py>,
    future: impl Future<Output = PyResult<Py<PyAny>>> + Send + 'static,
) -> PyResult<Bound<'py, PyAny>> {
    let boxed: BoxFuture = Box::pin(future);
    let shared = Arc::new(Mutex::new(RustCoroutine::new(boxed)));
    let for_send = shared.clone();
    let send_fn = PyCFunction::new_closure(
        py,
        None,
        None,
        move |args: &Bound<'_, PyTuple>, _kwargs: Option<&Bound<'_, PyDict>>| {
            send(&mut for_send.lock().unwrap(), args.py())
        },
    )?;
    let for_throw = shared.clone();
    let throw_fn = PyCFunction::new_closure(
        py,
        None,
        None,
        move |args: &Bound<'_, PyTuple>, _kwargs: Option<&Bound<'_, PyDict>>| {
            let exception = args.get_item(0)?.unbind();
            let exit = for_throw.lock().unwrap().throw(&mut session(args.py()), exception);
            Err::<Py<PyAny>, PyErr>(exit.into_py_err())
        },
    )?;
    let close_fn = PyCFunction::new_closure(
        py,
        None,
        None,
        move |args: &Bound<'_, PyTuple>, _kwargs: Option<&Bound<'_, PyDict>>| {
            shared.lock().unwrap().close(&mut session(args.py()))
        },
    )?;
    module(py, COROUTINE_CLASS, "coroutine_class")?
        .getattr("Coroutine")?
        .call1((send_fn, throw_fn, close_fn))
}

fn runtime() -> tokio::runtime::Runtime {
    tokio::runtime::Builder::new_current_thread().enable_time().build().unwrap()
}

fn forty_two() -> PyResult<Py<PyAny>> {
    Python::attach(|py| Ok(42i32.into_pyobject(py)?.into_any().unbind()))
}

fn run_in_event_loop<'py>(
    py: Python<'py>,
    awaitable: &Bound<'py, PyAny>,
) -> PyResult<Bound<'py, PyAny>> {
    let asyncio = py.import("asyncio")?;
    let event_loop = asyncio.call_method0("new_event_loop")?;
    let result = event_loop.call_method1("run_until_complete", (awaitable,))?;
    event_loop.call_method0("close")?;
    Ok(result)
}

/// Busy-polls the awaitable: there is no event loop, so the coroutine yields `None`.
#[test]
fn nested_tokio_sleep_through_pyawaitable() {
    runtime().block_on(async {
        let awaited = Python::attach(|py| -> PyResult<Awaited> {
            let py_wrapper = module(
                py,
                "async def py_wrapper(coro):\n    return await coro",
                "test",
            )?
            .getattr("py_wrapper")?;
            let rust_coro = coroutine_object(py, async {
                tokio::time::sleep(Duration::from_millis(50)).await;
                forty_two()
            })?;
            let py_coro = py_wrapper.call1((rust_coro,))?;
            Awaited::try_from(py_coro.unbind())
        })
        .unwrap();

        let result = Box::pin(awaited).await.unwrap();

        Python::attach(|py| {
            let value: i32 = result.bind(py).extract().unwrap();
            assert_eq!(value, 42_i32);
        });
    });
}

/// An event loop drives a Rust future that awaits a Python coroutine that sleeps. The
/// awaitable is blocked on the future of the sleep, and the wake-ups run through: timer,
/// done callback, waker future, event loop.
#[test]
fn combined_waker_chain() {
    let result = runtime().block_on(async {
        tokio::task::spawn_blocking(|| {
            Python::attach(|py| -> PyResult<i32> {
                let inner_fn = module(
                    py,
                    "import asyncio\nasync def inner():\n    await asyncio.sleep(0.05)\n    return 42",
                    "test_inner",
                )?
                .getattr("inner")?;
                let py_coro = inner_fn.call0()?.unbind();
                let outer = coroutine_object(py, async move {
                    let awaited = Awaited::try_from(py_coro)?;
                    Box::pin(awaited).await
                })?;
                run_in_event_loop(py, &outer)?.extract::<i32>()
            })
        })
        .await
        .unwrap()
        .unwrap()
    });
    assert_eq!(result, 42_i32);
}

/// Drives a coroutine by calling `send` in a tight loop. Every `send` that leaves it
/// pending yields a new future, and the one from before is cancelled.
#[test]
fn waker_future_cancelled_on_repoll() {
    runtime().block_on(async {
        tokio::task::spawn_blocking(|| {
            Python::attach(|py| -> PyResult<()> {
                let drive_and_check = module(
                    py,
                    "
async def drive_and_check(coro, expected_pending_polls):
    futures = []
    try:
        while True:
            f = coro.send(None)
            futures.append(f)
    except StopIteration as e:
        result = e.value

    cancelled = sum(1 for f in futures if f.cancelled())
    assert cancelled == len(futures), (
        f'expected all {len(futures)} waker futures to be cancelled, '
        f'but only {cancelled} were'
    )
    assert len(futures) == expected_pending_polls, (
        f'expected {expected_pending_polls} pending polls, got {len(futures)}'
    )
    return result
",
                    "test_waker_leak",
                )?
                .getattr("drive_and_check")?;

                const PENDING_POLLS: usize = 5;

                let rust_coro = coroutine_object(py, async {
                    for _ in 0..PENDING_POLLS {
                        yield_once().await;
                    }
                    forty_two()
                })?;
                let py_coro = drive_and_check.call1((rust_coro, PENDING_POLLS))?;
                let result = run_in_event_loop(py, &py_coro)?;
                assert_eq!(result.extract::<i32>()?, 42);
                Ok(())
            })
        })
        .await
        .unwrap()
        .unwrap();
    });
}

#[test]
fn nested_tokio_sleep_through_python_event_loop() {
    let result = runtime().block_on(async {
        tokio::task::spawn_blocking(|| {
            Python::attach(|py| -> PyResult<i32> {
                let py_wrapper = module(
                    py,
                    "async def py_wrapper(coro):\n    return await coro",
                    "test",
                )?
                .getattr("py_wrapper")?;
                let rust_coro = coroutine_object(py, async {
                    tokio::time::sleep(Duration::from_millis(50)).await;
                    forty_two()
                })?;
                let py_coro = py_wrapper.call1((rust_coro,))?;
                run_in_event_loop(py, &py_coro)?.extract::<i32>()
            })
        })
        .await
        .unwrap()
        .unwrap()
    });
    assert_eq!(result, 42_i32);
}

/// A future that is pending once, and wakes at once.
async fn yield_once() {
    let mut yielded = false;
    std::future::poll_fn(|cx| {
        if yielded {
            Poll::Ready(())
        } else {
            yielded = true;
            cx.waker().wake_by_ref();
            Poll::Pending
        }
    })
    .await;
}

/// Counts how often it is woken.
struct Counter(AtomicUsize);

impl Wake for Counter {
    fn wake(self: Arc<Self>) {
        self.0.fetch_add(1, Ordering::SeqCst);
    }
}

fn counter() -> (Arc<Counter>, Waker) {
    let counter = Arc::new(Counter(AtomicUsize::new(0)));
    let waker = Waker::from(counter.clone());
    (counter, waker)
}

fn awaitable(py: Python<'_>, code: &str, expression: &str) -> PyAwaitable {
    let object = module(py, &format!("{code}\nobject = {expression}\n"), "given")
        .unwrap()
        .getattr("object")
        .unwrap();
    match PyAwaitable::try_from(&mut session(py), object.unbind()) {
        Ok(awaitable) => awaitable,
        Err(fault) => panic!("{}", fault.into_py_err()),
    }
}

fn number(py: Python<'_>, object: &Py<PyAny>) -> i32 {
    object.bind(py).extract().unwrap()
}

#[test]
fn an_object_without_await_is_refused() {
    Python::attach(|py| {
        let object = 5i32.into_pyobject(py).unwrap().into_any().unbind();
        match PyAwaitable::try_from(&mut session(py), object) {
            Err(fault) => {
                assert!(matches!(fault, Fault::NotAwaitable));
                let error = fault.into_py_err();
                assert!(error.is_instance_of::<PyValueError>(py));
                assert_eq!(
                    error.value(py).str().unwrap().to_string(),
                    "the object does not have `__await__` property"
                );
            }
            Ok(_) => panic!("an integer was accepted"),
        }
    });
}

#[test]
fn what_the_test_for_await_raises_is_passed_on() {
    Python::attach(|py| {
        let object = module(
            py,
            "class Odd:
    def __getattr__(self, name):
        raise ValueError('odd')
object = Odd()
",
            "odd",
        )
        .unwrap()
        .getattr("object")
        .unwrap()
        .unbind();
        match PyAwaitable::try_from(&mut session(py), object) {
            Err(Fault::Python(error)) => assert!(error.is_instance_of::<PyValueError>(py)),
            _ => panic!("the exception got lost"),
        }
    });
}

#[test]
fn a_coroutine_returns_its_value() {
    Python::attach(|py| {
        let (count, waker) = counter();
        let mut it = awaitable(py, "async def f():\n    return 7", "f()");
        assert!(!it.is_complete());
        match it.poll(&mut session(py), &waker) {
            Progress::Ready(Ok(value)) => assert_eq!(number(py, &value), 7),
            _ => panic!("no value"),
        }
        assert_eq!(count.0.load(Ordering::SeqCst), 0);
        assert!(it.is_complete());
    });
}

#[test]
fn a_coroutine_raises_its_exception() {
    Python::attach(|py| {
        let (_, waker) = counter();
        let mut it = awaitable(py, "async def f():\n    raise ValueError('bad')", "f()");
        match it.poll(&mut session(py), &waker) {
            Progress::Ready(Err(Fault::Python(error))) => {
                assert!(error.is_instance_of::<PyValueError>(py));
                assert_eq!(error.value(py).str().unwrap().to_string(), "bad");
            }
            _ => panic!("no exception"),
        }
        assert!(it.is_complete());
    });
}

#[test]
fn an_await_that_raises_fails_the_awaitable() {
    Python::attach(|py| {
        let (count, waker) = counter();
        let mut it = awaitable(
            py,
            "class A:\n    def __await__(self):\n        raise ValueError('no')",
            "A()",
        );
        match it.poll(&mut session(py), &waker) {
            Progress::Ready(Err(Fault::Python(error))) => {
                assert!(error.is_instance_of::<PyValueError>(py))
            }
            _ => panic!("no exception"),
        }
        assert_eq!(count.0.load(Ordering::SeqCst), 0);
        assert!(it.is_complete());
    });
}

const GENERATOR: &str = "class A:
    def __init__(self, items):
        self.items = items
        self.received = []
    def __await__(self):
        for item in self.items:
            try:
                self.received.append((yield item))
            except Exception as e:
                self.received.append(type(e).__name__)
        return self.received
";

#[test]
fn a_yielded_none_asks_for_another_turn() {
    Python::attach(|py| {
        let (count, waker) = counter();
        let mut it = awaitable(py, GENERATOR, "A([None, None])");
        for turn in 1..3 {
            assert!(matches!(it.poll(&mut session(py), &waker), Progress::Pending));
            assert_eq!(count.0.load(Ordering::SeqCst), turn);
        }
        match it.poll(&mut session(py), &waker) {
            Progress::Ready(Ok(value)) => {
                assert_eq!(value.bind(py).repr().unwrap().to_string(), "[None, None]")
            }
            _ => panic!("no value"),
        }
    });
}

#[test]
fn a_yielded_number_is_a_fault() {
    Python::attach(|py| {
        let (_, waker) = counter();
        let mut it = awaitable(py, GENERATOR, "A([5])");
        match it.poll(&mut session(py), &waker) {
            Progress::Ready(Err(fault)) => {
                assert!(matches!(fault, Fault::NotFuture));
                let error = fault.into_py_err();
                assert!(error.is_instance_of::<PyRuntimeError>(py));
                assert_eq!(
                    error.value(py).str().unwrap().to_string(),
                    ".send returned non-future"
                );
            }
            _ => panic!("no fault"),
        }
        assert!(it.is_complete());
    });
}

const FUTURE: &str = "class F:
    _asyncio_future_blocking = False
    def __init__(self, blocking=True, outcome=None):
        self._asyncio_future_blocking = blocking
        self.outcome = outcome
        self.is_done = False
        self.callbacks = []
        self.seen = []
    def done(self):
        self.seen.append('done')
        return self.is_done
    def result(self):
        self.seen.append('result')
        if isinstance(self.outcome, Exception):
            raise self.outcome
        return self.outcome
    def add_done_callback(self, callback):
        self.callbacks.append(callback)
    def finish(self):
        self.is_done = True
        for callback in self.callbacks:
            callback(self)
";

#[test]
fn a_future_that_is_not_blocked_on_is_a_fault() {
    Python::attach(|py| {
        let (_, waker) = counter();
        let mut it = awaitable(py, &format!("{GENERATOR}{FUTURE}"), "A([F(False)])");
        match it.poll(&mut session(py), &waker) {
            Progress::Ready(Err(fault)) => {
                assert!(matches!(fault, Fault::NotBlocking));
                let error = fault.into_py_err();
                assert!(error.is_instance_of::<PyRuntimeError>(py));
                assert_eq!(
                    error.value(py).str().unwrap().to_string(),
                    ".send returned a future with _asyncio_future_blocking != True"
                );
            }
            _ => panic!("no fault"),
        }
    });
}

fn given<'py>(py: Python<'py>, code: &str, expression: &str) -> (Bound<'py, PyAny>, PyAwaitable) {
    let object = module(py, &format!("{code}\nobject = {expression}\n"), "given")
        .unwrap()
        .getattr("object")
        .unwrap();
    match PyAwaitable::try_from(&mut session(py), object.clone().unbind()) {
        Ok(awaitable) => (object, awaitable),
        Err(fault) => panic!("{}", fault.into_py_err()),
    }
}

fn item<'py>(object: &Bound<'py, PyAny>, index: usize) -> Bound<'py, PyAny> {
    object.getattr("items").unwrap().get_item(index).unwrap()
}

#[test]
fn a_yielded_future_is_waited_for() {
    Python::attach(|py| {
        let (count, waker) = counter();
        let (object, mut it) =
            given(py, &format!("{GENERATOR}{FUTURE}"), "A([F(outcome=3), F(outcome=KeyError())])");

        // The coroutine yields the future: the mark is taken off, and the waker left with it.
        assert!(matches!(it.poll(&mut session(py), &waker), Progress::Pending));
        let future = item(&object, 0);
        assert!(!future.getattr("_asyncio_future_blocking").unwrap().is_truthy().unwrap());
        assert_eq!(future.getattr("callbacks").unwrap().len().unwrap(), 1);
        assert_eq!(count.0.load(Ordering::SeqCst), 0);

        future.call_method0("finish").unwrap();
        assert_eq!(count.0.load(Ordering::SeqCst), 1);
        assert_eq!(future.getattr("seen").unwrap().repr().unwrap().to_string(), "[]");
        assert!(matches!(it.poll(&mut session(py), &waker), Progress::Pending));
        assert_eq!(
            future.getattr("seen").unwrap().repr().unwrap().to_string(),
            "['done', 'result']"
        );
        assert_eq!(count.0.load(Ordering::SeqCst), 2);

        // The result is sent; the next future fails, and its exception is thrown.
        assert!(matches!(it.poll(&mut session(py), &waker), Progress::Pending));
        item(&object, 1).call_method0("finish").unwrap();
        assert!(matches!(it.poll(&mut session(py), &waker), Progress::Pending));
        match it.poll(&mut session(py), &waker) {
            Progress::Ready(Ok(value)) => {
                assert_eq!(value.bind(py).repr().unwrap().to_string(), "[3, 'KeyError']")
            }
            _ => panic!("no value"),
        }
    });
}

/// While the future is not done, a poll neither wakes nor resumes, but the future is told
/// whom to wake: the waker of the latest poll, as well as those before it.
#[test]
fn the_waker_of_the_latest_poll_is_woken() {
    Python::attach(|py| {
        let (first, first_waker) = counter();
        let (second, second_waker) = counter();
        let (object, mut it) = given(py, &format!("{GENERATOR}{FUTURE}"), "A([F()])");
        assert!(matches!(it.poll(&mut session(py), &first_waker), Progress::Pending));
        assert!(matches!(it.poll(&mut session(py), &second_waker), Progress::Pending));
        let future = item(&object, 0);
        assert_eq!(future.getattr("seen").unwrap().repr().unwrap().to_string(), "['done']");
        assert_eq!(object.getattr("received").unwrap().len().unwrap(), 0);
        assert_eq!(first.0.load(Ordering::SeqCst), 0);
        assert_eq!(second.0.load(Ordering::SeqCst), 0);
        future.call_method0("finish").unwrap();
        assert_eq!(first.0.load(Ordering::SeqCst), 1);
        assert_eq!(second.0.load(Ordering::SeqCst), 1);
    });
}

const PROTOCOL: &str = "class P:
    def __init__(self, items):
        self.items = items
        self.calls = []
    def __await__(self):
        self.calls.append('await')
        self.rest = iter(self.items)
        return self
    def step(self):
        for item in self.rest:
            return item
        raise StopIteration('end')
    def send(self, value):
        self.calls.append(('send', value))
        return self.step()
    def throw(self, exception):
        self.calls.append(('throw', type(exception).__name__))
        return self.step()
    def close(self):
        self.calls.append('close')
";

/// Over a whole run: one resumption more than there are yields, each with what the yield
/// before it came to.
#[test]
fn a_coroutine_is_resumed_by_the_protocol() {
    Python::attach(|py| {
        let (count, waker) = counter();
        let (object, mut it) = given(
            py,
            &format!("{PROTOCOL}{FUTURE}"),
            "P([None, F(outcome=3), None, F(outcome=KeyError())])",
        );
        assert_eq!(calls(&object), "[]");
        assert!(matches!(it.poll(&mut session(py), &waker), Progress::Pending));
        assert_eq!(calls(&object), "['await', ('send', None)]");
        assert_eq!(count.0.load(Ordering::SeqCst), 1);

        assert!(matches!(it.poll(&mut session(py), &waker), Progress::Pending));
        assert_eq!(count.0.load(Ordering::SeqCst), 1);
        assert!(matches!(it.poll(&mut session(py), &waker), Progress::Pending));
        assert_eq!(calls(&object), "['await', ('send', None), ('send', None)]");
        item(&object, 1).setattr("is_done", true).unwrap();
        assert!(matches!(it.poll(&mut session(py), &waker), Progress::Pending));
        assert_eq!(calls(&object), "['await', ('send', None), ('send', None)]");
        assert_eq!(count.0.load(Ordering::SeqCst), 2);

        assert!(matches!(it.poll(&mut session(py), &waker), Progress::Pending));
        assert_eq!(count.0.load(Ordering::SeqCst), 3);
        assert!(matches!(it.poll(&mut session(py), &waker), Progress::Pending));
        item(&object, 3).setattr("is_done", true).unwrap();
        assert!(matches!(it.poll(&mut session(py), &waker), Progress::Pending));
        assert_eq!(count.0.load(Ordering::SeqCst), 4);
        match it.poll(&mut session(py), &waker) {
            Progress::Ready(Ok(value)) => {
                assert_eq!(value.bind(py).extract::<String>().unwrap(), "end")
            }
            _ => panic!("no value"),
        }
        assert_eq!(
            calls(&object),
            "['await', ('send', None), ('send', None), ('send', 3), ('send', None), \
             ('throw', 'KeyError')]"
        );
        assert_eq!(count.0.load(Ordering::SeqCst), 4);
    });
}

const RECORDER: &str = "class R:
    _asyncio_future_blocking = False
    def __init__(self, fail=None, refuse=False, wait=False):
        self.fail = fail
        self.refuse = refuse
        self.wait = wait
        self.calls = []
    def __await__(self):
        calls = self.calls
        fail = self.fail
        wait = self.wait
        class Gen:
            def send(self, value):
                if wait:
                    return None
                if fail is not None:
                    raise fail
                raise StopIteration(11)
            def close(self):
                calls.append('close')
        return Gen()
    def set_result(self, value):
        self.calls.append(('set_result', value))
        if self.refuse:
            raise KeyError('refused')
    def set_exception(self, exception):
        self.calls.append(('set_exception', exception is self.fail))
        if self.refuse:
            raise KeyError('refused')
    def cancel(self):
        self.calls.append('cancel')
";

fn calls(object: &Bound<'_, PyAny>) -> String {
    object.getattr("calls").unwrap().repr().unwrap().to_string()
}

#[test]
fn a_result_is_set_on_a_future() {
    Python::attach(|py| {
        let (_, waker) = counter();
        let (object, mut it) = given(py, RECORDER, "R()");
        match it.poll(&mut session(py), &waker) {
            Progress::Ready(Ok(value)) => assert_eq!(number(py, &value), 11),
            _ => panic!("no value"),
        }
        assert_eq!(calls(&object), "[('set_result', 11)]");
        it.abandon(&mut session(py));
        assert_eq!(calls(&object), "[('set_result', 11)]");
    });
}

#[test]
fn an_exception_is_set_on_a_future() {
    Python::attach(|py| {
        let (_, waker) = counter();
        let (object, mut it) = given(py, RECORDER, "R(ValueError('x'))");
        match it.poll(&mut session(py), &waker) {
            Progress::Ready(Err(Fault::Python(error))) => {
                assert!(error.is_instance_of::<PyValueError>(py))
            }
            _ => panic!("no exception"),
        }
        assert_eq!(calls(&object), "[('set_exception', True)]");
    });
}

/// The outcome of the coroutine is the output, whatever the future makes of it.
#[test]
fn a_future_may_refuse_the_outcome() {
    Python::attach(|py| {
        let (_, waker) = counter();
        let (object, mut it) = given(py, RECORDER, "R(refuse=True)");
        match it.poll(&mut session(py), &waker) {
            Progress::Ready(Ok(value)) => assert_eq!(number(py, &value), 11),
            _ => panic!("no value"),
        }
        assert_eq!(calls(&object), "[('set_result', 11)]");
        assert!(it.is_complete());

        let (object, mut it) = given(py, RECORDER, "R(ValueError('x'), True)");
        match it.poll(&mut session(py), &waker) {
            Progress::Ready(Err(Fault::Python(error))) => {
                assert!(error.is_instance_of::<PyValueError>(py));
                assert!(error.value(py).is(&object.getattr("fail").unwrap()));
            }
            _ => panic!("no exception"),
        }
        assert_eq!(calls(&object), "[('set_exception', True)]");
        assert!(it.is_complete());
    });
}

/// A plain `asyncio` future is done before its outcome can be set on it.
#[test]
fn a_done_future_gives_its_outcome() {
    Python::attach(|py| {
        let (_, waker) = counter();
        let (object, mut it) = given(
            py,
            "import asyncio\nf = asyncio.new_event_loop().create_future()\nf.set_result(42)",
            "f",
        );
        match it.poll(&mut session(py), &waker) {
            Progress::Ready(Ok(value)) => assert_eq!(number(py, &value), 42),
            _ => panic!("no value"),
        }
        assert!(it.is_complete());
        assert_eq!(object.call_method0("result").unwrap().extract::<i32>().unwrap(), 42);

        let (object, mut it) = given(
            py,
            "import asyncio
f = asyncio.new_event_loop().create_future()
f.set_exception(ValueError('bad'))",
            "f",
        );
        match it.poll(&mut session(py), &waker) {
            Progress::Ready(Err(Fault::Python(error))) => {
                assert!(error.value(py).is(&object.call_method0("exception").unwrap()))
            }
            _ => panic!("no exception"),
        }
    });
}

#[test]
fn dropping_closes_and_cancels() {
    Python::attach(|py| {
        let (_, waker) = counter();
        let (object, it) = given(py, RECORDER, "R()");
        it.abandon(&mut session(py));
        assert_eq!(calls(&object), "['cancel']");

        let (object, mut it) = given(py, RECORDER, "R(wait=True)");
        assert!(matches!(it.poll(&mut session(py), &waker), Progress::Pending));
        it.abandon(&mut session(py));
        assert_eq!(calls(&object), "['close', 'cancel']");

        let (object, mut it) = given(py, &format!("{PROTOCOL}{FUTURE}"), "P([F()])");
        assert!(matches!(it.poll(&mut session(py), &waker), Progress::Pending));
        it.abandon(&mut session(py));
        assert_eq!(calls(&object), "['await', ('send', None), 'close']");
    });
}

fn boxed(future: impl Future<Output = PyResult<Py<PyAny>>> + Send + 'static) -> BoxFuture {
    Box::pin(future)
}

#[test]
fn without_an_event_loop_none_is_yielded() {
    Python::attach(|py| {
        let mut coroutine = RustCoroutine::new(boxed(async {
            yield_once().await;
            forty_two()
        }));
        let mut session = session(py);
        match coroutine.next(&mut session, poll_boxed) {
            Ok(yielded) => assert!(yielded.is_none(py)),
            Err(_) => panic!("it is not pending"),
        }
        match coroutine.send(&mut session, &py.None(), poll_boxed) {
            Err(Exit::Returned(value)) => {
                assert_eq!(number(py, &value), 42);
                let error = Exit::<Py<PyAny>, PyErr>::Returned(value).into_py_err();
                assert!(error.is_instance_of::<PyStopIteration>(py));
                let value = error.value(py).getattr("value").unwrap();
                assert_eq!(value.extract::<i32>().unwrap(), 42);
            }
            _ => panic!("it has not returned"),
        }
        match coroutine.send(&mut session, &py.None(), poll_boxed) {
            Err(exit) => {
                assert!(matches!(exit, Exit::Exhausted));
                let error = exit.into_py_err();
                assert!(error.is_instance_of::<PyStopIteration>(py));
                assert!(error.value(py).getattr("value").unwrap().is_none());
            }
            _ => panic!("it is not exhausted"),
        }
    });
}

#[test]
fn a_future_may_raise() {
    Python::attach(|py| {
        let mut coroutine =
            RustCoroutine::new(boxed(async { Err(PyValueError::new_err("broken")) }));
        match coroutine.send(&mut session(py), &py.None(), poll_boxed) {
            Err(exit) => {
                assert!(matches!(exit, Exit::Raised(_)));
                assert!(exit.into_py_err().is_instance_of::<PyValueError>(py));
            }
            _ => panic!("it has not raised"),
        }
    });
}

#[test]
fn throw_and_close_end_a_coroutine() {
    Python::attach(|py| {
        let mut coroutine = RustCoroutine::new(boxed(async { forty_two() }));
        let exception = PyValueError::new_err("thrown").into_value(py).into_any();
        match coroutine.throw(&mut session(py), exception.clone_ref(py)) {
            Exit::Raised(error) => {
                assert_eq!(error.value(py).str().unwrap().to_string(), "thrown");
                assert!(error.value(py).is(&exception));
            }
            _ => panic!("it has not raised"),
        }
        assert!(matches!(
            coroutine.send(&mut session(py), &py.None(), poll_boxed),
            Err(Exit::Exhausted)
        ));

        let mut coroutine = RustCoroutine::new(boxed(async { forty_two() }));
        coroutine.close(&mut session(py));
        assert!(matches!(
            coroutine.next(&mut session(py), poll_boxed),
            Err(Exit::Exhausted)
        ));
    });
}

/// As Python's `raise` has it, a class of exceptions is thrown as an instance of it, and an
/// object that cannot be raised as a `TypeError`.
#[test]
fn what_is_no_exception_may_be_thrown() {
    Python::attach(|py| {
        let class = py.import("builtins").unwrap().getattr("ValueError").unwrap();
        let number = 5i32.into_pyobject(py).unwrap().into_any();
        let mut coroutine = RustCoroutine::new(boxed(async { forty_two() }));
        let error = coroutine.throw(&mut session(py), class.unbind()).into_py_err();
        assert!(error.is_instance_of::<PyValueError>(py));
        let error = coroutine.throw(&mut session(py), number.unbind()).into_py_err();
        assert!(error.is_instance_of::<PyTypeError>(py));
        assert_eq!(
            error.value(py).str().unwrap().to_string(),
            "exceptions must derive from BaseException"
        );
    });
}

/// Under an event loop: an awaitable that drives a coroutine of a Rust future waits for the
/// future by which that is woken. Where that future fails, its exception is thrown into the
/// coroutine, which raises it, and so the awaitable fails with it.
#[test]
fn what_is_thrown_comes_back() {
    Python::attach(|py| {
        let code = "
class Spy:
    def __init__(self, inner):
        self.inner = inner
        self.yielded = []
        self.thrown = []
    def __await__(self):
        return self
    def send(self, value):
        self.yielded.append(self.inner.send(value))
        return self.yielded[-1]
    def throw(self, exception):
        self.thrown.append(exception)
        return self.inner.throw(exception)
    def close(self):
        self.inner.close()
async def call(function):
    return function()
";
        let spying = module(py, code, "spying").unwrap();
        let class = spying.getattr("Spy").unwrap().unbind();
        let function = PyCFunction::new_closure(
            py,
            None,
            None,
            move |args: &Bound<'_, PyTuple>, _kwargs: Option<&Bound<'_, PyDict>>| -> PyResult<bool> {
                let py = args.py();
                let inner = coroutine_object(py, std::future::pending())?;
                let spy = class.bind(py).call1((inner,))?;
                let mut it = match PyAwaitable::try_from(&mut session(py), spy.clone().unbind()) {
                    Ok(it) => it,
                    Err(fault) => return Err(fault.into_py_err()),
                };
                let (count, waker) = counter();
                assert!(matches!(it.poll(&mut session(py), &waker), Progress::Pending));
                assert_eq!(count.0.load(Ordering::SeqCst), 0);
                let exception = PyValueError::new_err("thrown").into_value(py);
                let future = spy.getattr("yielded")?.get_item(0)?;
                future.call_method1("set_exception", (&exception,))?;
                assert!(matches!(it.poll(&mut session(py), &waker), Progress::Pending));
                match it.poll(&mut session(py), &waker) {
                    Progress::Ready(Err(Fault::Python(error))) => {
                        assert!(spy.getattr("thrown")?.get_item(0)?.is(&exception));
                        Ok(error.value(py).is(&exception))
                    }
                    _ => Ok(false),
                }
            },
        )
        .unwrap();
        let run = spying.getattr("call").unwrap().call1((function,)).unwrap();
        assert!(run_in_event_loop(py, &run).unwrap().is_truthy().unwrap());
    });
}

/// Under an event loop: what is left of the futures that a coroutine yields.
#[test]
fn yielded_futures_are_cancelled_in_the_end() {
    Python::attach(|py| {
        let check = module(
            py,
            "
async def check(resumed, thrown, closed):
    f = resumed.send(None)
    assert f._asyncio_future_blocking is True
    assert not f.done()
    g = resumed.send(None)
    assert f.cancelled() and not g.done() and g is not f
    f = thrown.send(None)
    try:
        thrown.throw(ValueError('stop'))
    except ValueError:
        assert f.cancelled()
    g = closed.send(None)
    closed.close()
    assert g.cancelled()
    try:
        closed.send(None)
    except StopIteration as e:
        return e.value is None
",
            "check",
        )
        .unwrap()
        .getattr("check")
        .unwrap();
        let never = || coroutine_object(py, std::future::pending()).unwrap();
        let run = check.call1((never(), never(), never())).unwrap();
        assert!(run_in_event_loop(py, &run).unwrap().is_truthy().unwrap());
    });
}

/// Under an event loop: a wake resolves the yielded future with `None`.
#[test]
fn a_wake_resolves_the_yielded_future() {
    Python::attach(|py| {
        let code = "
import asyncio
async def drive(coro):
    f = coro.send(None)
    assert not f.done()
    while not f.done():
        await asyncio.sleep(0)
    result = f.result()
    try:
        coro.send(None)
    except StopIteration as e:
        return (result, e.value)
";
        let drive = module(py, code, "drive").unwrap().getattr("drive").unwrap();
        let coro = coroutine_object(py, async {
            yield_once().await;
            forty_two()
        })
        .unwrap();
        let run = drive.call1((coro,)).unwrap();
        let result = run_in_event_loop(py, &run).unwrap();
        assert_eq!(result.repr().unwrap().to_string(), "(None, 42)");
    });
}

#[test]
fn functions_are_looked_up_once() {
    Python::attach(|py| {
        let mut first = session(py);
        let isfuture = isfuture_fn(&mut first).unwrap();
        let running = get_running_loop_fn(&mut first).unwrap();
        let asyncio = py.import("asyncio").unwrap();
        assert!(isfuture.bind(py).is(&asyncio.getattr("isfuture").unwrap()));
        assert!(running.bind(py).is(&asyncio.getattr("get_running_loop").unwrap()));

        let kept = first.into_functions();
        assert!(kept.isfuture.unwrap().bind(py).is(&isfuture));

        // A function that is known is used as it is.
        let stand_in = module(py, "def yes(x):\n    return True\n", "stand_in")
            .unwrap()
            .getattr("yes")
            .unwrap()
            .unbind();
        let mut second =
            Session::new(py, Functions { isfuture: Some(stand_in), get_running_loop: None });
        let object = 5i32.into_pyobject(py).unwrap().into_any().unbind();
        assert!(is_future(&mut second, &object).unwrap());
        assert!(!is_future(&mut session(py), &object).unwrap());
    });
}

fn one(value: Py<PyAny>) -> Arguments {
    Arguments { positional: vec![value], keywords: vec![] }
}

#[test]
fn a_callback_needs_its_argument() {
    Python::attach(|py| {
        let (count, waker) = counter();
        let wake = Callback::Wake(waker);
        let keyword = |name: &str| (Some(name.to_string()), py.None());
        let refused = [
            Arguments { positional: vec![], keywords: vec![] },
            Arguments { positional: vec![py.None(), py.None()], keywords: vec![] },
            Arguments { positional: vec![py.None()], keywords: vec![keyword("_future")] },
            Arguments { positional: vec![], keywords: vec![keyword("value")] },
            Arguments { positional: vec![], keywords: vec![(None, py.None())] },
            Arguments { positional: vec![], keywords: vec![keyword("_future"), keyword("x")] },
        ];
        for arguments in refused {
            let error = wake.call(&mut session(py), arguments).unwrap_err();
            assert!(error.is_instance_of::<PyTypeError>(py));
            assert_eq!(
                error.value(py).str().unwrap().to_string(),
                "the callback takes exactly one argument"
            );
        }
        assert_eq!(count.0.load(Ordering::SeqCst), 0);
        assert!(wake.call(&mut session(py), one(py.None())).is_ok());
        assert_eq!(count.0.load(Ordering::SeqCst), 1);
        let named = Arguments { positional: vec![], keywords: vec![keyword("_future")] };
        assert!(wake.call(&mut session(py), named).is_ok());
        assert_eq!(count.0.load(Ordering::SeqCst), 2);
    });
}

/// The callable that is left with a future takes its one argument as Python passes it.
#[test]
fn a_callable_takes_one_argument() {
    Python::attach(|py| {
        let (count, waker) = counter();
        let (object, mut it) = given(py, &format!("{GENERATOR}{FUTURE}"), "A([F()])");
        assert!(matches!(it.poll(&mut session(py), &waker), Progress::Pending));
        let callable = item(&object, 0).getattr("callbacks").unwrap().get_item(0).unwrap();
        assert!(callable.call0().unwrap_err().is_instance_of::<PyTypeError>(py));
        assert!(callable.call1((1, 2)).unwrap_err().is_instance_of::<PyTypeError>(py));
        let keywords = PyDict::new(py);
        keywords.set_item("_future", 1).unwrap();
        let both = callable.call((1,), Some(&keywords)).unwrap_err();
        assert!(both.is_instance_of::<PyTypeError>(py));
        assert_eq!(count.0.load(Ordering::SeqCst), 0);
        assert!(callable.call((), Some(&keywords)).unwrap().is_none());
        assert_eq!(count.0.load(Ordering::SeqCst), 1);
        assert!(callable.call1((1,)).unwrap().is_none());
        assert_eq!(count.0.load(Ordering::SeqCst), 2);
        keywords.set_item("other", 1).unwrap();
        assert!(callable.call((), Some(&keywords)).unwrap_err().is_instance_of::<PyTypeError>(py));
    });
}

/// The name of a keyword is the content of the string, whatever `str` makes of it; what is
/// no string is no name.
#[test]
fn a_keyword_goes_by_its_content() {
    Python::attach(|py| {
        let (count, waker) = counter();
        let (object, mut it) = given(py, &format!("{GENERATOR}{FUTURE}"), "A([F()])");
        assert!(matches!(it.poll(&mut session(py), &waker), Progress::Pending));
        let callable = item(&object, 0).getattr("callbacks").unwrap().get_item(0).unwrap();
        let names = module(
            py,
            "class Name(str):
    def __str__(self):
        calls.append('str')
        return 'other' if self == '_future' else '_future'
calls = []
right = Name('_future')
wrong = Name('value')
",
            "names",
        )
        .unwrap();
        let call = |name: Bound<'_, PyAny>| {
            let keywords = PyDict::new(py);
            keywords.set_item(name, 1).unwrap();
            callable.call((), Some(&keywords))
        };
        assert!(call(names.getattr("right").unwrap()).unwrap().is_none());
        assert_eq!(count.0.load(Ordering::SeqCst), 1);
        let wrong = call(names.getattr("wrong").unwrap()).unwrap_err();
        assert!(wrong.is_instance_of::<PyTypeError>(py));
        let number = call(5i32.into_pyobject(py).unwrap().into_any()).unwrap_err();
        assert!(number.is_instance_of::<PyTypeError>(py));
        assert_eq!(count.0.load(Ordering::SeqCst), 1);
        assert_eq!(calls(&names), "[]");
    });
}

#[test]
fn a_future_is_resolved_silently() {
    Python::attach(|py| {
        let event_loop = py.import("asyncio").unwrap().call_method0("new_event_loop").unwrap();
        let future = event_loop.call_method0("create_future").unwrap();
        let callback = Callback::SetResult(future.clone().unbind());
        let five = 5i32.into_pyobject(py).unwrap().into_any().unbind();
        let named =
            Arguments { positional: vec![], keywords: vec![(Some("value".to_string()), five)] };
        assert!(callback.call(&mut session(py), named).is_ok());
        assert_eq!(future.call_method0("result").unwrap().extract::<i32>().unwrap(), 5);
        // It is resolved already, which is no error.
        assert!(callback.call(&mut session(py), one(py.None())).is_ok());
        assert_eq!(future.call_method0("result").unwrap().extract::<i32>().unwrap(), 5);
        event_loop.call_method0("close").unwrap();
    });
}

/// As many wakes, as many callables on the event loop; the first one that is run resolves
/// the future with `None`, and the others change nothing.
#[test]
fn every_wake_schedules_one_callable() {
    Python::attach(|py| {
        let object = module(
            py,
            "import asyncio
class Loop:
    def __init__(self):
        self.scheduled = []
    def call_soon_threadsafe(self, *args):
        self.scheduled.append(args)
    def run(self):
        return [callable(*args) for callable, *args in self.scheduled]
loop = Loop()
future = asyncio.new_event_loop().create_future()
",
            "scheduled",
        )
        .unwrap();
        let event_loop = object.getattr("loop").unwrap();
        let future = object.getattr("future").unwrap();
        let waker = PyFutureWaker {
            event_loop: event_loop.clone().unbind(),
            future: future.clone().unbind(),
        };
        for wakes in 0..4 {
            assert_eq!(event_loop.getattr("scheduled").unwrap().len().unwrap(), wakes);
            assert!(waker.wake_by_ref(&mut session(py)).is_ok());
        }
        assert!(!future.call_method0("done").unwrap().is_truthy().unwrap());
        assert_eq!(
            event_loop.call_method0("run").unwrap().repr().unwrap().to_string(),
            "[None, None, None, None]"
        );
        assert!(future.call_method0("result").unwrap().is_none());
    });
}

/// A Rust future, wrapped as a coroutine and that as a Rust future again.
fn round_trip(py: Python<'_>, result: PyResult<Py<PyAny>>) -> PyResult<Py<PyAny>> {
    let object = coroutine_object(py, async move {
        yield_once().await;
        result
    })?;
    let (count, waker) = counter();
    let mut it = match PyAwaitable::try_from(&mut session(py), object.unbind()) {
        Ok(it) => it,
        Err(fault) => return Err(fault.into_py_err()),
    };
    assert!(matches!(it.poll(&mut session(py), &waker), Progress::Pending));
    assert_eq!(count.0.load(Ordering::SeqCst), 1);
    match it.poll(&mut session(py), &waker) {
        Progress::Ready(Ok(value)) => Ok(value),
        Progress::Ready(Err(fault)) => Err(fault.into_py_err()),
        Progress::Pending => panic!("it is not ready"),
    }
}

#[test]
fn a_round_trip_keeps_the_outcome() {
    Python::attach(|py| {
        let values = module(py, "values = [7, None, (1, 2), (), StopIteration(3)]", "values")
            .unwrap()
            .getattr("values")
            .unwrap();
        for index in 0..values.len().unwrap() {
            let value = values.get_item(index).unwrap();
            let kept = round_trip(py, Ok(value.clone().unbind())).unwrap();
            assert!(kept.bind(py).is(&value));
        }
        let exception = PyValueError::new_err("kept").into_value(py);
        let error = PyErr::from_value(exception.bind(py).clone().into_any());
        let kept = round_trip(py, Err(error)).unwrap_err();
        assert!(kept.value(py).is(&exception));
    });
}

/// A coroutine may return a tuple: the tuple is the value of the `StopIteration`.
#[test]
fn a_tuple_is_returned_whole() {
    Python::attach(|py| {
        let pair = (1i32, 2i32).into_pyobject(py).unwrap().into_any().unbind();
        let given = pair.clone_ref(py);
        let mut coroutine = RustCoroutine::new(boxed(async move { Ok(given) }));
        let error = send(&mut coroutine, py).unwrap_err();
        assert!(error.is_instance_of::<PyStopIteration>(py));
        let value = error.value(py).getattr("value").unwrap();
        assert!(value.is(&pair));
        assert_eq!(value.repr().unwrap().to_string(), "(1, 2)");
    });
}

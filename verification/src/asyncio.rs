//! The functions of `asyncio` that the bridge consults.

use crate::python::Object;
use crate::script::{
    ask_truth, ask_value, chain, group_follow, lemma_played_within, played, Call,
    Script,
};
use crate::session::{Functions, Session};
use pyo3::PyErr;
use vstd::prelude::*;

verus! {

broadcast use group_follow;

/// Looks a function up in a module.
pub open spec fn lookup_script(module: Seq<char>, name: Seq<char>) -> Script<
    Result<Object, PyErr>,
> {
    ask_value(
        Call::Import { module },
        |found: Result<Object, PyErr>|
            match found {
                Err(error) => Script::End(Err(error)),
                Ok(module) => ask_value(
                    Call::GetAttr { object: module, name },
                    |found: Result<Object, PyErr>| Script::End(found),
                ),
            },
    )
}

/// Takes the function that is known already, or else looks it up.
pub open spec fn recall_script(known: Option<Object>, module: Seq<char>, name: Seq<char>) -> Script<
    Result<Object, PyErr>,
> {
    match known {
        Some(function) => Script::End(Ok(function)),
        None => lookup_script(module, name),
    }
}

/// The function that is known after `reply` to a lookup.
pub open spec fn remembered(reply: Result<Object, PyErr>) -> Option<Object> {
    match reply {
        Ok(function) => Some(function),
        Err(_) => None,
    }
}

/// Finds `asyncio.futures.isfuture`.
pub open spec fn isfuture_script(known: Option<Object>) -> Script<Result<Object, PyErr>> {
    recall_script(known, "asyncio.futures"@, "isfuture"@)
}

/// Finds `asyncio.get_running_loop`.
pub open spec fn get_running_loop_script(known: Option<Object>) -> Script<Result<Object, PyErr>> {
    recall_script(known, "asyncio"@, "get_running_loop"@)
}

fn look_up(session: &mut Session<'_>, module: &str, name: &str) -> (reply: Result<Object, PyErr>)
    ensures
        final(session).functions() == old(session).functions(),
        played(lookup_script(module@, name@), old(session).log(), final(session).log(), reply),
{
    let module = match session.import(module) {
        Err(error) => return Err(error),
        Ok(module) => module,
    };
    session.getattr(&module, name)
}

/// The function `asyncio.futures.isfuture`, looked up at most once.
pub fn isfuture_fn(session: &mut Session<'_>) -> (reply: Result<Object, PyErr>)
    ensures
        played(
            isfuture_script(old(session).functions().isfuture),
            old(session).log(),
            final(session).log(),
            reply,
        ),
        final(session).functions() == (Functions {
            isfuture: remembered(reply),
            ..old(session).functions()
        }),
        old(session).functions().isfuture matches Some(known) ==> {
            &&& reply == Ok::<Object, PyErr>(known)
            &&& final(session).log() == old(session).log()
        },
{
    if let Some(cached) = session.known_isfuture() {
        return Ok(cached);
    }
    let function = match look_up(session, "asyncio.futures", "isfuture") {
        Err(error) => return Err(error),
        Ok(function) => function,
    };
    session.keep_isfuture(&function);
    Ok(function)
}

/// The function `asyncio.get_running_loop`, looked up at most once.
pub fn get_running_loop_fn(session: &mut Session<'_>) -> (reply: Result<Object, PyErr>)
    ensures
        played(
            get_running_loop_script(old(session).functions().get_running_loop),
            old(session).log(),
            final(session).log(),
            reply,
        ),
        final(session).functions() == (Functions {
            get_running_loop: remembered(reply),
            ..old(session).functions()
        }),
        old(session).functions().get_running_loop matches Some(known) ==> {
            &&& reply == Ok::<Object, PyErr>(known)
            &&& final(session).log() == old(session).log()
        },
{
    if let Some(cached) = session.known_get_running_loop() {
        return Ok(cached);
    }
    let function = match look_up(session, "asyncio", "get_running_loop") {
        Err(error) => return Err(error),
        Ok(function) => function,
    };
    session.keep_get_running_loop(&function);
    Ok(function)
}

/// Calls `asyncio.futures.isfuture`, once it was looked up, on an object. Ends in
/// the answer and in what is then known of the function.
pub open spec fn after_isfuture(object: Object) -> spec_fn(Result<Object, PyErr>) -> Script<
    (Result<bool, PyErr>, Option<Object>),
> {
    |found: Result<Object, PyErr>|
        match found {
            Err(error) => Script::End((Err(error), None)),
            Ok(function) => ask_value(
                Call::Invoke { callee: function, args: seq![object] },
                |answer: Result<Object, PyErr>|
                    match answer {
                        Err(error) => Script::End((Err(error), Some(function))),
                        Ok(answer) => ask_truth(
                            Call::IsTruthy { object: answer },
                            |truth: Result<bool, PyErr>| Script::End((truth, Some(function))),
                        ),
                    },
            ),
        }
}

/// Asks `asyncio.futures.isfuture` about an object. Ends in the answer and in
/// what is then known of the function.
pub open spec fn is_future_script(known: Option<Object>, object: Object) -> Script<
    (Result<bool, PyErr>, Option<Object>),
> {
    chain(isfuture_script(known), after_isfuture(object))
}

/// Whether an object is an `asyncio` future.
pub fn is_future(session: &mut Session<'_>, object: &Object) -> (reply: Result<bool, PyErr>)
    ensures
        played(
            is_future_script(old(session).functions().isfuture, *object),
            old(session).log(),
            final(session).log(),
            (reply, final(session).functions().isfuture),
        ),
        final(session).functions().get_running_loop == old(session).functions().get_running_loop,
{
    let ghost before = session.log();
    let ghost known = session.functions().isfuture;
    let found = isfuture_fn(session);
    proof {
        lemma_played_within(
            is_future_script(known, *object),
            before.len() as int,
            isfuture_script(known),
            after_isfuture(*object),
            before,
            session.log(),
            found,
        );
    }
    let function = match found {
        Err(error) => return Err(error),
        Ok(function) => function,
    };
    let answer = match session.call1(&function, object) {
        Err(error) => return Err(error),
        Ok(answer) => answer,
    };
    session.is_truthy(&answer)
}


} // verus!

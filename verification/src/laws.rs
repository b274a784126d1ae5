//! What holds of the bridge across operations.
//!
//! The laws speak of runs of operations: the events by which the record of a session grew
//! in the course of one operation, and how the operation came out. What the contract of an
//! operation calls played is such a run ([`law_played_is_run`]), so that a sequence of runs
//! may span any number of sessions.

use crate::script::{lemma_prefix, played, ran, Event, Script};
use vstd::prelude::*;

pub mod awaitable;
pub mod both_ways;
pub mod coroutine;
pub mod polls;
pub mod sends;

verus! {

/// What a session played is a run, whatever its record held before.
pub proof fn law_played_is_run<R>(
    script: Script<R>,
    before: Seq<Event>,
    after: Seq<Event>,
    end: R,
)
    requires
        played(script, before, after, end),
    ensures
        ran(script, after.skip(before.len() as int), end),
        after == before + after.skip(before.len() as int),
{
    lemma_prefix(before, after);
}

} // verus!

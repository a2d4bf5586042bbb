//! Core of a live fan-out hub for spin jobs: the observer registry, the
//! table of running jobs, the bounded history, and the job state machine.

use vstd::prelude::*;

pub mod active;
pub mod event;
pub mod history;
pub mod hub;
pub mod job;
pub mod outside;
pub mod registry;
pub mod run;
pub mod session;
pub mod text;

verus! {

/// Directory from which the static assets of the front end are served.
pub fn static_path() -> (root: &'static str)
    ensures
        root@ == "/home/liam/liminal/server/static"@,
{
    "/home/liam/liminal/server/static"
}

} // verus!

//! Supervision of a single sidecar worker process tied to the lifetime of a
//! host application's main window, with single-instance coordination.
//!
//! The library holds the decisions; the host performs the outside work
//! (resolving and spawning the worker, killing it, focusing the window) and
//! reports each outcome back as an event.
use vstd::prelude::*;

pub mod registry;
pub mod laws;
pub mod supervisor;

verus! {

} // verus!

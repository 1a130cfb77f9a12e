//! Detection of the host's logical CPU count, which sets the build step's
//! parallelism. The count is a property of the machine the pipeline runs
//! on; nothing more than its positivity can be promised of it.

use vstd::prelude::*;
use crate::invocation::Invocation;
use crate::stages::is_full_plan;
use crate::stages::is_toolkit_build_sequence;
use crate::stages::full_plan;
use crate::stages::toolkit_build_commands;

verus! {

/// Relies on num_cpus::get: the number of logical CPUs available to this
/// process, which its documentation promises to be at least 1.
#[verifier::external_body]
fn logical_cpu_count() -> (n: usize)
    ensures
        1 <= n,
{
    num_cpus::get()
}

/// Builds the toolkit build stage's commands with the parallelism taken
/// from the host's detected logical CPU count. Returns the count that was
/// used alongside the commands, so a caller can see the detected value.
pub fn detected_toolkit_build_commands() -> (r: (usize, Vec<Invocation>))
    ensures
        1 <= r.0,
        is_toolkit_build_sequence(r.1@, r.0 as nat),
{
    let cpus = logical_cpu_count();
    let cs = toolkit_build_commands(cpus as u64);
    (cpus, cs)
}

/// Builds the whole pipeline's command list with the parallelism taken
/// from the host's detected logical CPU count.
pub fn detected_full_plan(library_exists: bool, toolkit_exists: bool) -> (r: (
    usize,
    Vec<Invocation>,
))
    ensures
        1 <= r.0,
        is_full_plan(r.1@, library_exists, toolkit_exists, r.0 as nat),
{
    let cpus = logical_cpu_count();
    let cs = full_plan(library_exists, toolkit_exists, cpus as u64);
    (cpus, cs)
}

} // verus!

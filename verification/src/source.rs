//! The two calls into the operating system, through `sysinfo`: enumerating
//! the live processes and requesting that one be terminated. Everything else
//! the controller does with that data is verified.

use vstd::prelude::*;

use crate::record::ProcessRecord;

verus! {

/// Relies on sysinfo's `System::new_all` and `System::processes`: the map it
/// returns is keyed by process identifier, so within one enumeration the
/// identifiers are pairwise distinct (`Pid` wraps the OS process id, and
/// `Pid::as_u32` maps distinct ids to distinct values). Names, cpu
/// percentages and memory sizes are whatever the OS reports; nothing more is
/// assumed of them.
#[verifier::external_body]
pub(crate) fn fetch_processes() -> (r: Vec<ProcessRecord>)
    ensures
        forall|i: int, j: int| 0 <= i < j < r@.len() ==> r@[i].pid != r@[j].pid,
{
    let mut system = sysinfo::System::new_all();
    system.refresh_cpu();
    let mut v = Vec::new();
    for (pid, process) in system.processes() {
        v.push(ProcessRecord {
            pid: pid.as_u32(),
            name: process.name().to_string(),
            cpu_usage: process.cpu_usage().to_string(),
            memory: process.memory(),
        });
    }
    v
}

/// Relies on sysinfo's `System::process` and `Process::kill`: sends a kill
/// signal to the process with this identifier if it still exists, and
/// reports whether a signal was sent. Termination is neither synchronous nor
/// guaranteed, so nothing is assumed of the outcome.
#[verifier::external_body]
pub(crate) fn terminate_process(pid: u32) -> (r: bool) {
    let system = sysinfo::System::new_all();
    match system.process(sysinfo::Pid::from_u32(pid)) {
        Some(process) => process.kill(),
        None => false,
    }
}

} // verus!

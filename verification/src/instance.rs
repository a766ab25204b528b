//! The guard against a second instance: a scan of the host's process list
//! for another process that runs under the daemon's name.

use vstd::prelude::*;
use vstd::string::*;
use crate::error::{Fault, MainE};

verus! {

/// One entry of the host's process list.
#[derive(Debug, PartialEq, Eq)]
pub enum Process {
    /// The entry, or its name, could not be read; the cause as text.
    Unreadable(String),
    /// A process with its id and its name.
    Named(u32, String),
}

/// The mathematical content of a [`Process`].
pub ghost enum Entry {
    Unreadable(Seq<char>),
    Named(u32, Seq<char>),
}

impl View for Process {
    type V = Entry;

    open spec fn view(&self) -> Entry {
        match self {
            Process::Unreadable(cause) => Entry::Unreadable(cause@),
            Process::Named(pid, name) => Entry::Named(*pid, name@),
        }
    }
}

/// The fault at which the scan stops on `entry`, if it does: an entry that
/// cannot be read, or a process other than `own` that bears the daemon's
/// name.
pub open spec fn stops_at(entry: Entry, own: u32) -> Option<Fault> {
    match entry {
        Entry::Unreadable(cause) => Some(Fault::ProcErr(cause)),
        Entry::Named(pid, name) => if name == "racf"@ && pid != own {
            Some(Fault::Running(pid))
        } else {
            None
        },
    }
}

/// Scans the process list in order and fails at the first entry that stops
/// the scan: with `Running` and its process id for another instance of the
/// daemon, with `ProcErr` for an entry that could not be read. `own` is the
/// id of the scanning process itself.
pub fn check_instances(processes: &Vec<Process>, own: u32) -> (r: Result<(), MainE>)
    ensures
        match r {
            Ok(_) => forall|i: int|
                0 <= i < processes@.len() ==> stops_at(#[trigger] processes@[i]@, own) is None,
            Err(e) => exists|i: int|
                0 <= i < processes@.len() && stops_at(#[trigger] processes@[i]@, own) == Some(e@)
                    && forall|j: int|
                    0 <= j < i ==> stops_at(#[trigger] processes@[j]@, own) is None,
        },
{
    let daemon = String::from_str("racf");
    let mut i: usize = 0;
    while i < processes.len()
        invariant
            i <= processes.len(),
            daemon@ == "racf"@,
            forall|j: int| 0 <= j < i ==> stops_at(#[trigger] processes@[j]@, own) is None,
        decreases processes.len() - i,
    {
        match &processes[i] {
            Process::Unreadable(cause) => {
                let e = MainE::ProcErr(cause.clone());
                assert(stops_at(processes@[i as int]@, own) == Some(e@));
                return Err(e);
            },
            Process::Named(pid, name) => {
                if *name == daemon && *pid != own {
                    let e = MainE::Running(*pid);
                    assert(stops_at(processes@[i as int]@, own) == Some(e@));
                    return Err(e);
                }
            },
        }
        i += 1;
    }
    Ok(())
}

} // verus!

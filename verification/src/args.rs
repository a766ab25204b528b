//! The command line's flags and what they ask for.

use vstd::prelude::*;

verus! {

/// The flags of the command line.
#[derive(Debug)]
pub struct Cli {
    /// Enables or disables turbo boost, then exits.
    pub turbo: Option<bool>,
    /// Runs one cycle and exits.
    pub run_once: bool,
    /// Sets a governor, then exits.
    pub governor: Option<String>,
    /// Prints what the daemon knows about the system, then exits.
    pub list: bool,
}

/// What one invocation does.
#[derive(Debug, PartialEq, Eq)]
pub enum Action {
    /// Print the system's state and capabilities.
    List,
    /// Switch turbo boost on or off, without consulting a profile.
    Turbo(bool),
    /// Load the configuration and run a single cycle.
    RunOnce,
    /// Check a governor against the catalog and select it.
    Governor(String),
    /// Load the configuration and cycle until stopped.
    Daemon,
}

impl Cli {
    /// What the flags ask for. Where several are given, listing goes before
    /// the turbo switch, that before a single cycle, and that before the
    /// choice of a governor; with none of them the daemon runs.
    pub fn action(&self) -> (a: Action)
        ensures
            match a {
                Action::List => self.list,
                Action::Turbo(on) => !self.list && self.turbo == Some(on),
                Action::RunOnce => !self.list && self.turbo is None && self.run_once,
                Action::Governor(name) => !self.list && self.turbo is None && !self.run_once
                    && self.governor is Some && name@ == self.governor->0@,
                Action::Daemon => !self.list && self.turbo is None && !self.run_once
                    && self.governor is None,
            },
    {
        if self.list {
            return Action::List;
        }
        if let Some(on) = self.turbo {
            return Action::Turbo(on);
        }
        if self.run_once {
            return Action::RunOnce;
        }
        match &self.governor {
            Some(name) => Action::Governor(name.clone()),
            None => Action::Daemon,
        }
    }
}

} // verus!

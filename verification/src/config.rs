//! The configuration: one profile for battery power and one for mains power.

use vstd::prelude::*;
use crate::catalog::Catalog;
use crate::error::{verdict_of, Fault, MainE};
use crate::profile::{Profile, TurboKind};
use crate::text::{chars_of, lower_chars, lowered, same_chars};

verus! {

/// The two profiles of a configuration.
#[derive(Debug)]
pub struct Config {
    /// The policy while the device runs on its battery.
    pub battery: Profile,
    /// The policy while mains power is present.
    pub ac: Profile,
}

impl Config {
    /// The first fault of the configuration: that of the battery profile,
    /// else that of the mains profile, else none.
    pub open spec fn verdict(self, catalog: Catalog) -> Option<Fault> {
        if self.battery.verdict(catalog) is Some {
            self.battery.verdict(catalog)
        } else {
            self.ac.verdict(catalog)
        }
    }

    /// The profile in force: the mains profile while charging, the battery
    /// profile otherwise.
    pub fn current(&self, charging: bool) -> (p: &Profile)
        ensures
            *p == if charging {
                self.ac
            } else {
                self.battery
            },
    {
        if charging {
            &self.ac
        } else {
            &self.battery
        }
    }

    /// Validates both profiles, the battery profile first, and reports the
    /// first fault.
    pub fn validate(&self, catalog: &Catalog) -> (r: Result<(), MainE>)
        ensures
            verdict_of(r) == self.verdict(*catalog),
    {
        match self.battery.check(catalog) {
            Err(e) => Err(e),
            Ok(_) => self.ac.check(catalog),
        }
    }
}

/// The turbo mode that a configuration value spells, without regard to the
/// case of its letters.
pub open spec fn turbo_named(value: Seq<char>) -> Option<TurboKind> {
    if lowered(value) == "always"@ {
        Some(TurboKind::Always)
    } else if lowered(value) == "auto"@ {
        Some(TurboKind::Auto)
    } else if lowered(value) == "never"@ {
        Some(TurboKind::Never)
    } else {
        None
    }
}

/// Reads a turbo mode: `always`, `auto` or `never` in any mix of upper and
/// lower case. Any other value is no turbo mode.
pub fn parse_turbo(value: &str) -> (r: Option<TurboKind>)
    ensures
        r == turbo_named(value@),
{
    let given = chars_of(value);
    let low = lower_chars(&given);
    if same_chars(&low, &chars_of("always")) {
        Some(TurboKind::Always)
    } else if same_chars(&low, &chars_of("auto")) {
        Some(TurboKind::Auto)
    } else if same_chars(&low, &chars_of("never")) {
        Some(TurboKind::Never)
    } else {
        None
    }
}

/// The conventional paths of the configuration file, by the rank in which
/// they are tried: 0, 1, and last every other rank.
pub open spec fn config_candidate(rank: int) -> Seq<char> {
    if rank == 0 {
        "/etc/racf.toml"@
    } else if rank == 1 {
        "/etc/racf/racf.toml"@
    } else {
        "/etc/racf/config.toml"@
    }
}

/// The conventional path of rank `rank`: 0 for the first, 1 for the second,
/// anything else for the last.
pub fn config_path(rank: u8) -> (path: &'static str)
    ensures
        path@ == config_candidate(rank as int),
{
    if rank == 0 {
        "/etc/racf.toml"
    } else if rank == 1 {
        "/etc/racf/racf.toml"
    } else {
        "/etc/racf/config.toml"
    }
}

/// Chooses the configuration file: the first conventional path at which a
/// file exists. `present` says of each path, in order, whether one does.
/// Fails with `MissingConfig` where none does.
pub fn choose_config(present: [bool; 3]) -> (r: Result<&'static str, MainE>)
    ensures
        match r {
            Ok(path) => exists|rank: int|
                0 <= rank < 3 && present[rank] && path@ == config_candidate(rank) && forall|
                    before: int,
                | 0 <= before < rank ==> !present[before],
            Err(e) => e@ == Fault::MissingConfig && forall|rank: int|
                0 <= rank < 3 ==> !present[rank],
        },
{
    if present[0] {
        Ok(config_path(0))
    } else if present[1] {
        Ok(config_path(1))
    } else if present[2] {
        Ok(config_path(2))
    } else {
        Err(MainE::MissingConfig)
    }
}

} // verus!

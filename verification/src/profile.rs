//! Profiles and the policy decision: validation of a profile against the
//! capability catalog, and the turbo-boost decision from a profile and one
//! telemetry snapshot.

use vstd::prelude::*;
use crate::binary64::Binary64;
use crate::catalog::Catalog;
use crate::error::{verdict_of, Fault, MainE};
use crate::text::{chars_of, has_token, lower_chars, lowered, same_chars, text_of};

verus! {

/// When turbo boost is switched on.
#[derive(Clone, Copy, Debug, PartialEq, Eq, Structural)]
pub enum TurboKind {
    /// On in every cycle.
    Always,
    /// On while the machine is busy or warm, off otherwise.
    Auto,
    /// Off in every cycle.
    Never,
}

/// The policy for one power source.
#[derive(Debug)]
pub struct Profile {
    /// When turbo boost is switched on.
    pub turbo: TurboKind,
    /// Seconds between two cycles while this profile is active.
    pub interval: u32,
    /// Utilisation, in percent, from which `Auto` switches turbo boost on.
    pub mincpu: Binary64,
    /// Temperature, in degrees Celsius, from which `Auto` switches turbo
    /// boost on.
    pub mintemp: u32,
    /// The governor to select.
    pub governor: String,
    /// The fixed frequency to select, in kHz; with the `userspace` governor
    /// only.
    pub frequency: Option<u32>,
}

/// What the daemon measures at the start of a cycle.
#[derive(Clone, Copy, Debug)]
pub struct Telemetry {
    /// Whether mains power is present.
    pub charging: bool,
    /// CPU utilisation over the last sampling window, in percent.
    pub cpu_percent: Binary64,
    /// Load average over the last minute.
    pub load_average: Binary64,
    /// CPU temperature in degrees Celsius.
    pub temperature: u32,
}

/// What a cycle sets: the governor, the fixed frequency if the profile has
/// one, and turbo boost.
#[derive(Debug, PartialEq, Eq)]
pub struct Decision {
    pub governor: String,
    pub frequency: Option<u32>,
    pub turbo: bool,
}

/// The load average from which `Auto` switches turbo boost on: three
/// quarters of the CPU count, rounded down to a whole number.
pub open spec fn load_threshold(cpus: nat) -> nat {
    75 * cpus / 100
}

/// The load threshold for `cpus` CPUs.
pub fn threshold(cpus: usize) -> (t: u64)
    ensures
        t == load_threshold(cpus as nat),
{
    let wide: u128 = 75 * (cpus as u128) / 100;
    wide as u64
}

impl Profile {
    /// The first fault of this profile against the platform's catalog, or
    /// `None` where the profile is valid. The governor is looked up in lower
    /// case; a fixed frequency needs the `userspace` governor and must be
    /// offered. The list of frequencies is consulted only where the profile
    /// sets a frequency under `userspace`.
    pub open spec fn verdict(self, catalog: Catalog) -> Option<Fault> {
        let gov = lowered(self.governor@);
        if catalog.governor_verdict(gov) is Some {
            catalog.governor_verdict(gov)
        } else {
            match self.frequency {
                None => None,
                Some(f) => if gov != "userspace"@ {
                    Some(Fault::NoUserspace)
                } else {
                    catalog.frequency_verdict(f)
                },
            }
        }
    }

    /// Whether a cycle under this profile switches turbo boost on.
    pub open spec fn wants_turbo(self, snapshot: Telemetry, cpus: nat) -> bool {
        match self.turbo {
            TurboKind::Never => false,
            TurboKind::Always => true,
            TurboKind::Auto => snapshot.load_average.at_least_count(load_threshold(cpus) as int)
                || snapshot.cpu_percent.at_least(self.mincpu) || snapshot.temperature
                >= self.mintemp,
        }
    }

    /// Validates the profile against the platform's capabilities and
    /// reports the first fault.
    pub fn check(&self, catalog: &Catalog) -> (r: Result<(), MainE>)
        ensures
            verdict_of(r) == self.verdict(*catalog),
    {
        let given = chars_of(self.governor.as_str());
        let low = lower_chars(&given);
        let gov = text_of(&low, 0, low.len());
        assert(low@.subrange(0, low@.len() as int) =~= low@);
        match catalog.check_govs(gov.as_str()) {
            Err(e) => {
                return Err(e);
            },
            Ok(_) => {},
        }
        match self.frequency {
            None => Ok(()),
            Some(f) => {
                let userspace = chars_of("userspace");
                if !same_chars(&low, &userspace) {
                    return Err(MainE::NoUserspace);
                }
                catalog.check_freq(f)
            },
        }
    }

    /// Validates the profile; another name for [`Profile::check`].
    pub fn validate(&self, catalog: &Catalog) -> (r: Result<(), MainE>)
        ensures
            verdict_of(r) == self.verdict(*catalog),
    {
        self.check(catalog)
    }

    /// Decides one cycle: the profile's governor and frequency as they
    /// stand, and turbo boost by the profile's rule.
    pub fn run(&self, snapshot: &Telemetry, cpus: usize) -> (d: Decision)
        ensures
            d.governor@ == self.governor@,
            d.frequency == self.frequency,
            d.turbo == self.wants_turbo(*snapshot, cpus as nat),
    {
        let turbo = match self.turbo {
            TurboKind::Never => false,
            TurboKind::Always => true,
            TurboKind::Auto => snapshot.load_average.ge_count(threshold(cpus))
                || snapshot.cpu_percent.ge(&self.mincpu) || snapshot.temperature >= self.mintemp,
        };
        Decision { governor: self.governor.clone(), frequency: self.frequency, turbo }
    }

    /// Decides one cycle; another name for [`Profile::run`].
    pub fn set(&self, snapshot: &Telemetry, cpus: usize) -> (d: Decision)
        ensures
            d.governor@ == self.governor@,
            d.frequency == self.frequency,
            d.turbo == self.wants_turbo(*snapshot, cpus as nat),
    {
        self.run(snapshot, cpus)
    }
}

/// Under `Never`, turbo boost stays off whatever is measured.
pub proof fn law_never_is_off(profile: Profile, snapshot: Telemetry, cpus: nat)
    requires
        profile.turbo == TurboKind::Never,
    ensures
        !profile.wants_turbo(snapshot, cpus),
{
}

/// Under `Always`, turbo boost is on whatever is measured.
pub proof fn law_always_is_on(profile: Profile, snapshot: Telemetry, cpus: nat)
    requires
        profile.turbo == TurboKind::Always,
    ensures
        profile.wants_turbo(snapshot, cpus),
{
}

/// Under `Auto`, turbo boost is on exactly when the load average has
/// reached three quarters of the CPU count, rounded down, or the utilisation
/// has reached the profile's percentage, or the temperature has reached the
/// profile's degrees; it is off exactly when none of the three has.
pub proof fn law_auto_by_thresholds(profile: Profile, snapshot: Telemetry, cpus: nat)
    requires
        profile.turbo == TurboKind::Auto,
    ensures
        profile.wants_turbo(snapshot, cpus) <==> snapshot.load_average.at_least_count(
            (75 * cpus / 100) as int,
        ) || snapshot.cpu_percent.at_least(profile.mincpu) || snapshot.temperature
            >= profile.mintemp,
        !profile.wants_turbo(snapshot, cpus) <==> !snapshot.load_average.at_least_count(
            (75 * cpus / 100) as int,
        ) && !snapshot.cpu_percent.at_least(profile.mincpu) && snapshot.temperature
            < profile.mintemp,
{
}

/// A profile whose governor, in lower case, is not among the governors
/// that the platform offers is rejected with `WrongGov`, whatever its other
/// fields hold.
pub proof fn law_unknown_governor_rejected(profile: Profile, catalog: Catalog)
    requires
        catalog.governors is Ok,
        !has_token(catalog.governors->Ok_0@, lowered(profile.governor@)),
    ensures
        profile.verdict(catalog) == Some(Fault::WrongGov(lowered(profile.governor@))),
{
}

/// A profile whose governor is among the governors that the platform
/// offers, and which sets no frequency, is accepted.
pub proof fn law_known_governor_accepted(profile: Profile, catalog: Catalog)
    requires
        catalog.governors is Ok,
        has_token(catalog.governors->Ok_0@, lowered(profile.governor@)),
        profile.frequency is None,
    ensures
        profile.verdict(catalog) is None,
{
}

/// A profile that sets a frequency under an offered governor other than
/// `userspace` is rejected with `NoUserspace`, whether or not the platform
/// offers the frequency, and whether or not its frequencies can be read.
pub proof fn law_frequency_needs_userspace(profile: Profile, catalog: Catalog)
    requires
        profile.frequency is Some,
        lowered(profile.governor@) != "userspace"@,
        catalog.governors is Ok,
        has_token(catalog.governors->Ok_0@, lowered(profile.governor@)),
    ensures
        profile.verdict(catalog) == Some(Fault::NoUserspace),
{
}

} // verus!

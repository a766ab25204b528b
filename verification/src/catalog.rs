//! The capability catalog: which governors and which fixed frequencies the
//! platform offers. The platform lists each set as white-space separated
//! tokens in one attribute of its first CPU.

use vstd::prelude::*;
use vstd::string::*;
use crate::error::{verdict_of, Fault, MainE};
use crate::text::{chars_of, contains_token, decimal, decimal_chars, has_token};

verus! {

/// The two per-CPU settings that the daemon controls.
#[derive(Clone, Copy, Debug, PartialEq, Eq, Structural)]
pub enum StatKind {
    /// The frequency-scaling governor.
    Governor,
    /// The fixed frequency, honoured under the `userspace` governor only.
    Freq,
}

/// What checking `gov` against the offered governors finds.
pub open spec fn governor_verdict(gov: Seq<char>, available: Seq<char>) -> Option<Fault> {
    if has_token(available, gov) {
        None
    } else {
        Some(Fault::WrongGov(gov))
    }
}

/// What checking `freq` against the offered frequencies finds. A frequency
/// is offered where its decimal numeral is one of the tokens.
pub open spec fn frequency_verdict(freq: u32, available: Seq<char>) -> Option<Fault> {
    if has_token(available, decimal(freq as nat)) {
        None
    } else {
        Some(Fault::WrongFreq(freq))
    }
}

/// Accepts `gov` where it is, letter for letter, one of the governors that
/// `available` lists; otherwise fails with `WrongGov`, which carries `gov`.
pub fn check_govs(gov: &str, available: &str) -> (r: Result<(), MainE>)
    ensures
        verdict_of(r) == governor_verdict(gov@, available@),
{
    let hay = chars_of(available);
    let word = chars_of(gov);
    if contains_token(&hay, &word) {
        Ok(())
    } else {
        Err(MainE::WrongGov(gov.to_owned()))
    }
}

/// Accepts `freq` where `available` lists it; otherwise fails with
/// `WrongFreq`, which carries `freq`.
pub fn check_freq(freq: u32, available: &str) -> (r: Result<(), MainE>)
    ensures
        verdict_of(r) == frequency_verdict(freq, available@),
{
    let hay = chars_of(available);
    let word = decimal_chars(freq as u64);
    if contains_token(&hay, &word) {
        Ok(())
    } else {
        Err(MainE::WrongFreq(freq))
    }
}

/// The attribute of the first CPU that lists what the platform offers for a
/// setting.
pub open spec fn catalog_of(kind: StatKind) -> Seq<char> {
    match kind {
        StatKind::Governor => "/sys/devices/system/cpu/cpu0/cpufreq/scaling_available_governors"@,
        StatKind::Freq => "/sys/devices/system/cpu/cpu0/cpufreq/scaling_available_frequencies"@,
    }
}

/// The file that lists what the platform offers for the setting `kind`.
pub fn get_stat(kind: StatKind) -> (path: &'static str)
    ensures
        path@ == catalog_of(kind),
{
    match kind {
        StatKind::Governor => "/sys/devices/system/cpu/cpu0/cpufreq/scaling_available_governors",
        StatKind::Freq => "/sys/devices/system/cpu/cpu0/cpufreq/scaling_available_frequencies",
    }
}

/// The failure to report where the catalog of `kind` cannot be read, with
/// the platform's own description `cause`. It is reported as a failure of
/// the `Write` kind, with the catalog's path.
pub fn catalog_failure(kind: StatKind, cause: String) -> (e: MainE)
    ensures
        e@ == Fault::Write(cause@, catalog_of(kind)),
{
    MainE::Write(cause, String::from_str(get_stat(kind)))
}

/// What the daemon could read of the platform's capabilities: for each of
/// the two settings the list of what is offered, or the platform's own
/// description of why the list could not be read.
#[derive(Debug)]
pub struct Catalog {
    /// The offered governors.
    pub governors: Result<String, String>,
    /// The offered fixed frequencies, in kHz.
    pub frequencies: Result<String, String>,
}

impl Catalog {
    /// What checking `gov` against this catalog finds: the failure to read
    /// the governors, else whether `gov` is among them.
    pub open spec fn governor_verdict(self, gov: Seq<char>) -> Option<Fault> {
        match self.governors {
            Ok(available) => governor_verdict(gov, available@),
            Err(cause) => Some(Fault::Write(cause@, catalog_of(StatKind::Governor))),
        }
    }

    /// What checking `freq` against this catalog finds: the failure to read
    /// the frequencies, else whether `freq` is among them.
    pub open spec fn frequency_verdict(self, freq: u32) -> Option<Fault> {
        match self.frequencies {
            Ok(available) => frequency_verdict(freq, available@),
            Err(cause) => Some(Fault::Write(cause@, catalog_of(StatKind::Freq))),
        }
    }

    /// Checks a governor against the catalog. Fails where the governors
    /// could not be read, and with `WrongGov` where `gov` is not among them.
    pub fn check_govs(&self, gov: &str) -> (r: Result<(), MainE>)
        ensures
            verdict_of(r) == self.governor_verdict(gov@),
    {
        match &self.governors {
            Ok(available) => check_govs(gov, available.as_str()),
            Err(cause) => Err(catalog_failure(StatKind::Governor, cause.clone())),
        }
    }

    /// Checks a frequency against the catalog. Fails where the frequencies
    /// could not be read, and with `WrongFreq` where `freq` is not among
    /// them.
    pub fn check_freq(&self, freq: u32) -> (r: Result<(), MainE>)
        ensures
            verdict_of(r) == self.frequency_verdict(freq),
    {
        match &self.frequencies {
            Ok(available) => check_freq(freq, available.as_str()),
            Err(cause) => Err(catalog_failure(StatKind::Freq, cause.clone())),
        }
    }
}

} // verus!

//! The listing of the system's state: the table of per-CPU settings and the
//! colours that mark the state of turbo boost and of the power supply.

use vstd::prelude::*;
use vstd::string::*;
use crate::text::{decimal, numeral};

verus! {

/// The state of turbo boost.
#[derive(Clone, Copy, Debug, PartialEq, Eq, Structural)]
pub enum TurboState {
    On,
    Off,
    NotSupported,
}

/// The colours of the listing.
#[derive(Clone, Copy, Debug, PartialEq, Eq, Structural)]
pub enum Tint {
    Green,
    Red,
    Yellow,
}

/// The colour in which the state of turbo boost is shown: green for on, red
/// for off, yellow where the platform has no switch.
pub fn turbo_tint(state: TurboState) -> (tint: Tint)
    ensures
        tint == match state {
            TurboState::On => Tint::Green,
            TurboState::Off => Tint::Red,
            TurboState::NotSupported => Tint::Yellow,
        },
{
    match state {
        TurboState::On => Tint::Green,
        TurboState::Off => Tint::Red,
        TurboState::NotSupported => Tint::Yellow,
    }
}

/// The colour in which the power supply is shown: green while charging, red
/// otherwise.
pub fn power_tint(charging: bool) -> (tint: Tint)
    ensures
        tint == if charging {
            Tint::Green
        } else {
            Tint::Red
        },
{
    if charging {
        Tint::Green
    } else {
        Tint::Red
    }
}

/// The line of the table for CPU `cpu`: its index, governor, scaling driver
/// and frequency, separated by tabs.
pub open spec fn row(cpu: nat, governor: Seq<char>, driver: Seq<char>, freq: Seq<char>) -> Seq<
    char,
> {
    "CPU"@ + decimal(cpu) + "\t"@ + governor + "\t"@ + driver + "\t"@ + freq + "\n"@
}

/// The first `cpus` lines of the table.
pub open spec fn table(
    governors: Seq<String>,
    drivers: Seq<String>,
    freqs: Seq<String>,
    cpus: nat,
) -> Seq<char>
    decreases cpus,
{
    if cpus == 0 {
        Seq::empty()
    } else {
        table(governors, drivers, freqs, (cpus - 1) as nat) + row(
            (cpus - 1) as nat,
            governors[cpus - 1]@,
            drivers[cpus - 1]@,
            freqs[cpus - 1]@,
        )
    }
}

/// The least of three lengths.
pub open spec fn shortest(a: nat, b: nat, c: nat) -> nat {
    if a <= b && a <= c {
        a
    } else if b <= c {
        b
    } else {
        c
    }
}

/// The table of per-CPU settings: one line for each CPU of which all three
/// lists speak, from CPU 0 upwards.
pub fn percpu_stats(governors: &Vec<String>, drivers: &Vec<String>, freqs: &Vec<String>) -> (out:
    String)
    ensures
        out@ == table(
            governors@,
            drivers@,
            freqs@,
            shortest(governors@.len(), drivers@.len(), freqs@.len()),
        ),
{
    let mut cpus: usize = governors.len();
    if drivers.len() < cpus {
        cpus = drivers.len();
    }
    if freqs.len() < cpus {
        cpus = freqs.len();
    }
    let mut out = String::new();
    let mut i: usize = 0;
    while i < cpus
        invariant
            i <= cpus,
            cpus <= governors.len(),
            cpus <= drivers.len(),
            cpus <= freqs.len(),
            out@ == table(governors@, drivers@, freqs@, i as nat),
        decreases cpus - i,
    {
        let index = numeral(i as u64);
        out.append("CPU");
        out.append(index.as_str());
        out.append("\t");
        out.append(governors[i].as_str());
        out.append("\t");
        out.append(drivers[i].as_str());
        out.append("\t");
        out.append(freqs[i].as_str());
        out.append("\n");
        i += 1;
        assert(out@ =~= table(governors@, drivers@, freqs@, i as nat));
    }
    out
}

} // verus!

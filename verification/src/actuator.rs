//! The actuator: the control surfaces of the platform, the writes that put a
//! decision into effect, and what a sequence of writes does to the surfaces.

use vstd::prelude::*;
use vstd::string::*;
use crate::catalog::StatKind;
use crate::error::{Fault, MainE};
use crate::profile::Decision;
use crate::text::{decimal, numeral};

verus! {

/// The two places at which a platform may offer the turbo-boost switch.
#[derive(Clone, Copy, Debug, PartialEq, Eq, Structural)]
pub enum TurboSurface {
    /// The switch of the vendor's own frequency driver.
    Pstate,
    /// The switch of the generic frequency driver.
    Boost,
}

/// A control surface: a setting of one CPU, or the turbo-boost switch.
#[derive(Clone, Copy, Debug, PartialEq, Eq, Structural)]
pub enum Surface {
    /// One setting of one CPU: the setting, then the CPU's index.
    PerCpu(StatKind, usize),
    /// The turbo-boost switch.
    Turbo(TurboSurface),
}

/// One write: the text `value` goes to the control surface `surface`.
#[derive(Debug, PartialEq, Eq)]
pub struct Command {
    pub surface: Surface,
    pub value: String,
}

/// The mathematical content of a [`Command`].
pub ghost struct Store {
    pub surface: Surface,
    pub value: Seq<char>,
}

impl View for Command {
    type V = Store;

    open spec fn view(&self) -> Store {
        Store { surface: self.surface, value: self.value@ }
    }
}

/// The contents of a sequence of commands.
pub open spec fn stores_of(commands: Seq<Command>) -> Seq<Store> {
    Seq::new(commands.len(), |i: int| commands[i]@)
}

/// The name of the attribute through which a per-CPU setting is written.
pub open spec fn attribute_of(kind: StatKind) -> Seq<char> {
    match kind {
        StatKind::Governor => "scaling_governor"@,
        StatKind::Freq => "scaling_setspeed"@,
    }
}

/// The file behind a control surface.
pub open spec fn path_of(surface: Surface) -> Seq<char> {
    match surface {
        Surface::PerCpu(kind, cpu) => "/sys/devices/system/cpu/cpu"@ + decimal(cpu as nat)
            + "/cpufreq/"@ + attribute_of(kind),
        Surface::Turbo(TurboSurface::Pstate) => "/sys/devices/system/cpu/intel_pstate/no_turbo"@,
        Surface::Turbo(TurboSurface::Boost) => "/sys/devices/system/cpu/cpufreq/boost"@,
    }
}

/// The same write on each of `cpus` CPUs, from CPU 0 upwards.
pub open spec fn fan(kind: StatKind, value: Seq<char>, cpus: nat) -> Seq<Store> {
    Seq::new(cpus, |i: int| Store { surface: Surface::PerCpu(kind, i as usize), value })
}

/// The turbo-boost switch to use on a platform: the vendor's where it
/// exists, else the generic one where that exists, else none.
pub open spec fn turbo_choice(vendor: bool, generic: bool) -> Option<TurboSurface> {
    if vendor {
        Some(TurboSurface::Pstate)
    } else if generic {
        Some(TurboSurface::Boost)
    } else {
        None
    }
}

/// The text that switches turbo boost on or off.
pub open spec fn turbo_value(on: bool) -> Seq<char> {
    if on {
        "1"@
    } else {
        "0"@
    }
}

/// The write that switches turbo boost, or none on a platform without a
/// switch.
pub open spec fn turbo_stores(on: bool, choice: Option<TurboSurface>) -> Seq<Store> {
    match choice {
        Some(switch) => seq![Store { surface: Surface::Turbo(switch), value: turbo_value(on) }],
        None => Seq::empty(),
    }
}

/// The writes for a fixed frequency: its decimal numeral on every CPU, or
/// none where no frequency is set.
pub open spec fn frequency_stores(frequency: Option<u32>, cpus: nat) -> Seq<Store> {
    match frequency {
        Some(khz) => fan(StatKind::Freq, decimal(khz as nat), cpus),
        None => Seq::empty(),
    }
}

/// The writes that put a decision into effect, in the order in which they
/// are made: the governor on every CPU, then the frequency on every CPU,
/// then turbo boost. A frequency is accepted only once its CPU runs the
/// `userspace` governor, so the governor goes first.
pub open spec fn planned(decision: Decision, cpus: nat, choice: Option<TurboSurface>) -> Seq<Store> {
    fan(StatKind::Governor, decision.governor@, cpus) + frequency_stores(decision.frequency, cpus)
        + turbo_stores(decision.turbo, choice)
}

/// The writes of one cycle, and whether the platform lacks a turbo-boost
/// switch. The lack is worth a warning, no more: governor and frequency are
/// set all the same.
#[derive(Debug, PartialEq, Eq)]
pub struct Plan {
    pub commands: Vec<Command>,
    pub turbo_unsupported: bool,
}

/// The number of CPUs of this machine. Trusted: `num_cpus::get`, documented
/// to count the logical CPUs available to the process and to return 1 at least.
#[verifier::external_body]
pub(crate) fn cpu_count() -> (cpus: usize)
    ensures
        cpus >= 1,
{
    num_cpus::get()
}

/// The file behind a control surface.
pub fn path(surface: Surface) -> (out: String)
    ensures
        out@ == path_of(surface),
{
    match surface {
        Surface::PerCpu(kind, cpu) => {
            let index = numeral(cpu as u64);
            let mut out = String::from_str("/sys/devices/system/cpu/cpu");
            out.append(index.as_str());
            out.append("/cpufreq/");
            match kind {
                StatKind::Governor => out.append("scaling_governor"),
                StatKind::Freq => out.append("scaling_setspeed"),
            }
            out
        },
        Surface::Turbo(TurboSurface::Pstate) => String::from_str(
            "/sys/devices/system/cpu/intel_pstate/no_turbo",
        ),
        Surface::Turbo(TurboSurface::Boost) => String::from_str(
            "/sys/devices/system/cpu/cpufreq/boost",
        ),
    }
}

/// Appends to `out` the write of `value` to the setting `kind` of each of
/// `cpus` CPUs, from CPU 0 upwards.
pub fn push_fan(out: &mut Vec<Command>, kind: StatKind, value: &str, cpus: usize)
    ensures
        stores_of(final(out)@) == stores_of(old(out)@) + fan(kind, value@, cpus as nat),
{
    let ghost before = stores_of(out@);
    let mut i: usize = 0;
    while i < cpus
        invariant
            i <= cpus,
            stores_of(out@) == before + fan(kind, value@, i as nat),
        decreases cpus - i,
    {
        let ghost sofar = out@;
        out.push(Command { surface: Surface::PerCpu(kind, i), value: value.to_owned() });
        i += 1;
        assert(stores_of(out@) =~= before + fan(kind, value@, i as nat)) by {
            assert(stores_of(sofar) == before + fan(kind, value@, (i - 1) as nat));
            assert(out@.len() == sofar.len() + 1);
            assert forall|k: int| 0 <= k < out@.len() implies stores_of(out@)[k] == (before + fan(
                kind,
                value@,
                i as nat,
            ))[k] by {
                if k < sofar.len() {
                    assert(out@[k] == sofar[k]);
                    assert(stores_of(sofar)[k] == sofar[k]@);
                }
            }
        }
    }
    assert(before + fan(kind, value@, 0) =~= before);
}

/// The writes that select `value` for the setting `kind` on each of `cpus`
/// CPUs, from CPU 0 upwards.
pub fn fan_out(kind: StatKind, value: &str, cpus: usize) -> (out: Vec<Command>)
    ensures
        stores_of(out@) == fan(kind, value@, cpus as nat),
{
    let mut out: Vec<Command> = Vec::new();
    assert(stores_of(out@) =~= Seq::<Store>::empty());
    push_fan(&mut out, kind, value, cpus);
    assert(Seq::<Store>::empty() + fan(kind, value@, cpus as nat) =~= fan(
        kind,
        value@,
        cpus as nat,
    ));
    out
}

/// The writes that select `value` for the setting `kind` on every CPU of
/// this machine: one per CPU, from CPU 0 upwards, and so at least one.
pub fn set_stat(kind: StatKind, value: &str) -> (out: Vec<Command>)
    ensures
        out@.len() >= 1,
        stores_of(out@) == fan(kind, value@, out@.len()),
{
    let cpus = cpu_count();
    let out = fan_out(kind, value, cpus);
    assert(stores_of(out@).len() == out@.len());
    out
}

/// The turbo-boost switch to use, given which of the two exist.
pub fn turbo_surface(vendor: bool, generic: bool) -> (choice: Option<TurboSurface>)
    ensures
        choice == turbo_choice(vendor, generic),
{
    if vendor {
        Some(TurboSurface::Pstate)
    } else if generic {
        Some(TurboSurface::Boost)
    } else {
        None
    }
}

/// The write that switches turbo boost on or off, given which of the two
/// switches exist; `None` where neither does.
pub fn turbo(on: bool, vendor: bool, generic: bool) -> (r: Option<Command>)
    ensures
        match turbo_choice(vendor, generic) {
            Some(switch) => r is Some && r->0@ == (Store {
                surface: Surface::Turbo(switch),
                value: turbo_value(on),
            }),
            None => r is None,
        },
{
    match turbo_surface(vendor, generic) {
        Some(switch) => {
            let value = if on {
                String::from_str("1")
            } else {
                String::from_str("0")
            };
            Some(Command { surface: Surface::Turbo(switch), value })
        },
        None => None,
    }
}

impl Decision {
    /// The writes that put this decision into effect on a machine of `cpus`
    /// CPUs, in order, given which of the two turbo-boost switches exist.
    pub fn plan(&self, cpus: usize, vendor: bool, generic: bool) -> (p: Plan)
        ensures
            stores_of(p.commands@) == planned(*self, cpus as nat, turbo_choice(vendor, generic)),
            p.turbo_unsupported == (turbo_choice(vendor, generic) is None),
    {
        let mut commands: Vec<Command> = Vec::new();
        assert(stores_of(commands@) =~= Seq::<Store>::empty());
        push_fan(&mut commands, StatKind::Governor, self.governor.as_str(), cpus);
        let ghost governors = stores_of(commands@);
        assert(governors =~= fan(StatKind::Governor, self.governor@, cpus as nat));
        if let Some(khz) = self.frequency {
            let value = numeral(khz as u64);
            push_fan(&mut commands, StatKind::Freq, value.as_str(), cpus);
        }
        let ghost settings = stores_of(commands@);
        assert(settings =~= governors + frequency_stores(self.frequency, cpus as nat));
        let switch = turbo(self.turbo, vendor, generic);
        let turbo_unsupported = switch.is_none();
        if let Some(command) = switch {
            let ghost store = command@;
            commands.push(command);
            assert(stores_of(commands@) =~= settings + seq![store]);
        }
        assert(stores_of(commands@) =~= settings + turbo_stores(
            self.turbo,
            turbo_choice(vendor, generic),
        ));
        Plan { commands, turbo_unsupported }
    }
}

/// The step of a write at which the platform refused it.
#[derive(Clone, Copy, Debug, PartialEq, Eq, Structural)]
pub enum Stage {
    /// Opening the control surface for writing.
    Open,
    /// Storing the value.
    Store,
}

/// The fault of a refused write. It names the file behind the surface,
/// except where a per-CPU setting could not be opened for want of
/// permission: it then says which permission is missing.
pub open spec fn write_fault(surface: Surface, stage: Stage, denied: bool, cause: Seq<char>) -> Fault {
    if surface is PerCpu && stage == Stage::Open && denied {
        Fault::Write(cause, "- you need read/write permissions in /sys"@)
    } else {
        Fault::Write(cause, path_of(surface))
    }
}

/// The failure to report for a write to `surface` that the platform refused
/// at `stage`, for want of permission (`denied`) or otherwise, with the
/// platform's own description `cause`.
pub fn write_failure(surface: Surface, stage: Stage, denied: bool, cause: String) -> (e: MainE)
    ensures
        e@ == write_fault(surface, stage, denied, cause@),
{
    let per_cpu = match surface {
        Surface::PerCpu(_, _) => true,
        Surface::Turbo(_) => false,
    };
    let opening = match stage {
        Stage::Open => true,
        Stage::Store => false,
    };
    if per_cpu && opening && denied {
        MainE::Write(cause, String::from_str("- you need read/write permissions in /sys"))
    } else {
        MainE::Write(cause, path(surface))
    }
}

/// What the platform answered to one write.
#[derive(Debug, PartialEq, Eq)]
pub enum Outcome {
    /// The value is stored.
    Stored,
    /// The write was refused at `stage`, for want of permission (`denied`)
    /// or otherwise; `cause` is the platform's own description.
    Refused { stage: Stage, denied: bool, cause: String },
}

/// The progress of one round of writes. The writes are made one at a time
/// and in order; the first refusal ends the round, and what was written
/// before it stays written.
#[derive(Debug)]
pub struct Actuator {
    commands: Vec<Command>,
    done: usize,
    halted: bool,
}

impl Actuator {
    /// The writes of the round, in order.
    pub closed spec fn stores(&self) -> Seq<Store> {
        stores_of(self.commands@)
    }

    /// How many of them the platform has stored.
    pub closed spec fn done(&self) -> nat {
        self.done as nat
    }

    /// Whether a refusal has ended the round.
    pub closed spec fn halted(&self) -> bool {
        self.halted
    }

    /// No more writes are counted as stored than the round has.
    pub closed spec fn wf(&self) -> bool {
        self.done <= self.commands@.len()
    }

    /// The writes that the platform has stored: a prefix of the round.
    pub open spec fn written(&self) -> Seq<Store> {
        self.stores().take(self.done() as int)
    }

    /// The write to make next, if the round goes on.
    pub open spec fn next(&self) -> Option<Store> {
        if !self.halted() && self.done() < self.stores().len() {
            Some(self.stores()[self.done() as int])
        } else {
            None
        }
    }

    /// A round of the writes `commands`, of which none is made yet.
    pub fn new(commands: Vec<Command>) -> (a: Actuator)
        ensures
            a.wf(),
            a.stores() == stores_of(commands@),
            a.done() == 0,
            !a.halted(),
    {
        Actuator { commands, done: 0, halted: false }
    }

    /// The write to make next, or `None` once all are stored or one was
    /// refused.
    pub fn pending(&self) -> (r: Option<&Command>)
        requires
            self.wf(),
        ensures
            match r {
                Some(command) => self.next() == Some(command@),
                None => self.next() is None,
            },
    {
        if !self.halted && self.done < self.commands.len() {
            Some(&self.commands[self.done])
        } else {
            None
        }
    }

    /// Takes note of the platform's answer to the pending write. A stored
    /// write is counted and the round goes on with the one after it. A
    /// refusal ends the round with the failure to report, and leaves what
    /// was written as it is. Without a pending write nothing changes.
    pub fn advance(&mut self, outcome: Outcome) -> (r: Result<(), MainE>)
        requires
            old(self).wf(),
        ensures
            final(self).wf(),
            final(self).stores() == old(self).stores(),
            match (old(self).next(), outcome) {
                (None, _) => {
                    &&& r is Ok
                    &&& final(self).done() == old(self).done()
                    &&& final(self).halted() == old(self).halted()
                },
                (Some(_), Outcome::Stored) => {
                    &&& r is Ok
                    &&& final(self).done() == old(self).done() + 1
                    &&& !final(self).halted()
                },
                (Some(store), Outcome::Refused { stage, denied, cause }) => {
                    &&& r is Err
                    &&& r->Err_0@ == write_fault(store.surface, stage, denied, cause@)
                    &&& final(self).done() == old(self).done()
                    &&& final(self).halted()
                },
            },
    {
        if self.halted || self.done >= self.commands.len() {
            return Ok(());
        }
        match outcome {
            Outcome::Stored => {
                self.done = self.done + 1;
                Ok(())
            },
            Outcome::Refused { stage, denied, cause } => {
                self.halted = true;
                Err(write_failure(self.commands[self.done].surface, stage, denied, cause))
            },
        }
    }
}

/// The text that each control surface holds.
pub type Surfaces = Map<Surface, Seq<char>>;

/// The surfaces after the writes `stores`, made in order on `state`.
pub open spec fn applied(state: Surfaces, stores: Seq<Store>) -> Surfaces
    decreases stores.len(),
{
    if stores.len() == 0 {
        state
    } else {
        applied(state, stores.drop_last()).insert(stores.last().surface, stores.last().value)
    }
}

/// The text that the last write to `surface` among `stores` left there, if
/// any of them went to it.
pub open spec fn last_store(stores: Seq<Store>, surface: Surface) -> Option<Seq<char>>
    decreases stores.len(),
{
    if stores.len() == 0 {
        None
    } else if stores.last().surface == surface {
        Some(stores.last().value)
    } else {
        last_store(stores.drop_last(), surface)
    }
}

/// After a sequence of writes a surface holds what the last write to it
/// stored, and what it held before where none went to it.
pub proof fn lemma_applied_holds(state: Surfaces, stores: Seq<Store>, surface: Surface)
    ensures
        applied(state, stores).contains_key(surface) <==> last_store(stores, surface) is Some
            || state.contains_key(surface),
        last_store(stores, surface) is Some ==> applied(state, stores)[surface] == last_store(
            stores,
            surface,
        )->0,
        last_store(stores, surface) is None ==> applied(state, stores)[surface] == state[surface],
    decreases stores.len(),
{
    if stores.len() > 0 {
        lemma_applied_holds(state, stores.drop_last(), surface);
    }
}

/// Making the same writes a second time changes nothing: the surfaces are
/// as the first round left them.
pub proof fn law_apply_twice(state: Surfaces, stores: Seq<Store>)
    ensures
        applied(applied(state, stores), stores) == applied(state, stores),
{
    let once = applied(state, stores);
    let twice = applied(once, stores);
    assert forall|surface: Surface| #[trigger]
        twice.dom().contains(surface) == once.dom().contains(surface) by {
        lemma_applied_holds(state, stores, surface);
        lemma_applied_holds(once, stores, surface);
    }
    assert forall|surface: Surface| once.dom().contains(surface) implies #[trigger] twice[surface]
        == once[surface] by {
        lemma_applied_holds(state, stores, surface);
        lemma_applied_holds(once, stores, surface);
    }
    assert(twice =~= once);
}

/// Selecting the same governor twice in a row leaves every surface as the
/// first selection left it.
pub proof fn law_governor_twice(state: Surfaces, governor: Seq<char>, cpus: nat)
    ensures
        applied(
            applied(state, fan(StatKind::Governor, governor, cpus)),
            fan(StatKind::Governor, governor, cpus),
        ) == applied(state, fan(StatKind::Governor, governor, cpus)),
{
    law_apply_twice(state, fan(StatKind::Governor, governor, cpus));
}

} // verus!

//! The process supervisor: spawn a configured set of worker processes,
//! watch their liveness on a fixed cadence, and terminate the survivors
//! when an external shutdown request is observed.
//!
//! The supervisor decides; the caller performs the process operations. The
//! handle type `H` is whatever the caller's spawns produce and is opaque
//! here: the caller spawns each configured module, hands the outcomes to
//! [`Supervisor::from_spawn_outcomes`], reports observed exits with
//! [`Supervisor::mark_exited`], sweeps with [`Supervisor::prune_exited`],
//! asks [`Supervisor::decide`] what to do next, and on a shutdown issues
//! one best-effort termination request per record handed back by
//! [`Supervisor::terminate_targets`].

use vstd::prelude::*;

verus! {

/// The fixed cadence of the monitoring loop, in seconds: the caller
/// pauses this long between steps, so a shutdown request is observed
/// within about one period.
pub const MONITOR_PERIOD_SECS: u64 = 1;

/// One independently supervised worker, drawn from the fixed three-member
/// set; each maps to a constant executable name.
#[derive(Clone, Copy, Debug, PartialEq, Eq, Structural)]
pub enum Module {
    Xim,
    Wayland,
    Indicator,
}

/// The executable name a module is spawned by.
pub open spec fn spec_process_name(m: Module) -> Seq<char> {
    match m {
        Module::Xim => "kime-xim"@,
        Module::Wayland => "kime-wayland"@,
        Module::Indicator => "kime-indicator"@,
    }
}

impl Module {
    /// The fixed executable name this module is spawned by.
    pub fn process_name(self) -> (r: &'static str)
        ensures
            r@ == spec_process_name(self),
    {
        match self {
            Module::Xim => "kime-xim",
            Module::Wayland => "kime-wayland",
            Module::Indicator => "kime-indicator",
        }
    }
}

/// The ordered list of modules to supervise; read once at startup, never
/// mutated.
pub struct Config {
    pub modules: Vec<Module>,
}

impl Default for Config {
    /// Without a configuration file (or its module list), all three
    /// modules are supervised.
    fn default() -> (c: Self)
        ensures
            c.modules@ == seq![Module::Wayland, Module::Xim, Module::Indicator],
    {
        let mut modules: Vec<Module> = Vec::new();
        modules.push(Module::Wayland);
        modules.push(Module::Xim);
        modules.push(Module::Indicator);
        proof {
            assert(modules@ =~= seq![Module::Wayland, Module::Xim, Module::Indicator]);
        }
        Config { modules }
    }
}

/// Where the supervisor stands in its lifecycle.
#[derive(Clone, Copy, Debug, PartialEq, Eq, Structural)]
pub enum Phase {
    /// Spawn attempts are being made, one per configured module.
    Starting,
    /// Liveness is checked once per fixed period; exited records are
    /// dropped.
    Running,
    /// A shutdown request was observed; the survivors get one termination
    /// request each.
    ShuttingDown,
    /// No further supervision occurs.
    Terminated,
}

/// One tracked worker: its display name, the live process handle the
/// caller's spawn produced, and whether its exit has been observed.
pub struct ProcessRecord<H> {
    pub name: &'static str,
    pub handle: H,
    pub exited: bool,
}

/// What the caller must do after one monitoring decision.
#[derive(Clone, Copy, Debug, PartialEq, Eq, Structural)]
pub enum Directive {
    /// Tracked processes remain and no shutdown was requested: pause for
    /// one period, then run the next monitoring step.
    Sleep,
    /// A shutdown was requested: take the termination targets and issue
    /// each a best-effort termination request.
    BeginShutdown,
    /// Every tracked process exited on its own: the supervisor is done,
    /// with success and with no termination request issued.
    AllDone,
}

/// The records tracked once the starting phase is over: one per configured
/// module whose spawn attempt succeeded, in configuration order, none of
/// them exited. A failed spawn only omits its module.
pub open spec fn spec_tracked_after_start<H>(
    outcomes: Seq<(&'static str, Option<H>)>,
) -> Seq<ProcessRecord<H>>
    decreases outcomes.len(),
{
    if outcomes.len() == 0 {
        Seq::empty()
    } else {
        let rest = spec_tracked_after_start(outcomes.drop_first());
        match outcomes[0].1 {
            Option::Some(h) => seq![
                ProcessRecord { name: outcomes[0].0, handle: h, exited: false },
            ] + rest,
            Option::None => rest,
        }
    }
}

/// How many of the spawn attempts failed.
pub open spec fn spec_spawn_failures<H>(outcomes: Seq<(&'static str, Option<H>)>) -> nat
    decreases outcomes.len(),
{
    if outcomes.len() == 0 {
        0
    } else {
        (if outcomes[0].1 is None {
            1nat
        } else {
            0nat
        }) + spec_spawn_failures(outcomes.drop_first())
    }
}

/// The records left by one sweep: those not observed exited, in order.
pub open spec fn spec_live<H>(records: Seq<ProcessRecord<H>>) -> Seq<ProcessRecord<H>>
    decreases records.len(),
{
    if records.len() == 0 {
        Seq::empty()
    } else if records[0].exited {
        spec_live(records.drop_first())
    } else {
        seq![records[0]] + spec_live(records.drop_first())
    }
}

/// The decision one monitoring step takes after its sweep, from the number
/// of records still tracked and whether a shutdown request was observed:
/// an empty tracked set is a normal, successful end; otherwise a shutdown
/// request begins the shutdown, and without one the supervisor keeps
/// running.
pub open spec fn spec_decide(n_tracked: nat, shutdown: bool) -> (Phase, Directive) {
    if n_tracked == 0 {
        (Phase::Terminated, Directive::AllDone)
    } else if shutdown {
        (Phase::ShuttingDown, Directive::BeginShutdown)
    } else {
        (Phase::Running, Directive::Sleep)
    }
}

/// The supervisor: a lifecycle phase and the tracked records. The tracked
/// set is at any time exactly the configured modules that spawned
/// successfully and have not yet been swept away as exited.
pub struct Supervisor<H> {
    pub phase: Phase,
    pub records: Vec<ProcessRecord<H>>,
}

impl<H> Supervisor<H> {
    /// A fresh supervisor, about to make its spawn attempts.
    pub fn new() -> (s: Self)
        ensures
            s.phase == Phase::Starting,
            s.records@ == Seq::<ProcessRecord<H>>::empty(),
    {
        Supervisor { phase: Phase::Starting, records: Vec::new() }
    }

    /// End of the starting phase: take, per configured module in order,
    /// its process name and the handle its spawn attempt produced (`None`
    /// for a spawn failure). Tracks exactly the successes and moves to
    /// Running; spawn failures are not fatal.
    pub fn from_spawn_outcomes(outcomes: Vec<(&'static str, Option<H>)>) -> (s: Self)
        ensures
            s.phase == Phase::Running,
            s.records@ == spec_tracked_after_start(outcomes@),
    {
        let ghost all = outcomes@;
        let mut outcomes = outcomes;
        let mut records: Vec<ProcessRecord<H>> = Vec::new();
        while outcomes.len() > 0
            invariant
                spec_tracked_after_start(all) == records@ + spec_tracked_after_start(outcomes@),
            decreases outcomes@.len(),
        {
            let ghost pending = outcomes@;
            let (name, outcome) = outcomes.remove(0);
            proof {
                assert(outcomes@ =~= pending.drop_first());
            }
            match outcome {
                Option::Some(handle) => {
                    let ghost before = records@;
                    records.push(ProcessRecord { name, handle, exited: false });
                    proof {
                        assert(records@ + spec_tracked_after_start(outcomes@) =~= before
                            + spec_tracked_after_start(pending));
                    }
                },
                Option::None => {},
            }
        }
        proof {
            assert(records@ + spec_tracked_after_start(outcomes@) =~= records@);
        }
        Supervisor { phase: Phase::Running, records }
    }

    /// Flag the record at `i`: its process was observed exited (with
    /// whatever status). Nothing else changes; the next sweep drops it.
    pub fn mark_exited(&mut self, i: usize)
        requires
            old(self).phase == Phase::Running,
            i < old(self).records@.len(),
        ensures
            final(self).phase == old(self).phase,
            final(self).records@.len() == old(self).records@.len(),
            final(self).records@[i as int].name == old(self).records@[i as int].name,
            final(self).records@[i as int].handle == old(self).records@[i as int].handle,
            final(self).records@[i as int].exited,
            forall|j: int|
                0 <= j < old(self).records@.len() && j != i ==> final(self).records@[j] == old(
                    self,
                ).records@[j],
    {
        let mut rec = self.records.remove(i);
        rec.exited = true;
        self.records.insert(i, rec);
    }

    /// One sweep: drop every record flagged exited, keeping the others in
    /// order.
    pub fn prune_exited(&mut self)
        requires
            old(self).phase == Phase::Running,
        ensures
            final(self).phase == old(self).phase,
            final(self).records@ == spec_live(old(self).records@),
    {
        let ghost all = self.records@;
        let mut kept: Vec<ProcessRecord<H>> = Vec::new();
        while self.records.len() > 0
            invariant
                self.phase == old(self).phase,
                spec_live(all) == kept@ + spec_live(self.records@),
            decreases self.records@.len(),
        {
            let ghost pending = self.records@;
            let rec = self.records.remove(0);
            proof {
                assert(self.records@ =~= pending.drop_first());
            }
            if !rec.exited {
                let ghost before = kept@;
                kept.push(rec);
                proof {
                    assert(kept@ + spec_live(self.records@) =~= before + spec_live(pending));
                }
            }
        }
        proof {
            assert(kept@ + spec_live(self.records@) =~= kept@);
        }
        self.records = kept;
    }

    /// The decision after a sweep: nothing tracked means the workers all
    /// finished on their own, a normal successful end; otherwise an
    /// observed shutdown request begins the shutdown; otherwise keep
    /// running and have the caller pause one period.
    pub fn decide(&mut self, shutdown_requested: bool) -> (d: Directive)
        requires
            old(self).phase == Phase::Running,
        ensures
            final(self).records@ == old(self).records@,
            (final(self).phase, d) == spec_decide(old(self).records@.len(), shutdown_requested),
    {
        if self.records.is_empty() {
            self.phase = Phase::Terminated;
            Directive::AllDone
        } else if shutdown_requested {
            self.phase = Phase::ShuttingDown;
            Directive::BeginShutdown
        } else {
            Directive::Sleep
        }
    }

    /// Shutdown: hand back every still-tracked record exactly once, in
    /// order, so the caller can issue each a single best-effort
    /// termination request; the supervisor moves to Terminated and tracks
    /// nothing further.
    pub fn terminate_targets(&mut self) -> (v: Vec<ProcessRecord<H>>)
        requires
            old(self).phase == Phase::ShuttingDown,
        ensures
            v@ == old(self).records@,
            final(self).phase == Phase::Terminated,
            final(self).records@.len() == 0,
    {
        let mut v: Vec<ProcessRecord<H>> = Vec::new();
        core::mem::swap(&mut v, &mut self.records);
        self.phase = Phase::Terminated;
        v
    }
}

/// Law: of N configured modules of which M fail to spawn, exactly N - M
/// records are tracked once the starting phase is over.
pub proof fn law_spawn_tracking<H>(outcomes: Seq<(&'static str, Option<H>)>)
    ensures
        spec_tracked_after_start(outcomes).len() + spec_spawn_failures(outcomes) == outcomes.len(),
    decreases outcomes.len(),
{
    if outcomes.len() > 0 {
        law_spawn_tracking(outcomes.drop_first());
    }
}

/// Law: with tracked processes still live when a shutdown request is
/// observed, the supervisor's decision is to begin the shutdown, and the
/// termination targets it then hands out are exactly its tracked records —
/// each of them once, in order — after which it stands in Terminated
/// (`terminate_targets` returns precisely the tracked records and moves
/// there).
pub proof fn law_shutdown_each_once<H>(
    records: Seq<ProcessRecord<H>>,
    targets: Seq<ProcessRecord<H>>,
)
    requires
        records.len() > 0,
        targets == records,
    ensures
        spec_decide(records.len(), true) == (Phase::ShuttingDown, Directive::BeginShutdown),
        targets.len() == records.len(),
        forall|i: int| 0 <= i < targets.len() ==> targets[i] == records[i],
{
}

/// Law: when every tracked process has exited on its own, the sweep leaves
/// nothing tracked, and the decision — no shutdown observed — is a normal
/// successful end with no termination request issued.
pub proof fn law_natural_exit<H>(records: Seq<ProcessRecord<H>>)
    requires
        forall|i: int| 0 <= i < records.len() ==> records[i].exited,
    ensures
        spec_live(records).len() == 0,
        spec_decide(spec_live(records).len(), false) == (Phase::Terminated, Directive::AllDone),
    decreases records.len(),
{
    if records.len() > 0 {
        assert(forall|i: int|
            0 <= i < records.drop_first().len() ==> records.drop_first()[i].exited);
        law_natural_exit(records.drop_first());
    }
}

} // verus!

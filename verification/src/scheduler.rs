//! The order in which a polling cycle proceeds.
//!
//! The scheduler is a state machine that performs nothing itself. It names
//! the [`Action`] that is due; its driver performs that action and hands back
//! the [`Event`] that came of it; [`Scheduler::step`] then moves on and says
//! in a [`Report`] what was learnt. One cycle resolves the machine's address
//! once and then takes the domains in their order, each against that same
//! address. A domain that fails never keeps the others from their turn.

use crate::address::Ipv4Address;
use crate::provider::ProviderQueryError;
use crate::provider::ProviderUpdateError;
use crate::reconcile::conclude;
use crate::reconcile::conclusion_of;
use crate::reconcile::decide;
use crate::reconcile::decision_of;
use crate::reconcile::Decision;
use crate::reconcile::ReconcileOutcome;
use crate::resolver::machine_ip;
use crate::resolver::machine_ip_of;
use crate::resolver::ResolutionError;
use crate::task::task_views;
use crate::task::DomainTask;
use crate::task::DomainTaskView;
use vstd::prelude::*;

verus! {

/// Where in its cycle the scheduler stands.
#[derive(Clone, Copy, Debug, PartialEq, Eq, Structural)]
pub enum Phase {
    /// The machine's address for the coming cycle is being looked up.
    Resolving,
    /// The provider of the task `index` is being asked what it publishes.
    Querying { index: usize, machine_ip: Ipv4Address },
    /// The provider of the task `index` is publishing the machine's address.
    Updating { index: usize, machine_ip: Ipv4Address },
    /// The cycle is over and the next one is waited for.
    Sleeping,
    /// The scheduler has come to its end; `clean` says whether the one cycle
    /// of a run-once scheduler had the machine's address.
    Stopped { clean: bool },
}

/// What the driver is to do next.
#[derive(Clone, Copy, Debug, PartialEq, Eq, Structural)]
pub enum Action {
    /// Look up the machine's public address.
    ResolveMachineIp,
    /// Ask the provider of the task `index` which address it publishes.
    QueryCurrent { index: usize },
    /// Have the provider of the task `index` publish `ip`.
    Update { index: usize, ip: Ipv4Address },
    /// Wait for `seconds` seconds.
    Sleep { seconds: u64 },
    /// Leave, with success if `clean` and with failure otherwise.
    Exit { clean: bool },
}

/// What came of the action that the driver performed.
#[derive(Debug, PartialEq, Eq)]
pub enum Event {
    /// The lookup of the machine's address ended: the addresses of the
    /// answer, or the words in which it failed.
    MachineIp(Result<Vec<Ipv4Address>, String>),
    /// The provider said what it publishes, or could not.
    Current(Result<Ipv4Address, ProviderQueryError>),
    /// The provider published the address, or could not.
    Updated(Result<(), ProviderUpdateError>),
    /// The wait is over.
    Woke,
}

/// What a step learnt, for the driver to tell its user.
#[derive(Clone, Debug, PartialEq, Eq)]
pub enum Report {
    /// The cycle has the machine's address.
    MachineIp(Ipv4Address),
    /// The cycle has no machine address and reconciles no domain.
    CycleFailed(ResolutionError),
    /// The task `index` publishes `published`, which is not the machine's
    /// address, and is being updated.
    Drift { index: usize, published: Ipv4Address, machine_ip: Ipv4Address },
    /// The task `index` is done for this cycle.
    Outcome { index: usize, outcome: ReconcileOutcome },
    /// A new cycle begins.
    CycleStarted,
    /// The event answers no action that was due; nothing has changed.
    Ignored,
}

/// The scheduler: its tasks, its settings and where it stands.
pub struct Scheduler {
    tasks: Vec<DomainTask>,
    interval_seconds: u64,
    run_once: bool,
    phase: Phase,
}

/// What a [`Scheduler`] holds.
pub struct SchedulerView {
    pub tasks: Seq<DomainTaskView>,
    pub interval_seconds: u64,
    pub run_once: bool,
    pub phase: Phase,
}

impl SchedulerView {
    /// Whether the tasks can be counted by a machine word and the task that
    /// is being worked on is one of them.
    pub open spec fn wf(self) -> bool {
        &&& self.tasks.len() <= usize::MAX
        &&& match self.phase {
            Phase::Querying { index, .. } => index < self.tasks.len(),
            Phase::Updating { index, .. } => index < self.tasks.len(),
            _ => true,
        }
    }

    /// The action that is due.
    pub open spec fn pending(self) -> Action {
        match self.phase {
            Phase::Resolving => Action::ResolveMachineIp,
            Phase::Querying { index, .. } => Action::QueryCurrent { index },
            Phase::Updating { index, machine_ip } => Action::Update { index, ip: machine_ip },
            Phase::Sleeping => Action::Sleep { seconds: self.interval_seconds },
            Phase::Stopped { clean } => Action::Exit { clean },
        }
    }

    /// The phase at the end of a cycle: a run-once scheduler stops, cleanly
    /// if the cycle had the machine's address; any other sleeps.
    pub open spec fn cycle_end(self, clean: bool) -> Phase {
        if self.run_once {
            Phase::Stopped { clean }
        } else {
            Phase::Sleeping
        }
    }

    /// The phase in which the task `index` gets its turn, or the end of the
    /// cycle where there is no such task.
    pub open spec fn turn_of(self, index: int, machine_ip: Ipv4Address) -> Phase {
        if 0 <= index < self.tasks.len() {
            Phase::Querying { index: index as usize, machine_ip }
        } else {
            self.cycle_end(true)
        }
    }

    /// The scheduler in another phase.
    pub open spec fn at(self, phase: Phase) -> SchedulerView {
        SchedulerView { phase, ..self }
    }

    /// The scheduler after `event`, and what the step reports. An event that
    /// does not answer the action that was due changes nothing.
    pub open spec fn step(self, event: Event) -> (SchedulerView, Report) {
        match (self.phase, event) {
            (Phase::Resolving, Event::MachineIp(lookup)) => match machine_ip_of(lookup) {
                Ok(ip) => (self.at(self.turn_of(0, ip)), Report::MachineIp(ip)),
                Err(error) => (self.at(self.cycle_end(false)), Report::CycleFailed(error)),
            },
            (Phase::Querying { index, machine_ip }, Event::Current(current)) => match decision_of(
                machine_ip,
                current,
            ) {
                Decision::Settled(outcome) => (
                    self.at(self.turn_of(index + 1, machine_ip)),
                    Report::Outcome { index, outcome },
                ),
                Decision::Publish(ip) => (
                    self.at(Phase::Updating { index, machine_ip }),
                    Report::Drift { index, published: current->Ok_0, machine_ip },
                ),
            },
            (Phase::Updating { index, machine_ip }, Event::Updated(updated)) => (
                self.at(self.turn_of(index + 1, machine_ip)),
                Report::Outcome { index, outcome: conclusion_of(updated) },
            ),
            (Phase::Sleeping, Event::Woke) => (self.at(Phase::Resolving), Report::CycleStarted),
            _ => (self, Report::Ignored),
        }
    }
}

impl View for Scheduler {
    type V = SchedulerView;

    closed spec fn view(&self) -> SchedulerView {
        SchedulerView {
            tasks: task_views(self.tasks@),
            interval_seconds: self.interval_seconds,
            run_once: self.run_once,
            phase: self.phase,
        }
    }
}

impl Scheduler {
    #[verifier::type_invariant]
    spec fn inv(self) -> bool {
        self@.wf()
    }

    /// A scheduler for `tasks` that is about to begin its first cycle. It
    /// sleeps `interval_seconds` between two cycles, or stops after one if
    /// `run_once` is set.
    pub fn new(tasks: Vec<DomainTask>, interval_seconds: u64, run_once: bool) -> (scheduler: Self)
        ensures
            scheduler@ == (SchedulerView {
                tasks: task_views(tasks@),
                interval_seconds,
                run_once,
                phase: Phase::Resolving,
            }),
            scheduler@.wf(),
    {
        assert(tasks@.len() == tasks.len());
        Scheduler { tasks, interval_seconds, run_once, phase: Phase::Resolving }
    }

    /// The tasks, in the order in which they get their turn.
    pub fn tasks(&self) -> (tasks: &Vec<DomainTask>)
        ensures
            task_views(tasks@) == self@.tasks,
    {
        &self.tasks
    }

    /// Where the scheduler stands.
    pub fn phase(&self) -> (phase: Phase)
        ensures
            phase == self@.phase,
            self@.wf(),
    {
        proof {
            use_type_invariant(self);
        }
        self.phase
    }

    /// The action that is due.
    pub fn pending(&self) -> (action: Action)
        ensures
            action == self@.pending(),
            self@.wf(),
    {
        proof {
            use_type_invariant(self);
        }
        match self.phase {
            Phase::Resolving => Action::ResolveMachineIp,
            Phase::Querying { index, .. } => Action::QueryCurrent { index },
            Phase::Updating { index, machine_ip } => Action::Update { index, ip: machine_ip },
            Phase::Sleeping => Action::Sleep { seconds: self.interval_seconds },
            Phase::Stopped { clean } => Action::Exit { clean },
        }
    }

    /// The phase at the end of a cycle.
    fn cycle_end(&self, clean: bool) -> (phase: Phase)
        ensures
            phase == self@.cycle_end(clean),
    {
        if self.run_once {
            Phase::Stopped { clean }
        } else {
            Phase::Sleeping
        }
    }

    /// The phase in which the task `index` gets its turn, or the end of the
    /// cycle where there is no such task.
    fn turn_of(&self, index: usize, machine_ip: Ipv4Address) -> (phase: Phase)
        ensures
            phase == self@.turn_of(index as int, machine_ip),
            self@.at(phase).wf(),
    {
        if index < self.tasks.len() {
            Phase::Querying { index, machine_ip }
        } else {
            self.cycle_end(true)
        }
    }

    /// The phase that follows the turn of the task `index`: the turn of the
    /// next task, or the end of the cycle after the last.
    fn turn_after(&self, index: usize, machine_ip: Ipv4Address) -> (phase: Phase)
        requires
            index < self@.tasks.len(),
        ensures
            phase == self@.turn_of(index + 1, machine_ip),
            self@.at(phase).wf(),
    {
        let count = self.tasks.len();
        if index + 1 < count {
            Phase::Querying { index: index + 1, machine_ip }
        } else {
            self.cycle_end(true)
        }
    }

    /// Takes in what came of the action that was due, moves on, and reports
    /// what was learnt. The action that is due afterwards is
    /// [`pending`](Self::pending).
    pub fn step(&mut self, event: Event) -> (report: Report)
        ensures
            (final(self)@, report) == old(self)@.step(event),
            old(self)@.wf(),
            final(self)@.wf(),
    {
        proof {
            use_type_invariant(&*self);
        }
        match (self.phase, event) {
            (Phase::Resolving, Event::MachineIp(lookup)) => match machine_ip(lookup) {
                Ok(ip) => {
                    self.phase = self.turn_of(0, ip);
                    Report::MachineIp(ip)
                },
                Err(error) => {
                    self.phase = self.cycle_end(false);
                    Report::CycleFailed(error)
                },
            },
            (Phase::Querying { index, machine_ip }, Event::Current(current)) => {
                let published = match &current {
                    Ok(published) => *published,
                    Err(_) => machine_ip,
                };
                match decide(machine_ip, current) {
                    Decision::Settled(outcome) => {
                        self.phase = self.turn_after(index, machine_ip);
                        Report::Outcome { index, outcome }
                    },
                    Decision::Publish(_) => {
                        self.phase = Phase::Updating { index, machine_ip };
                        Report::Drift { index, published, machine_ip }
                    },
                }
            },
            (Phase::Updating { index, machine_ip }, Event::Updated(updated)) => {
                self.phase = self.turn_after(index, machine_ip);
                Report::Outcome { index, outcome: conclude(updated) }
            },
            (Phase::Sleeping, Event::Woke) => {
                self.phase = Phase::Resolving;
                Report::CycleStarted
            },
            _ => Report::Ignored,
        }
    }
}

/// A step changes neither the tasks nor the settings, and leaves a scheduler
/// whose task at work is one of its tasks in such a state.
pub proof fn lemma_step_keeps_tasks(scheduler: SchedulerView, event: Event)
    requires
        scheduler.wf(),
    ensures
        scheduler.step(event).0.wf(),
        scheduler.step(event).0.tasks == scheduler.tasks,
        scheduler.step(event).0.interval_seconds == scheduler.interval_seconds,
        scheduler.step(event).0.run_once == scheduler.run_once,
{
}

/// A task whose provider publishes the machine's address is reported as up
/// to date, and the action that follows is no update.
pub proof fn lemma_step_same_address(scheduler: SchedulerView, index: usize, machine_ip: Ipv4Address)
    requires
        scheduler.wf(),
        scheduler.phase == (Phase::Querying { index, machine_ip }),
    ensures
        scheduler.step(Event::Current(Ok(machine_ip))).1 == (Report::Outcome {
            index,
            outcome: ReconcileOutcome::UpToDate,
        }),
        !(scheduler.step(Event::Current(Ok(machine_ip))).0.pending() is Update),
{
}

/// A task whose provider publishes another address than the machine's gets
/// one update, to the machine's address: the update is the action that
/// follows the answer; whatever comes of it is the task's outcome; and the
/// action after that is the next task's query or the end of the cycle.
pub proof fn lemma_step_drift_updates_once(
    scheduler: SchedulerView,
    index: usize,
    machine_ip: Ipv4Address,
    published: Ipv4Address,
    updated: Result<(), ProviderUpdateError>,
)
    requires
        scheduler.wf(),
        scheduler.phase == (Phase::Querying { index, machine_ip }),
        published != machine_ip,
    ensures
        ({
            let (asked, drift) = scheduler.step(Event::Current(Ok(published)));
            let (settled, outcome) = asked.step(Event::Updated(updated));
            &&& drift == (Report::Drift { index, published, machine_ip })
            &&& asked.pending() == (Action::Update { index, ip: machine_ip })
            &&& outcome == (Report::Outcome { index, outcome: conclusion_of(updated) })
            &&& settled.phase == scheduler.turn_of(index + 1, machine_ip)
            &&& !(settled.pending() is Update)
        }),
{
}

/// An update is due after a step only where the step learnt that a task's
/// provider publishes another address than the machine's, or where the update
/// was due before and the event did not answer it.
pub proof fn lemma_update_only_on_drift(scheduler: SchedulerView, event: Event)
    requires
        scheduler.wf(),
        scheduler.step(event).0.pending() is Update,
    ensures
        ({
            let next = scheduler.step(event).0;
            ||| (scheduler.phase matches Phase::Querying { index, machine_ip } && event matches Event::Current(
                Ok(published),
            ) && published != machine_ip && next.pending() == (Action::Update {
                index,
                ip: machine_ip,
            }))
            ||| (scheduler.phase is Updating && !(event is Updated) && next == scheduler)
        }),
{
}

/// A task whose query failed is reported as failed and gets no update, and
/// the cycle goes on: the next task is asked, or, after the last task, the
/// scheduler sleeps or, if it runs once, stops cleanly.
pub proof fn lemma_failed_query_moves_on(
    scheduler: SchedulerView,
    index: usize,
    machine_ip: Ipv4Address,
    error: ProviderQueryError,
)
    requires
        scheduler.wf(),
        scheduler.phase == (Phase::Querying { index, machine_ip }),
    ensures
        ({
            let (next, report) = scheduler.step(Event::Current(Err(error)));
            &&& report == (Report::Outcome { index, outcome: ReconcileOutcome::QueryFailed(error) })
            &&& index + 1 < scheduler.tasks.len() ==> next.pending() == (Action::QueryCurrent {
                index: (index + 1) as usize,
            })
            &&& index + 1 == scheduler.tasks.len() && !scheduler.run_once ==> next.pending() == (
            Action::Sleep { seconds: scheduler.interval_seconds })
            &&& index + 1 == scheduler.tasks.len() && scheduler.run_once ==> next.pending() == (
            Action::Exit { clean: true })
        }),
{
}

/// A task whose update failed is reported as failed, and the cycle goes on
/// as after any other task.
pub proof fn lemma_failed_update_moves_on(
    scheduler: SchedulerView,
    index: usize,
    machine_ip: Ipv4Address,
    error: ProviderUpdateError,
)
    requires
        scheduler.wf(),
        scheduler.phase == (Phase::Updating { index, machine_ip }),
    ensures
        ({
            let (next, report) = scheduler.step(Event::Updated(Err(error)));
            &&& report == (Report::Outcome { index, outcome: ReconcileOutcome::UpdateFailed(error) })
            &&& next.phase == scheduler.turn_of(index + 1, machine_ip)
            &&& index + 1 < scheduler.tasks.len() ==> next.pending() == (Action::QueryCurrent {
                index: (index + 1) as usize,
            })
        }),
{
}

/// A cycle that cannot learn the machine's address reconciles no task: a
/// scheduler that runs once stops with failure, any other sleeps until the
/// next cycle.
pub proof fn lemma_failed_resolution_skips_cycle(
    scheduler: SchedulerView,
    lookup: Result<Vec<Ipv4Address>, String>,
)
    requires
        scheduler.phase == Phase::Resolving,
        machine_ip_of(lookup) is Err,
    ensures
        ({
            let (next, report) = scheduler.step(Event::MachineIp(lookup));
            &&& report == Report::CycleFailed(machine_ip_of(lookup)->Err_0)
            &&& scheduler.run_once ==> next.pending() == (Action::Exit { clean: false })
            &&& !scheduler.run_once ==> next.pending() == (Action::Sleep {
                seconds: scheduler.interval_seconds,
            })
        }),
{
}

/// The machine address that a scheduler holds its tasks against, if it is
/// working on one.
pub open spec fn address_at_work(phase: Phase) -> Option<Ipv4Address> {
    match phase {
        Phase::Querying { machine_ip, .. } => Some(machine_ip),
        Phase::Updating { machine_ip, .. } => Some(machine_ip),
        _ => None,
    }
}

/// All tasks of one cycle are held against the same machine address: a step
/// from one task's turn to the next, or from a task's query to its update,
/// keeps the address.
pub proof fn lemma_cycle_keeps_machine_ip(scheduler: SchedulerView, event: Event)
    requires
        scheduler.wf(),
        address_at_work(scheduler.phase) is Some,
        address_at_work(scheduler.step(event).0.phase) is Some,
    ensures
        address_at_work(scheduler.step(event).0.phase) == address_at_work(scheduler.phase),
{
}

/// The task that a scheduler is working on, if it is working on one.
pub open spec fn task_at_work(phase: Phase) -> Option<usize> {
    match phase {
        Phase::Querying { index, .. } => Some(index),
        Phase::Updating { index, .. } => Some(index),
        _ => None,
    }
}

/// Within a cycle the tasks get their turn in their order, each once: a step
/// goes on to the next task, or stays with a task to update it, or changes
/// nothing; it never goes back.
pub proof fn lemma_turns_go_forward(scheduler: SchedulerView, event: Event)
    requires
        scheduler.wf(),
        task_at_work(scheduler.phase) is Some,
        task_at_work(scheduler.step(event).0.phase) is Some,
    ensures
        ({
            let next = scheduler.step(event).0;
            let i = task_at_work(scheduler.phase)->Some_0;
            let j = task_at_work(next.phase)->Some_0;
            ||| (j == i + 1 && next.phase is Querying)
            ||| (j == i && scheduler.phase is Querying && next.phase is Updating)
            ||| next == scheduler
        }),
{
}

/// A scheduler that does not run once never stops.
pub proof fn lemma_steady_never_stops(scheduler: SchedulerView, event: Event)
    requires
        !scheduler.run_once,
        !(scheduler.phase is Stopped),
    ensures
        !(scheduler.step(event).0.phase is Stopped),
{
}

/// A scheduler that runs once stops after its one cycle and stays stopped:
/// it never sleeps, and once stopped no event moves it.
pub proof fn lemma_run_once_stops(scheduler: SchedulerView, event: Event)
    requires
        scheduler.run_once,
        !(scheduler.phase is Sleeping),
    ensures
        !(scheduler.step(event).0.phase is Sleeping),
        scheduler.phase is Stopped ==> scheduler.step(event) == (scheduler, Report::Ignored),
{
}

} // verus!

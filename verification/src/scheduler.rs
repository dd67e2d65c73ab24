//! The scheduler: one collection cycle, then a fixed pause, for ever.
//!
//! Like a cycle, the scheduler is a machine that decides while its driver
//! acts. It has no final state. The pause is counted from the end of a cycle,
//! so a slow cycle delays the next one and none is skipped. A cycle that
//! failed is reported and followed by the same pause as any other.

use vstd::prelude::*;

verus! {

/// The pause between the end of one cycle and the start of the next.
pub const INTERVAL_SECONDS: u64 = 15;

/// What the scheduler's driver is to do next.
#[derive(Clone, Copy, Debug, PartialEq, Eq, Structural)]
pub enum Task {
    /// Print the time at which a cycle starts.
    Announce,
    /// Run one collection cycle to its end.
    RunCycle,
    /// Print the error that ended the cycle.
    Report,
    /// Sleep for so many seconds.
    Sleep(u64),
}

/// The state of the scheduler: the task that the driver has been given and
/// has not yet answered.
#[derive(Clone, Copy, Debug, PartialEq, Eq, Structural)]
pub struct Scheduler {
    pub pending: Task,
}

impl Scheduler {
    /// The scheduler starts by announcing its first cycle.
    pub open spec fn initial() -> Scheduler {
        Scheduler { pending: Task::Announce }
    }

    /// The state after the driver has done the pending task. Only the answer
    /// to a cycle matters: whether it ended without an error.
    pub open spec fn step(self, succeeded: bool) -> Scheduler {
        match self.pending {
            Task::Announce => Scheduler { pending: Task::RunCycle },
            Task::RunCycle => Scheduler {
                pending: if succeeded {
                    Task::Sleep(INTERVAL_SECONDS)
                } else {
                    Task::Report
                },
            },
            Task::Report => Scheduler { pending: Task::Sleep(INTERVAL_SECONDS) },
            Task::Sleep(_) => Scheduler { pending: Task::Announce },
        }
    }

    /// A new scheduler, which announces its first cycle.
    pub fn start() -> (scheduler: Scheduler)
        ensures
            scheduler == Scheduler::initial(),
    {
        Scheduler { pending: Task::Announce }
    }

    /// The task that the driver is to do now.
    pub fn pending(&self) -> (task: Task)
        ensures
            task == self.pending,
    {
        self.pending
    }

    /// Takes the driver's answer to the pending task and chooses the next.
    pub fn complete(&mut self, succeeded: bool)
        ensures
            *final(self) == old(self).step(succeeded),
    {
        self.pending = match self.pending {
            Task::Announce => Task::RunCycle,
            Task::RunCycle => if succeeded {
                Task::Sleep(INTERVAL_SECONDS)
            } else {
                Task::Report
            },
            Task::Report => Task::Sleep(INTERVAL_SECONDS),
            Task::Sleep(_) => Task::Announce,
        };
    }
}

/// The state of the scheduler after `n` answers, where `answers(k)` is the
/// answer to the task that is pending after `k` answers.
pub open spec fn run(answers: spec_fn(nat) -> bool, n: nat) -> Scheduler
    decreases n,
{
    if n == 0 {
        Scheduler::initial()
    } else {
        run(answers, (n - 1) as nat).step(answers((n - 1) as nat))
    }
}

/// The number of cycles that have been run to their end within the first
/// `n` answers.
pub open spec fn cycles_run(answers: spec_fn(nat) -> bool, n: nat) -> nat
    decreases n,
{
    if n == 0 {
        0
    } else {
        let earlier = cycles_run(answers, (n - 1) as nat);
        if run(answers, (n - 1) as nat).pending is RunCycle {
            earlier + 1
        } else {
            earlier
        }
    }
}

/// The seconds that have been slept within the first `n` answers.
pub open spec fn seconds_slept(answers: spec_fn(nat) -> bool, n: nat) -> nat
    decreases n,
{
    if n == 0 {
        0
    } else {
        let earlier = seconds_slept(answers, (n - 1) as nat);
        match run(answers, (n - 1) as nat).pending {
            Task::Sleep(seconds) => earlier + seconds as nat,
            _ => earlier,
        }
    }
}

/// One pause of fifteen seconds lies between the end of each cycle and the
/// start of the next: whenever a cycle is about to start, every cycle before
/// it has been followed by its full pause, and while the scheduler reports or
/// sleeps, only the pause of the cycle that has just ended is outstanding.
pub proof fn one_cycle_per_interval(answers: spec_fn(nat) -> bool, n: nat)
    ensures
        match run(answers, n).pending {
            Task::Announce => seconds_slept(answers, n) == INTERVAL_SECONDS * cycles_run(answers, n),
            Task::RunCycle => seconds_slept(answers, n) == INTERVAL_SECONDS * cycles_run(answers, n),
            Task::Report => seconds_slept(answers, n) + INTERVAL_SECONDS == INTERVAL_SECONDS
                * cycles_run(answers, n),
            Task::Sleep(seconds) => seconds == INTERVAL_SECONDS && seconds_slept(answers, n)
                + INTERVAL_SECONDS == INTERVAL_SECONDS * cycles_run(answers, n),
        },
    decreases n,
{
    if n > 0 {
        one_cycle_per_interval(answers, (n - 1) as nat);
    }
}

/// The scheduler never comes to rest: whatever the cycles' outcomes, another
/// cycle is started within four answers.
pub proof fn another_cycle_always_follows(answers: spec_fn(nat) -> bool, n: nat)
    ensures
        run(answers, n).pending is RunCycle || run(answers, n + 1).pending is RunCycle || run(
            answers,
            n + 2,
        ).pending is RunCycle || run(answers, n + 3).pending is RunCycle,
{
    assert(run(answers, n + 1) == run(answers, n).step(answers(n)));
    assert(run(answers, n + 2) == run(answers, n + 1).step(answers(n + 1)));
    assert(run(answers, n + 3) == run(answers, n + 2).step(answers(n + 2)));
}

/// A cycle that failed changes nothing but the report: the pause that
/// follows it and the cycle after that come as after any other.
pub proof fn failed_cycle_is_reported_and_followed(answers: spec_fn(nat) -> bool, n: nat)
    requires
        run(answers, n).pending is RunCycle,
        !answers(n),
    ensures
        run(answers, n + 1).pending == Task::Report,
        run(answers, n + 2).pending == Task::Sleep(INTERVAL_SECONDS),
        run(answers, n + 3).pending == Task::Announce,
        run(answers, n + 4).pending == Task::RunCycle,
{
    assert(run(answers, n + 1) == run(answers, n).step(answers(n)));
    assert(run(answers, n + 2) == run(answers, n + 1).step(answers(n + 1)));
    assert(run(answers, n + 3) == run(answers, n + 2).step(answers(n + 2)));
    assert(run(answers, n + 4) == run(answers, n + 3).step(answers(n + 3)));
}

} // verus!

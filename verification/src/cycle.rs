//! One collection cycle as a state machine.
//!
//! The machine decides; its driver acts. The driver reads the pending action,
//! performs it (a device query, reading the sink configuration, a write to the
//! sink, a line on the console) and reports whether it succeeded. From that
//! the machine chooses the next action. All seven categories are fetched
//! first, in order and whatever each fetch gave. Then the sink configuration
//! is read; without it the cycle is abandoned. Then each category is settled
//! in order: a fetched record is written to the sink as a batch of its own, a
//! failed fetch is reported, and so is a failed write. Nothing but a missing
//! configuration makes a cycle fail.

use vstd::prelude::*;
use crate::category::Category;

verus! {

/// What went wrong for one category.
#[derive(Clone, Copy, Debug, PartialEq, Eq, Structural)]
pub enum Failure {
    /// The device gave no usable response.
    Fetch,
    /// The sink did not take the record.
    Write,
}

/// A failure of one category that the driver is to put on the console.
#[derive(Clone, Copy, Debug, PartialEq, Eq, Structural)]
pub struct Diagnostic {
    pub failure: Failure,
    pub category: Category,
}

/// Why a whole cycle was abandoned.
#[derive(Clone, Copy, Debug, PartialEq, Eq, Structural)]
pub enum CycleError {
    /// The sink configuration is missing, or no sink could be made from it.
    Configuration,
}

/// What the driver is to do next.
#[derive(Clone, Copy, Debug, PartialEq, Eq, Structural)]
pub enum Action {
    /// Query the device for the category and map the response to a record.
    Fetch(Category),
    /// Read the sink configuration and make the sink client.
    Configure,
    /// Send the category's record to the sink, as a batch of one.
    Write(Category),
    /// Print the diagnostic.
    Report(Diagnostic),
    /// The cycle is over and has not failed.
    Complete,
    /// The cycle is over and has failed as a whole.
    Abort(CycleError),
}

/// A yes or no for each category; a cycle keeps one to remember which
/// categories' fetches produced a record.
#[derive(Clone, Copy, Debug, PartialEq, Eq, Structural)]
pub struct Flags {
    pub inverter: bool,
    pub inverter_phase: bool,
    pub inverter_info: bool,
    pub meter: bool,
    pub storage: bool,
    pub ohm_pilot: bool,
    pub power_flow: bool,
}

impl Flags {
    /// No for every category.
    pub open spec fn empty() -> Flags {
        Flags {
            inverter: false,
            inverter_phase: false,
            inverter_info: false,
            meter: false,
            storage: false,
            ohm_pilot: false,
            power_flow: false,
        }
    }

    /// The entry of one category.
    pub open spec fn has(self, category: Category) -> bool {
        match category {
            Category::Inverter => self.inverter,
            Category::InverterPhase => self.inverter_phase,
            Category::InverterInfo => self.inverter_info,
            Category::Meter => self.meter,
            Category::Storage => self.storage,
            Category::OhmPilot => self.ohm_pilot,
            Category::PowerFlow => self.power_flow,
        }
    }

    /// The flags with the entry of one category replaced.
    pub open spec fn with(self, category: Category, fetched: bool) -> Flags {
        match category {
            Category::Inverter => Flags { inverter: fetched, ..self },
            Category::InverterPhase => Flags { inverter_phase: fetched, ..self },
            Category::InverterInfo => Flags { inverter_info: fetched, ..self },
            Category::Meter => Flags { meter: fetched, ..self },
            Category::Storage => Flags { storage: fetched, ..self },
            Category::OhmPilot => Flags { ohm_pilot: fetched, ..self },
            Category::PowerFlow => Flags { power_flow: fetched, ..self },
        }
    }

    /// The entries of the categories that come before `category` in a
    /// cycle, and no for all others.
    pub open spec fn before(self, category: Category) -> Flags {
        Flags {
            inverter: self.inverter && category.index() > 0,
            inverter_phase: self.inverter_phase && category.index() > 1,
            inverter_info: self.inverter_info && category.index() > 2,
            meter: self.meter && category.index() > 3,
            storage: self.storage && category.index() > 4,
            ohm_pilot: self.ohm_pilot && category.index() > 5,
            power_flow: false,
        }
    }

    /// No for every category.
    pub fn new() -> (h: Flags)
        ensures
            h == Flags::empty(),
    {
        Flags {
            inverter: false,
            inverter_phase: false,
            inverter_info: false,
            meter: false,
            storage: false,
            ohm_pilot: false,
            power_flow: false,
        }
    }

    /// The entry of one category.
    pub fn contains(&self, category: Category) -> (fetched: bool)
        ensures
            fetched == self.has(category),
    {
        match category {
            Category::Inverter => self.inverter,
            Category::InverterPhase => self.inverter_phase,
            Category::InverterInfo => self.inverter_info,
            Category::Meter => self.meter,
            Category::Storage => self.storage,
            Category::OhmPilot => self.ohm_pilot,
            Category::PowerFlow => self.power_flow,
        }
    }

    /// Replaces the entry of one category and leaves the others.
    pub fn record(&mut self, category: Category, fetched: bool)
        ensures
            *final(self) == old(self).with(category, fetched),
    {
        match category {
            Category::Inverter => {
                self.inverter = fetched;
            },
            Category::InverterPhase => {
                self.inverter_phase = fetched;
            },
            Category::InverterInfo => {
                self.inverter_info = fetched;
            },
            Category::Meter => {
                self.meter = fetched;
            },
            Category::Storage => {
                self.storage = fetched;
            },
            Category::OhmPilot => {
                self.ohm_pilot = fetched;
            },
            Category::PowerFlow => {
                self.power_flow = fetched;
            },
        }
    }
}

/// The action that settles the categories from `next` on: a write for a
/// category with a record, a report for one without, and the end of the cycle
/// when none is left.
pub open spec fn settle_from(harvest: Flags, next: Option<Category>) -> Action {
    match next {
        None => Action::Complete,
        Some(category) => if harvest.has(category) {
            Action::Write(category)
        } else {
            Action::Report(Diagnostic { failure: Failure::Fetch, category })
        },
    }
}

/// The state of a cycle: what was harvested so far, and the action that the
/// driver has been asked to perform and has not yet answered.
#[derive(Clone, Copy, Debug, PartialEq, Eq, Structural)]
pub struct Cycle {
    pub harvest: Flags,
    pub pending: Action,
}

impl Cycle {
    /// A cycle begins with nothing harvested, by fetching the first category.
    pub open spec fn initial() -> Cycle {
        Cycle { harvest: Flags::empty(), pending: Action::Fetch(Category::Inverter) }
    }

    /// The state after the driver has answered the pending action.
    pub open spec fn step(self, succeeded: bool) -> Cycle {
        match self.pending {
            Action::Fetch(category) => Cycle {
                harvest: self.harvest.with(category, succeeded),
                pending: match category.following() {
                    Some(next) => Action::Fetch(next),
                    None => Action::Configure,
                },
            },
            Action::Configure => Cycle {
                harvest: self.harvest,
                pending: if succeeded {
                    settle_from(self.harvest, Some(Category::Inverter))
                } else {
                    Action::Abort(CycleError::Configuration)
                },
            },
            Action::Write(category) => Cycle {
                harvest: self.harvest,
                pending: if succeeded {
                    settle_from(self.harvest, category.following())
                } else {
                    Action::Report(Diagnostic { failure: Failure::Write, category })
                },
            },
            Action::Report(diagnostic) => Cycle {
                harvest: self.harvest,
                pending: settle_from(self.harvest, diagnostic.category.following()),
            },
            Action::Complete => self,
            Action::Abort(_) => self,
        }
    }

    /// Whether the cycle is over.
    pub open spec fn finished(self) -> bool {
        self.pending is Complete || self.pending is Abort
    }

    /// What the cycle hands to the scheduler: nothing while it runs, then
    /// success or the error that ended it.
    pub open spec fn verdict(self) -> Option<Result<(), CycleError>> {
        match self.pending {
            Action::Complete => Some(Ok(())),
            Action::Abort(error) => Some(Err(error)),
            _ => None,
        }
    }

    /// A new cycle, which asks for the first fetch.
    pub fn start() -> (cycle: Cycle)
        ensures
            cycle == Cycle::initial(),
    {
        Cycle { harvest: Flags::new(), pending: Action::Fetch(Category::Inverter) }
    }

    /// The action that the driver is to perform now.
    pub fn pending(&self) -> (action: Action)
        ensures
            action == self.pending,
    {
        self.pending
    }

    /// Whether the cycle is over.
    pub fn is_finished(&self) -> (over: bool)
        ensures
            over == self.finished(),
    {
        match self.pending {
            Action::Complete => true,
            Action::Abort(_) => true,
            _ => false,
        }
    }

    /// What the cycle hands to the scheduler, once it is over.
    pub fn result(&self) -> (verdict: Option<Result<(), CycleError>>)
        ensures
            verdict == self.verdict(),
    {
        match self.pending {
            Action::Complete => Some(Ok(())),
            Action::Abort(error) => Some(Err(error)),
            _ => None,
        }
    }

    fn settle(&self, next: Option<Category>) -> (action: Action)
        ensures
            action == settle_from(self.harvest, next),
    {
        match next {
            None => Action::Complete,
            Some(category) => if self.harvest.contains(category) {
                Action::Write(category)
            } else {
                Action::Report(Diagnostic { failure: Failure::Fetch, category })
            },
        }
    }

    /// Takes the driver's answer to the pending action and chooses the next
    /// one. A finished cycle stays as it is.
    pub fn complete(&mut self, succeeded: bool)
        ensures
            *final(self) == old(self).step(succeeded),
    {
        match self.pending {
            Action::Fetch(category) => {
                self.harvest.record(category, succeeded);
                self.pending = match category.next() {
                    Some(next) => Action::Fetch(next),
                    None => Action::Configure,
                };
            },
            Action::Configure => {
                self.pending = if succeeded {
                    self.settle(Some(Category::Inverter))
                } else {
                    Action::Abort(CycleError::Configuration)
                };
            },
            Action::Write(category) => {
                self.pending = if succeeded {
                    self.settle(category.next())
                } else {
                    Action::Report(Diagnostic { failure: Failure::Write, category })
                };
            },
            Action::Report(diagnostic) => {
                self.pending = self.settle(diagnostic.category.next());
            },
            Action::Complete => {},
            Action::Abort(_) => {},
        }
    }
}

} // verus!

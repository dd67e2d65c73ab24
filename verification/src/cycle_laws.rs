//! What holds of every collection cycle, whatever the device, the
//! configuration and the sink do.
//!
//! A run of the machine is fixed by the answers it gets. `Conditions` names
//! them: which fetches succeed, whether the sink configuration is there, and
//! which writes the sink takes. `run` is the state after a number of answers.

use vstd::prelude::*;
use crate::category::Category;
use crate::cycle::{Action, Cycle, CycleError, Diagnostic, Failure, Flags, settle_from};

verus! {

/// What a cycle meets outside the machine.
pub struct Conditions {
    /// The categories whose fetch gives a record.
    pub fetch: Flags,
    /// Whether the sink configuration can be read and a sink made from it.
    pub configured: bool,
    /// The categories whose record the sink would take.
    pub write: Flags,
}

impl Conditions {
    /// The answer that the driver gives to an action. Printing a diagnostic
    /// cannot fail.
    pub open spec fn answer(self, action: Action) -> bool {
        match action {
            Action::Fetch(category) => self.fetch.has(category),
            Action::Configure => self.configured,
            Action::Write(category) => self.write.has(category),
            _ => true,
        }
    }

    /// The number of answers that settling one category takes: one for the
    /// write or for the report of a failed fetch, and one more for the report
    /// of a failed write.
    pub open spec fn answers_for(self, category: Category) -> nat {
        if self.fetch.has(category) && !self.write.has(category) {
            2
        } else {
            1
        }
    }

    /// The answers that `category` takes if it comes before place `place`,
    /// else none.
    pub open spec fn answers_before(self, category: Category, place: nat) -> nat {
        if category.index() < place {
            self.answers_for(category)
        } else {
            0
        }
    }

    /// The number of answers after which the category at place `place` is
    /// settled, in a cycle that has its configuration: seven fetches, the
    /// configuration, and what the categories before it took.
    pub open spec fn turn_at(self, place: nat) -> nat {
        8 + self.answers_before(Category::Inverter, place) + self.answers_before(
            Category::InverterPhase,
            place,
        ) + self.answers_before(Category::InverterInfo, place) + self.answers_before(
            Category::Meter,
            place,
        ) + self.answers_before(Category::Storage, place) + self.answers_before(
            Category::OhmPilot,
            place,
        ) + self.answers_before(Category::PowerFlow, place)
    }

    /// The number of answers after which `category` is settled.
    pub open spec fn turn(self, category: Category) -> nat {
        self.turn_at(category.index())
    }

    /// The number of answers after which a cycle with its configuration is
    /// over.
    pub open spec fn length(self) -> nat {
        self.turn_at(7)
    }
}

/// The state of a cycle after `n` answers under the given conditions.
pub open spec fn run(conditions: Conditions, n: nat) -> Cycle
    decreases n,
{
    if n == 0 {
        Cycle::initial()
    } else {
        let earlier = run(conditions, (n - 1) as nat);
        earlier.step(conditions.answer(earlier.pending))
    }
}

/// What can be said of the state after `n` answers from its pending action
/// alone: how far the cycle is, what it has harvested, and what the
/// conditions must have been.
pub open spec fn accounts_for(conditions: Conditions, n: nat, state: Cycle) -> bool {
    match state.pending {
        Action::Fetch(category) => {
            &&& n == category.index()
            &&& state.harvest == conditions.fetch.before(category)
        },
        Action::Configure => {
            &&& n == 7
            &&& state.harvest == conditions.fetch
        },
        Action::Write(category) => {
            &&& conditions.configured
            &&& state.harvest == conditions.fetch
            &&& conditions.fetch.has(category)
            &&& n == conditions.turn(category)
        },
        Action::Report(Diagnostic { failure: Failure::Fetch, category }) => {
            &&& conditions.configured
            &&& state.harvest == conditions.fetch
            &&& !conditions.fetch.has(category)
            &&& n == conditions.turn(category)
        },
        Action::Report(Diagnostic { failure: Failure::Write, category }) => {
            &&& conditions.configured
            &&& state.harvest == conditions.fetch
            &&& conditions.fetch.has(category)
            &&& !conditions.write.has(category)
            &&& n == conditions.turn(category) + 1
        },
        Action::Complete => {
            &&& conditions.configured
            &&& state.harvest == conditions.fetch
            &&& n >= conditions.length()
        },
        Action::Abort(error) => {
            &&& !conditions.configured
            &&& error == CycleError::Configuration
            &&& state.harvest == conditions.fetch
            &&& n >= 8
        },
    }
}

/// The turn of a category's successor comes as many answers after its own
/// turn as the category takes; after the last category the cycle is over.
pub proof fn turns_follow_each_other(conditions: Conditions, category: Category)
    ensures
        match category.following() {
            Some(next) => conditions.turn(next) == conditions.turn(category)
                + conditions.answers_for(category),
            None => conditions.length() == conditions.turn(category) + conditions.answers_for(
                category,
            ),
        },
{
}

proof fn settling_is_accounted_for(conditions: Conditions, n: nat, next: Option<Category>)
    requires
        conditions.configured,
        match next {
            Some(category) => n == conditions.turn(category),
            None => n >= conditions.length(),
        },
    ensures
        accounts_for(
            conditions,
            n,
            Cycle { harvest: conditions.fetch, pending: settle_from(conditions.fetch, next) },
        ),
{
}

proof fn step_is_accounted_for(conditions: Conditions, n: nat, state: Cycle)
    requires
        accounts_for(conditions, n, state),
    ensures
        accounts_for(conditions, n + 1, state.step(conditions.answer(state.pending))),
{
    let after = state.step(conditions.answer(state.pending));
    match state.pending {
        Action::Fetch(category) => {
            assert(state.harvest.with(category, conditions.fetch.has(category)) == match category.following() {
                Some(next) => conditions.fetch.before(next),
                None => conditions.fetch,
            });
        },
        Action::Configure => {
            if conditions.configured {
                assert(conditions.turn(Category::Inverter) == 8);
                settling_is_accounted_for(conditions, n + 1, Some(Category::Inverter));
            }
        },
        Action::Write(category) => {
            turns_follow_each_other(conditions, category);
            if conditions.write.has(category) {
                settling_is_accounted_for(conditions, n + 1, category.following());
            }
        },
        Action::Report(diagnostic) => {
            turns_follow_each_other(conditions, diagnostic.category);
            settling_is_accounted_for(conditions, n + 1, diagnostic.category.following());
        },
        Action::Complete => {},
        Action::Abort(_) => {},
    }
}

/// Every state of every run is accounted for.
pub proof fn run_is_accounted_for(conditions: Conditions, n: nat)
    ensures
        accounts_for(conditions, n, run(conditions, n)),
    decreases n,
{
    if n > 0 {
        let earlier = run(conditions, (n - 1) as nat);
        run_is_accounted_for(conditions, (n - 1) as nat);
        step_is_accounted_for(conditions, (n - 1) as nat, earlier);
    }
}

/// The first seven actions of a cycle are the fetches of the seven
/// categories, in order, whatever the earlier fetches gave.
pub proof fn every_category_is_fetched(conditions: Conditions, category: Category)
    ensures
        run(conditions, category.index()).pending == Action::Fetch(category),
        run(conditions, category.index()).harvest == conditions.fetch.before(category),
    decreases category.index(),
{
    match category.preceding() {
        Some(earlier) => {
            every_category_is_fetched(conditions, earlier);
            assert(category.index() == earlier.index() + 1);
        },
        None => {},
    }
}

/// After the seven fetches the cycle holds exactly what was fetched and
/// asks for the sink configuration.
pub proof fn configuration_follows_the_fetches(conditions: Conditions)
    ensures
        run(conditions, 7) == (Cycle { harvest: conditions.fetch, pending: Action::Configure }),
{
    every_category_is_fetched(conditions, Category::PowerFlow);
    assert(run(conditions, 7) == run(conditions, 6).step(
        conditions.answer(run(conditions, 6).pending),
    ));
}

/// The sink configuration is asked for once in a cycle, after the last
/// fetch and before the first write.
pub proof fn configuration_is_read_once(conditions: Conditions, n: nat)
    requires
        run(conditions, n).pending == Action::Configure,
    ensures
        n == 7,
{
    run_is_accounted_for(conditions, n);
}

/// Without its configuration a cycle ends at once, with the configuration
/// error, and stays so.
pub proof fn missing_configuration_aborts(conditions: Conditions, n: nat)
    requires
        !conditions.configured,
        n >= 8,
    ensures
        run(conditions, n).verdict() == Some(Err::<(), CycleError>(CycleError::Configuration)),
    decreases n,
{
    if n == 8 {
        configuration_follows_the_fetches(conditions);
        assert(run(conditions, 8) == run(conditions, 7).step(
            conditions.answer(run(conditions, 7).pending),
        ));
    } else {
        missing_configuration_aborts(conditions, (n - 1) as nat);
    }
}

/// In a cycle with its configuration, each category is settled at its turn:
/// its record is written if it was fetched, and the failed fetch is reported
/// if not. What the other categories gave changes the turn and nothing else.
pub proof fn every_category_is_settled(conditions: Conditions, category: Category)
    requires
        conditions.configured,
    ensures
        run(conditions, conditions.turn(category)) == (Cycle {
            harvest: conditions.fetch,
            pending: settle_from(conditions.fetch, Some(category)),
        }),
    decreases category.index(),
{
    match category.preceding() {
        None => {
            configuration_follows_the_fetches(conditions);
            assert(conditions.turn(category) == 8);
            assert(run(conditions, 8) == run(conditions, 7).step(
                conditions.answer(run(conditions, 7).pending),
            ));
        },
        Some(earlier) => {
            every_category_is_settled(conditions, earlier);
            settling_moves_on(conditions, earlier);
            assert(conditions.turn(category) == conditions.turn(earlier) + conditions.answers_for(
                earlier,
            ));
        },
    }
}

/// Once a category has its turn, the cycle goes on to what follows it after
/// the answers that the category takes: neither a failed fetch nor a failed
/// write holds the cycle up.
pub proof fn settling_moves_on(conditions: Conditions, category: Category)
    requires
        conditions.configured,
        run(conditions, conditions.turn(category)) == (Cycle {
            harvest: conditions.fetch,
            pending: settle_from(conditions.fetch, Some(category)),
        }),
    ensures
        run(conditions, conditions.turn(category) + conditions.answers_for(category)) == (Cycle {
            harvest: conditions.fetch,
            pending: settle_from(conditions.fetch, category.following()),
        }),
{
    let at = conditions.turn(category);
    assert(run(conditions, at + 1) == run(conditions, at).step(
        conditions.answer(run(conditions, at).pending),
    ));
    assert(run(conditions, at + 2) == run(conditions, (at + 1) as nat).step(
        conditions.answer(run(conditions, (at + 1) as nat).pending),
    ));
}

/// A record that was fetched is written to the sink, whatever became of the
/// other six categories.
pub proof fn fetched_record_is_written(conditions: Conditions, category: Category)
    requires
        conditions.configured,
        conditions.fetch.has(category),
    ensures
        run(conditions, conditions.turn(category)).pending == Action::Write(category),
{
    every_category_is_settled(conditions, category);
}

/// A category is written at its own turn and at no other time: one write
/// for each fetched record, and none without a record or a configuration.
pub proof fn record_is_written_once(conditions: Conditions, category: Category, n: nat)
    requires
        run(conditions, n).pending == Action::Write(category),
    ensures
        conditions.configured,
        conditions.fetch.has(category),
        n == conditions.turn(category),
{
    run_is_accounted_for(conditions, n);
}

/// A fetch that failed is reported under its category when the category has
/// its turn.
pub proof fn failed_fetch_is_reported(conditions: Conditions, category: Category)
    requires
        conditions.configured,
        !conditions.fetch.has(category),
    ensures
        run(conditions, conditions.turn(category)).pending == Action::Report(
            Diagnostic { failure: Failure::Fetch, category },
        ),
{
    every_category_is_settled(conditions, category);
}

/// A write that failed is reported under its category, and the cycle then
/// goes on with the category that follows.
pub proof fn failed_write_is_reported(conditions: Conditions, category: Category)
    requires
        conditions.configured,
        conditions.fetch.has(category),
        !conditions.write.has(category),
    ensures
        run(conditions, conditions.turn(category) + 1).pending == Action::Report(
            Diagnostic { failure: Failure::Write, category },
        ),
        run(conditions, conditions.turn(category) + 2).pending == settle_from(
            conditions.fetch,
            category.following(),
        ),
{
    every_category_is_settled(conditions, category);
    settling_moves_on(conditions, category);
    let at = conditions.turn(category);
    assert(run(conditions, at + 1) == run(conditions, at).step(
        conditions.answer(run(conditions, at).pending),
    ));
}

/// A cycle with its configuration ends without an error, however many of
/// its fetches and writes failed, and be it all of them.
pub proof fn cycle_with_configuration_succeeds(conditions: Conditions, n: nat)
    requires
        conditions.configured,
        n >= conditions.length(),
    ensures
        run(conditions, n).verdict() == Some(Ok::<(), CycleError>(())),
    decreases n,
{
    if n == conditions.length() {
        every_category_is_settled(conditions, Category::PowerFlow);
        settling_moves_on(conditions, Category::PowerFlow);
        assert(conditions.length() == conditions.turn(Category::PowerFlow) + conditions.answers_for(
            Category::PowerFlow,
        ));
    } else {
        cycle_with_configuration_succeeds(conditions, (n - 1) as nat);
    }
}

/// A cycle fails as a whole only for want of its configuration.
pub proof fn only_configuration_fails_a_cycle(conditions: Conditions, n: nat)
    requires
        run(conditions, n).verdict() is Some,
        run(conditions, n).verdict() != Some(Ok::<(), CycleError>(())),
    ensures
        !conditions.configured,
        run(conditions, n).verdict() == Some(Err::<(), CycleError>(CycleError::Configuration)),
{
    run_is_accounted_for(conditions, n);
}

/// A cycle is over after at most twenty-two answers.
pub proof fn cycle_is_bounded(conditions: Conditions, n: nat)
    requires
        n >= 22,
    ensures
        run(conditions, n).finished(),
{
    if conditions.configured {
        cycle_with_configuration_succeeds(conditions, n);
    } else {
        missing_configuration_aborts(conditions, n);
    }
}

} // verus!

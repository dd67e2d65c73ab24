use solar_telemetry::category::Category;
use solar_telemetry::cycle::{Action, Cycle, CycleError, Diagnostic, Failure, Flags};
use solar_telemetry::diagnostic::cycle_failure_line;
use solar_telemetry::scheduler::{Scheduler, Task, INTERVAL_SECONDS};

const ALL: [Category; 7] = [
    Category::Inverter,
    Category::InverterPhase,
    Category::InverterInfo,
    Category::Meter,
    Category::Storage,
    Category::OhmPilot,
    Category::PowerFlow,
];

fn flags(yes: &[Category]) -> Flags {
    let mut made = Flags::new();
    for category in yes {
        made.record(*category, true);
    }
    made
}

/// Drives one cycle to its end and returns every action that was pending,
/// the last one too.
fn drive(fetch: Flags, configured: bool, write: Flags) -> (Vec<Action>, Cycle) {
    let mut cycle = Cycle::start();
    let mut actions = Vec::new();
    loop {
        let action = cycle.pending();
        actions.push(action);
        assert!(actions.len() <= 23);
        let answer = match action {
            Action::Fetch(category) => fetch.contains(category),
            Action::Configure => configured,
            Action::Write(category) => write.contains(category),
            Action::Report(_) => true,
            Action::Complete | Action::Abort(_) => return (actions, cycle),
        };
        cycle.complete(answer);
    }
}

fn fetches() -> Vec<Action> {
    ALL.iter().map(|c| Action::Fetch(*c)).collect()
}

fn fetch_failed(category: Category) -> Action {
    Action::Report(Diagnostic { failure: Failure::Fetch, category })
}

fn write_failed(category: Category) -> Action {
    Action::Report(Diagnostic { failure: Failure::Write, category })
}

#[test]
fn cycle_where_all_goes_well() {
    let (actions, cycle) = drive(flags(&ALL), true, flags(&ALL));
    let mut expected = fetches();
    expected.push(Action::Configure);
    expected.extend(ALL.iter().map(|c| Action::Write(*c)));
    expected.push(Action::Complete);
    assert_eq!(actions, expected);
    assert_eq!(cycle.result(), Some(Ok(())));
    assert!(cycle.is_finished());
    assert_eq!(cycle.harvest, flags(&ALL));
}

#[test]
fn cycle_starts_by_fetching() {
    let cycle = Cycle::start();
    assert_eq!(cycle.pending(), Action::Fetch(Category::Inverter));
    assert_eq!(cycle.harvest, Flags::new());
    assert_eq!(cycle.result(), None);
    assert!(!cycle.is_finished());
}

#[test]
fn one_failed_fetch_leaves_the_other_six() {
    for failing in ALL {
        let fetched: Vec<Category> = ALL.iter().copied().filter(|c| *c != failing).collect();
        let (actions, cycle) = drive(flags(&fetched), true, flags(&ALL));
        let mut expected = fetches();
        expected.push(Action::Configure);
        for category in ALL {
            if category == failing {
                expected.push(fetch_failed(category));
            } else {
                expected.push(Action::Write(category));
            }
        }
        expected.push(Action::Complete);
        assert_eq!(actions, expected);
        assert_eq!(cycle.result(), Some(Ok(())));
    }
}

#[test]
fn cycle_without_any_record_completes() {
    let (actions, cycle) = drive(flags(&[]), true, flags(&ALL));
    let mut expected = fetches();
    expected.push(Action::Configure);
    expected.extend(ALL.iter().map(|c| fetch_failed(*c)));
    expected.push(Action::Complete);
    assert_eq!(actions, expected);
    assert_eq!(cycle.result(), Some(Ok(())));
    assert!(!actions.iter().any(|a| matches!(a, Action::Write(_))));
}

#[test]
fn failed_meter_write_does_not_stop_the_rest() {
    let accepted = [
        Category::Inverter,
        Category::InverterPhase,
        Category::InverterInfo,
        Category::Storage,
        Category::OhmPilot,
        Category::PowerFlow,
    ];
    let (actions, cycle) = drive(flags(&ALL), true, flags(&accepted));
    let mut expected = fetches();
    expected.push(Action::Configure);
    expected.push(Action::Write(Category::Inverter));
    expected.push(Action::Write(Category::InverterPhase));
    expected.push(Action::Write(Category::InverterInfo));
    expected.push(Action::Write(Category::Meter));
    expected.push(write_failed(Category::Meter));
    expected.push(Action::Write(Category::Storage));
    expected.push(Action::Write(Category::OhmPilot));
    expected.push(Action::Write(Category::PowerFlow));
    expected.push(Action::Complete);
    assert_eq!(actions, expected);
    assert_eq!(cycle.result(), Some(Ok(())));
    let diagnostic = Diagnostic { failure: Failure::Write, category: Category::Meter };
    let line = diagnostic.line("transport error");
    assert!(line.contains("meter_data"));
    assert_eq!(line, "Error during influxdb write of meter_data occured: transport error");
}

#[test]
fn every_write_may_fail() {
    let (actions, cycle) = drive(flags(&ALL), true, flags(&[]));
    let mut expected = fetches();
    expected.push(Action::Configure);
    for category in ALL {
        expected.push(Action::Write(category));
        expected.push(write_failed(category));
    }
    expected.push(Action::Complete);
    assert_eq!(actions.len(), 23);
    assert_eq!(actions, expected);
    assert_eq!(cycle.result(), Some(Ok(())));
}

#[test]
fn mixed_failures_are_settled_in_order() {
    let fetched = [Category::Inverter, Category::Meter, Category::PowerFlow];
    let accepted = [Category::Meter, Category::InverterPhase];
    let (actions, cycle) = drive(flags(&fetched), true, flags(&accepted));
    let mut expected = fetches();
    expected.push(Action::Configure);
    expected.push(Action::Write(Category::Inverter));
    expected.push(write_failed(Category::Inverter));
    expected.push(fetch_failed(Category::InverterPhase));
    expected.push(fetch_failed(Category::InverterInfo));
    expected.push(Action::Write(Category::Meter));
    expected.push(fetch_failed(Category::Storage));
    expected.push(fetch_failed(Category::OhmPilot));
    expected.push(Action::Write(Category::PowerFlow));
    expected.push(write_failed(Category::PowerFlow));
    expected.push(Action::Complete);
    assert_eq!(actions, expected);
    assert_eq!(cycle.harvest, flags(&fetched));
    assert_eq!(cycle.result(), Some(Ok(())));
}

#[test]
fn missing_configuration_ends_the_cycle() {
    let (actions, cycle) = drive(flags(&ALL), false, flags(&ALL));
    let mut expected = fetches();
    expected.push(Action::Configure);
    expected.push(Action::Abort(CycleError::Configuration));
    assert_eq!(actions, expected);
    assert_eq!(cycle.result(), Some(Err(CycleError::Configuration)));
    assert!(cycle.is_finished());
}

#[test]
fn finished_cycle_stays_finished() {
    let (_, mut completed) = drive(flags(&ALL), true, flags(&ALL));
    let (_, mut aborted) = drive(flags(&[]), false, flags(&[]));
    let was_completed = completed;
    let was_aborted = aborted;
    completed.complete(false);
    completed.complete(true);
    aborted.complete(true);
    aborted.complete(false);
    assert_eq!(completed, was_completed);
    assert_eq!(aborted, was_aborted);
}

#[test]
fn flags_are_kept_by_category() {
    let mut made = Flags::new();
    for category in ALL {
        assert!(!made.contains(category));
    }
    made.record(Category::Storage, true);
    for category in ALL {
        assert_eq!(made.contains(category), category == Category::Storage);
    }
    made.record(Category::Storage, false);
    assert_eq!(made, Flags::new());
    assert_eq!(
        flags(&ALL),
        Flags {
            inverter: true,
            inverter_phase: true,
            inverter_info: true,
            meter: true,
            storage: true,
            ohm_pilot: true,
            power_flow: true,
        }
    );
}

#[test]
fn diagnostic_lines() {
    let fetch = Diagnostic { failure: Failure::Fetch, category: Category::Inverter };
    assert_eq!(
        fetch.line("Transport(\"timeout\")"),
        "Error during fetch of inverter_data occured: Transport(\"timeout\")"
    );
    let write = Diagnostic { failure: Failure::Write, category: Category::PowerFlow };
    assert_eq!(write.line(""), "Error during influxdb write of power_flow_data occured: ");
    assert_eq!(Failure::Fetch.opening(), "Error during fetch of ");
    assert_eq!(Failure::Write.opening(), "Error during influxdb write of ");
    assert_eq!(cycle_failure_line("NotPresent"), "Error during fetch occured: NotPresent");
    for category in ALL {
        let diagnostic = Diagnostic { failure: Failure::Fetch, category };
        assert_eq!(
            diagnostic.line("x"),
            format!("Error during fetch of {} occured: x", category.label())
        );
    }
}

#[test]
fn scheduler_round_after_a_good_cycle() {
    let mut scheduler = Scheduler::start();
    assert_eq!(scheduler.pending(), Task::Announce);
    scheduler.complete(true);
    assert_eq!(scheduler.pending(), Task::RunCycle);
    scheduler.complete(true);
    assert_eq!(scheduler.pending(), Task::Sleep(15));
    scheduler.complete(true);
    assert_eq!(scheduler.pending(), Task::Announce);
}

#[test]
fn scheduler_round_after_a_failed_cycle() {
    let mut scheduler = Scheduler::start();
    scheduler.complete(true);
    assert_eq!(scheduler.pending(), Task::RunCycle);
    scheduler.complete(false);
    assert_eq!(scheduler.pending(), Task::Report);
    scheduler.complete(true);
    assert_eq!(scheduler.pending(), Task::Sleep(INTERVAL_SECONDS));
    scheduler.complete(true);
    assert_eq!(scheduler.pending(), Task::Announce);
    scheduler.complete(true);
    assert_eq!(scheduler.pending(), Task::RunCycle);
}

#[test]
fn scheduler_only_heeds_the_answer_to_a_cycle() {
    let mut scheduler = Scheduler::start();
    scheduler.complete(false);
    assert_eq!(scheduler.pending(), Task::RunCycle);
    scheduler.complete(true);
    scheduler.complete(false);
    assert_eq!(scheduler.pending(), Task::Announce);
}

#[test]
fn scheduler_runs_one_cycle_for_each_pause() {
    let mut scheduler = Scheduler::start();
    let mut cycles: u64 = 0;
    let mut slept: u64 = 0;
    let mut reports: u64 = 0;
    let mut answers: u64 = 0;
    while cycles < 1000 || scheduler.pending() != Task::Announce {
        match scheduler.pending() {
            Task::Announce => {
                assert_eq!(slept, 15 * cycles);
                scheduler.complete(true);
            }
            Task::RunCycle => {
                cycles += 1;
                scheduler.complete(cycles % 3 != 0);
            }
            Task::Report => {
                reports += 1;
                scheduler.complete(true);
            }
            Task::Sleep(seconds) => {
                assert_eq!(seconds, 15);
                slept += seconds;
                scheduler.complete(true);
            }
        }
        answers += 1;
    }
    assert_eq!(cycles, 1000);
    assert_eq!(slept, 15_000);
    assert_eq!(reports, 333);
    assert_eq!(answers, 3 * 1000 + 333);
}

use adcs_scan::coordinator::{
    CompleteError, Coordinator, CoordinatorAction, HostState, ScanError,
};
use adcs_scan::outcome::ProbeOutcome;
use adcs_scan::run::{Completion, ScanRun};

fn launch_all(coordinator: &mut Coordinator, total: usize) {
    for host in 0..total {
        assert_eq!(coordinator.next_action(), CoordinatorAction::Launch(host));
    }
}

fn scan_in_order(outcomes: &[ProbeOutcome], order: &[usize]) -> ScanRun {
    let mut coordinator = Coordinator::new(outcomes.len(), 0).unwrap();
    launch_all(&mut coordinator, outcomes.len());
    for &host in order {
        coordinator.complete(host, Some(outcomes[host])).unwrap();
    }
    assert_eq!(coordinator.next_action(), CoordinatorAction::Finish);
    coordinator.into_run()
}

fn sorted_names(run: &ScanRun) -> Vec<&'static str> {
    let mut names: Vec<&'static str> =
        run.completed().iter().map(|entry| entry.outcome.name()).collect();
    names.sort();
    names
}

#[test]
fn empty_host_list_is_rejected() {
    assert_eq!(Coordinator::new(0, 0).err(), Some(ScanError::NoHosts));
    assert_eq!(Coordinator::new(0, 4).err(), Some(ScanError::NoHosts));
    assert!(Coordinator::new(1, 0).is_ok());
}

#[test]
fn fresh_scan_has_zero_counts() {
    let coordinator = Coordinator::new(3, 0).unwrap();
    assert_eq!(coordinator.total(), 3);
    assert_eq!(coordinator.launched(), 0);
    assert_eq!(coordinator.in_flight(), 0);
    let run = coordinator.run();
    assert_eq!(run.total(), 3);
    assert_eq!(run.settled(), 0);
    assert_eq!(run.failed(), 0);
    assert!(run.completed().is_empty());
    assert!(!run.is_complete());
    for kind in [
        ProbeOutcome::Confirmed,
        ProbeOutcome::Potential,
        ProbeOutcome::Absent,
        ProbeOutcome::Unreachable,
        ProbeOutcome::Invalid,
    ] {
        assert_eq!(run.count(kind), 0);
    }
    for host in 0..3 {
        assert_eq!(coordinator.host_state(host), Some(HostState::Waiting));
    }
    assert_eq!(coordinator.host_state(3), None);
}

#[test]
fn unbounded_scan_launches_every_host_before_it_waits() {
    let mut coordinator = Coordinator::new(5, 0).unwrap();
    for host in 0..5 {
        assert_eq!(coordinator.next_action(), CoordinatorAction::Launch(host));
        assert_eq!(coordinator.in_flight(), host + 1);
        assert_eq!(coordinator.host_state(host), Some(HostState::InFlight));
    }
    assert_eq!(coordinator.launched(), 5);
    assert_eq!(coordinator.next_action(), CoordinatorAction::Wait);
    assert_eq!(coordinator.next_action(), CoordinatorAction::Wait);
    assert_eq!(coordinator.in_flight(), 5);
}

#[test]
fn unbounded_scan_keeps_launching_while_probes_end() {
    let mut coordinator = Coordinator::new(4, 0).unwrap();
    assert_eq!(coordinator.next_action(), CoordinatorAction::Launch(0));
    assert_eq!(coordinator.complete(0, Some(ProbeOutcome::Absent)), Ok(1));
    assert_eq!(coordinator.next_action(), CoordinatorAction::Launch(1));
    assert_eq!(coordinator.next_action(), CoordinatorAction::Launch(2));
    assert_eq!(coordinator.complete(2, None), Ok(2));
    assert_eq!(coordinator.next_action(), CoordinatorAction::Launch(3));
    assert_eq!(coordinator.next_action(), CoordinatorAction::Wait);
}

#[test]
fn bounded_scan_never_exceeds_its_bound() {
    let mut coordinator = Coordinator::new(5, 2).unwrap();
    assert_eq!(coordinator.next_action(), CoordinatorAction::Launch(0));
    assert_eq!(coordinator.next_action(), CoordinatorAction::Launch(1));
    assert_eq!(coordinator.next_action(), CoordinatorAction::Wait);
    assert_eq!(coordinator.in_flight(), 2);
    assert_eq!(coordinator.launched(), 2);
    assert_eq!(coordinator.host_state(2), Some(HostState::Waiting));

    assert_eq!(coordinator.complete(1, Some(ProbeOutcome::Unreachable)), Ok(1));
    assert_eq!(coordinator.in_flight(), 1);
    assert_eq!(coordinator.next_action(), CoordinatorAction::Launch(2));
    assert_eq!(coordinator.next_action(), CoordinatorAction::Wait);

    assert_eq!(coordinator.complete(0, Some(ProbeOutcome::Absent)), Ok(2));
    assert_eq!(coordinator.complete(2, Some(ProbeOutcome::Absent)), Ok(3));
    assert_eq!(coordinator.next_action(), CoordinatorAction::Launch(3));
    assert_eq!(coordinator.next_action(), CoordinatorAction::Launch(4));
    assert_eq!(coordinator.next_action(), CoordinatorAction::Wait);
    assert_eq!(coordinator.complete(4, Some(ProbeOutcome::Confirmed)), Ok(4));
    assert_eq!(coordinator.next_action(), CoordinatorAction::Wait);
    assert_eq!(coordinator.complete(3, Some(ProbeOutcome::Potential)), Ok(5));
    assert_eq!(coordinator.next_action(), CoordinatorAction::Finish);
}

#[test]
fn bound_of_one_runs_the_probes_one_by_one() {
    let mut coordinator = Coordinator::new(3, 1).unwrap();
    for host in 0..3 {
        assert_eq!(coordinator.next_action(), CoordinatorAction::Launch(host));
        assert_eq!(coordinator.next_action(), CoordinatorAction::Wait);
        assert_eq!(coordinator.complete(host, Some(ProbeOutcome::Absent)), Ok(host + 1));
    }
    assert_eq!(coordinator.next_action(), CoordinatorAction::Finish);
}

#[test]
fn finish_comes_when_every_probe_has_ended() {
    let mut coordinator = Coordinator::new(2, 0).unwrap();
    launch_all(&mut coordinator, 2);
    assert_eq!(coordinator.next_action(), CoordinatorAction::Wait);
    coordinator.complete(1, Some(ProbeOutcome::Invalid)).unwrap();
    assert!(!coordinator.run().is_complete());
    assert_eq!(coordinator.next_action(), CoordinatorAction::Wait);
    coordinator.complete(0, None).unwrap();
    assert!(coordinator.run().is_complete());
    assert_eq!(coordinator.next_action(), CoordinatorAction::Finish);
    assert_eq!(coordinator.next_action(), CoordinatorAction::Finish);
    assert_eq!(coordinator.in_flight(), 0);
}

#[test]
fn each_probe_is_recorded_once() {
    let mut coordinator = Coordinator::new(3, 0).unwrap();
    assert_eq!(coordinator.next_action(), CoordinatorAction::Launch(0));
    assert_eq!(coordinator.next_action(), CoordinatorAction::Launch(1));

    assert_eq!(
        coordinator.complete(2, Some(ProbeOutcome::Confirmed)),
        Err(CompleteError::NotLaunched)
    );
    assert_eq!(
        coordinator.complete(3, Some(ProbeOutcome::Confirmed)),
        Err(CompleteError::UnknownHost)
    );
    assert_eq!(
        coordinator.complete(usize::MAX, Some(ProbeOutcome::Confirmed)),
        Err(CompleteError::UnknownHost)
    );
    assert_eq!(coordinator.run().settled(), 0);

    assert_eq!(coordinator.complete(0, Some(ProbeOutcome::Confirmed)), Ok(1));
    assert_eq!(coordinator.host_state(0), Some(HostState::Settled));
    assert_eq!(
        coordinator.complete(0, Some(ProbeOutcome::Confirmed)),
        Err(CompleteError::AlreadySettled)
    );
    assert_eq!(
        coordinator.complete(0, Some(ProbeOutcome::Absent)),
        Err(CompleteError::AlreadySettled)
    );
    assert_eq!(coordinator.complete(0, None), Err(CompleteError::AlreadySettled));
    assert_eq!(coordinator.run().count(ProbeOutcome::Confirmed), 1);
    assert_eq!(coordinator.run().count(ProbeOutcome::Absent), 0);
    assert_eq!(coordinator.run().settled(), 1);
    assert_eq!(coordinator.in_flight(), 1);
}

#[test]
fn completed_list_is_in_completion_order() {
    let run = scan_in_order(
        &[ProbeOutcome::Confirmed, ProbeOutcome::Absent, ProbeOutcome::Potential],
        &[2, 0, 1],
    );
    assert_eq!(
        run.completed(),
        &vec![
            Completion { host: 2, outcome: ProbeOutcome::Potential },
            Completion { host: 0, outcome: ProbeOutcome::Confirmed },
            Completion { host: 1, outcome: ProbeOutcome::Absent },
        ]
    );
}

#[test]
fn failed_task_enters_no_bucket() {
    let mut coordinator = Coordinator::new(3, 0).unwrap();
    launch_all(&mut coordinator, 3);
    assert_eq!(coordinator.complete(1, None), Ok(1));
    assert_eq!(coordinator.complete(0, Some(ProbeOutcome::Confirmed)), Ok(2));
    assert_eq!(coordinator.complete(2, None), Ok(3));
    assert_eq!(coordinator.next_action(), CoordinatorAction::Finish);
    let run = coordinator.into_run();
    assert_eq!(run.failed(), 2);
    assert_eq!(run.settled(), 3);
    assert_eq!(run.completed().len(), 1);
    assert_eq!(run.count(ProbeOutcome::Confirmed), 1);
    assert_eq!(run.count(ProbeOutcome::Potential), 0);
    assert_eq!(run.count(ProbeOutcome::Absent), 0);
    assert_eq!(run.count(ProbeOutcome::Unreachable), 0);
    assert_eq!(run.count(ProbeOutcome::Invalid), 0);
    assert_eq!(run.summary(), "Found 1 confirmed ADCS endpoint(s). Scan complete");
}

#[test]
fn summary_reports_confirmed_and_potential_only() {
    let mut outcomes = Vec::new();
    outcomes.extend([ProbeOutcome::Confirmed; 2]);
    outcomes.extend([ProbeOutcome::Potential; 1]);
    outcomes.extend([ProbeOutcome::Absent; 3]);
    outcomes.extend([ProbeOutcome::Unreachable; 4]);
    let order: Vec<usize> = (0..outcomes.len()).collect();
    let run = scan_in_order(&outcomes, &order);

    assert_eq!(run.count(ProbeOutcome::Confirmed), 2);
    assert_eq!(run.count(ProbeOutcome::Potential), 1);
    assert_eq!(run.count(ProbeOutcome::Absent), 3);
    assert_eq!(run.count(ProbeOutcome::Unreachable), 4);
    assert_eq!(run.count(ProbeOutcome::Invalid), 0);

    let summary = run.summary();
    assert_eq!(
        summary,
        "Found 2 confirmed ADCS endpoint(s). Found 1 potential ADCS endpoint(s) (401/403 responses). Scan complete"
    );
    assert!(summary.contains("2 confirmed"));
    assert!(summary.contains("1 potential"));
    assert!(!summary.to_lowercase().contains("absent"));
    assert!(!summary.to_lowercase().contains("unreachable"));
    assert!(!summary.contains("Found 3"));
    assert!(!summary.contains("Found 4"));
}

#[test]
fn summary_when_nothing_was_found() {
    let run = scan_in_order(
        &[ProbeOutcome::Absent, ProbeOutcome::Unreachable, ProbeOutcome::Invalid],
        &[0, 1, 2],
    );
    assert_eq!(
        run.summary(),
        "\u{26a0} No ADCS endpoints found in the scanned hosts. Scan complete"
    );
}

#[test]
fn two_scans_of_the_same_hosts_agree() {
    let outcomes = [
        ProbeOutcome::Confirmed,
        ProbeOutcome::Unreachable,
        ProbeOutcome::Potential,
        ProbeOutcome::Invalid,
        ProbeOutcome::Absent,
        ProbeOutcome::Confirmed,
    ];
    let first = scan_in_order(&outcomes, &[0, 1, 2, 3, 4, 5]);
    let second = scan_in_order(&outcomes, &[5, 3, 1, 4, 2, 0]);
    assert_ne!(first.completed(), second.completed());
    assert_eq!(sorted_names(&first), sorted_names(&second));
    for kind in [
        ProbeOutcome::Confirmed,
        ProbeOutcome::Potential,
        ProbeOutcome::Absent,
        ProbeOutcome::Unreachable,
        ProbeOutcome::Invalid,
    ] {
        assert_eq!(first.count(kind), second.count(kind));
    }
    assert_eq!(first.summary(), second.summary());
    assert_eq!(first.settled(), second.settled());
}

#[test]
fn run_counts_each_kind() {
    let mut run = ScanRun::new(6);
    assert!(run.record(0, Some(ProbeOutcome::Invalid)));
    assert!(run.record(1, Some(ProbeOutcome::Invalid)));
    assert!(run.record(2, Some(ProbeOutcome::Unreachable)));
    assert!(run.record(3, None));
    assert!(run.record(4, Some(ProbeOutcome::Absent)));
    assert_eq!(run.count(ProbeOutcome::Invalid), 2);
    assert_eq!(run.count(ProbeOutcome::Unreachable), 1);
    assert_eq!(run.count(ProbeOutcome::Absent), 1);
    assert_eq!(run.count(ProbeOutcome::Confirmed), 0);
    assert_eq!(run.failed(), 1);
    assert_eq!(run.settled(), 5);
    assert!(!run.is_complete());
    assert!(run.record(5, Some(ProbeOutcome::Potential)));
    assert!(run.is_complete());
}

#[test]
fn complete_run_is_frozen() {
    let mut run = ScanRun::new(1);
    assert!(run.record(0, Some(ProbeOutcome::Absent)));
    assert!(run.is_complete());
    assert!(!run.record(0, Some(ProbeOutcome::Confirmed)));
    assert!(!run.record(1, None));
    assert_eq!(run.count(ProbeOutcome::Confirmed), 0);
    assert_eq!(run.count(ProbeOutcome::Absent), 1);
    assert_eq!(run.failed(), 0);
    assert_eq!(run.settled(), 1);
    assert_eq!(run.completed().len(), 1);

    let mut none = ScanRun::new(0);
    assert!(none.is_complete());
    assert!(!none.record(0, Some(ProbeOutcome::Confirmed)));
    assert_eq!(none.settled(), 0);
}

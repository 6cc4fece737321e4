use watchcore::event::{run_waiter, BusRecv, Event, WaitOutcome};
use watchcore::runner::{race_verdict, verdict_result, RaceWinner, RunVerdict};

#[test]
fn clean_exit_returns_success_without_kill() {
    let v = race_verdict(&RaceWinner::ChildExited { success: true });
    assert_eq!(v, RunVerdict::CompletedOk);
    assert_ne!(v, RunVerdict::Interrupted);
    assert!(verdict_result("cargo serve", v).is_ok());
}

#[test]
fn failing_exit_reports_the_label() {
    let v = race_verdict(&RaceWinner::ChildExited { success: false });
    assert_eq!(v, RunVerdict::Failed);
    let e = verdict_result("cargo serve", v).unwrap_err();
    assert_eq!(e.label, "cargo serve");
    assert_eq!(e.message(), "cargo serve failed");
}

#[test]
fn fired_and_discarded_wakes_interrupt_alike() {
    let fired = race_verdict(&RaceWinner::WaiterDone {
        outcome: WaitOutcome::Fired,
    });
    let discarded = race_verdict(&RaceWinner::WaiterDone {
        outcome: WaitOutcome::Discarded,
    });
    assert_eq!(fired, RunVerdict::Interrupted);
    assert_eq!(discarded, RunVerdict::Interrupted);
    assert!(verdict_result("cargo run", fired).is_ok());
    assert!(verdict_result("cargo run", discarded).is_ok());
}

#[test]
fn source_change_before_exit_kills_and_succeeds() {
    let targets = vec![Event::SourceChanged, Event::ShutDown];
    let recvs = vec![
        BusRecv::Received(Event::BuildStarted),
        BusRecv::Received(Event::SourceChanged),
    ];
    let outcome = run_waiter(&targets, &recvs).expect("the waiter must resolve");
    assert_eq!(outcome, WaitOutcome::Fired);
    let v = race_verdict(&RaceWinner::WaiterDone { outcome });
    assert_eq!(v, RunVerdict::Interrupted);
    assert!(verdict_result("cargo run", v).is_ok());
}

#[test]
fn shutdown_before_exit_kills_and_succeeds_via_discard() {
    let targets = vec![Event::SourceChanged, Event::ShutDown];
    let recvs = vec![
        BusRecv::Received(Event::AssetChanged),
        BusRecv::Received(Event::ShutDown),
    ];
    let outcome = run_waiter(&targets, &recvs).expect("the waiter must resolve");
    assert_eq!(outcome, WaitOutcome::Discarded);
    let v = race_verdict(&RaceWinner::WaiterDone { outcome });
    assert_eq!(v, RunVerdict::Interrupted);
    assert!(verdict_result("cargo run", v).is_ok());
}

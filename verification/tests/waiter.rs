use watchcore::event::{
    contains_event, run_waiter, waiter_step, BusRecv, Event, WaitOutcome, WaiterStep,
};

#[test]
fn unrelated_events_never_resolve() {
    let targets = vec![Event::SourceChanged];
    let recvs = vec![
        BusRecv::Received(Event::BuildStarted),
        BusRecv::Received(Event::AssetChanged),
        BusRecv::Received(Event::BuildStarted),
        BusRecv::Received(Event::AssetChanged),
        BusRecv::Received(Event::BuildStarted),
        BusRecv::Received(Event::BuildStarted),
        BusRecv::Received(Event::AssetChanged),
    ];
    assert_eq!(run_waiter(&targets, &recvs), None);
}

#[test]
fn matching_event_fires_after_unrelated_ones() {
    let targets = vec![Event::SourceChanged];
    let recvs = vec![
        BusRecv::Received(Event::BuildStarted),
        BusRecv::Received(Event::SourceChanged),
        BusRecv::Received(Event::BuildStarted),
    ];
    assert_eq!(run_waiter(&targets, &recvs), Some(WaitOutcome::Fired));
}

#[test]
fn shutdown_discards_even_when_among_targets() {
    let targets = vec![Event::SourceChanged, Event::ShutDown];
    let recvs = vec![BusRecv::Received(Event::ShutDown)];
    assert_eq!(run_waiter(&targets, &recvs), Some(WaitOutcome::Discarded));
}

#[test]
fn lag_and_closure_discard_silently() {
    let targets = vec![Event::SourceChanged];
    assert_eq!(
        run_waiter(&targets, &vec![BusRecv::Lagged(3)]),
        Some(WaitOutcome::Discarded)
    );
    assert_eq!(
        run_waiter(&targets, &vec![BusRecv::Closed]),
        Some(WaitOutcome::Discarded)
    );
}

#[test]
fn single_steps_follow_the_waiter_rules() {
    let targets = vec![Event::SourceChanged, Event::ShutDown];
    assert_eq!(
        waiter_step(&targets, &BusRecv::Received(Event::ShutDown)),
        WaiterStep::Stop
    );
    assert_eq!(
        waiter_step(&targets, &BusRecv::Received(Event::SourceChanged)),
        WaiterStep::Fire
    );
    assert_eq!(
        waiter_step(&targets, &BusRecv::Received(Event::BuildStarted)),
        WaiterStep::Continue
    );
    assert_eq!(
        waiter_step(&targets, &BusRecv::Lagged(17)),
        WaiterStep::Stop
    );
    assert_eq!(waiter_step(&targets, &BusRecv::Closed), WaiterStep::Stop);
}

#[test]
fn target_set_membership() {
    let targets = vec![Event::SourceChanged, Event::ShutDown];
    assert!(contains_event(&targets, Event::SourceChanged));
    assert!(contains_event(&targets, Event::ShutDown));
    assert!(!contains_event(&targets, Event::BuildStarted));
    assert!(!contains_event(&Vec::new(), Event::SourceChanged));
}

use rbuilder_cli::{Action, CancellationSignal, Event, Lifecycle, Outcome, Phase, Stage};

fn started_run() -> Lifecycle {
    let mut l = Lifecycle::new();
    assert_eq!(l.step(Event::ConfigLoaded, 10), Action::SpawnRedacted);
    assert_eq!(l.step(Event::RedactedSpawned, 20), Action::SpawnFull);
    assert_eq!(l.step(Event::FullSpawned, 30), Action::ConstructBuilder);
    assert_eq!(l.step(Event::BuilderBuilt, 40), Action::StartRun);
    assert_eq!(l.step(Event::RunStarted, 50), Action::Await);
    assert_eq!(l.phase, Phase::Running);
    l
}

#[test]
fn trigger_twice_is_trigger_once() {
    let mut once = CancellationSignal::new();
    assert!(!once.is_triggered());
    assert!(once.trigger());
    let mut twice = CancellationSignal::new();
    assert!(twice.trigger());
    assert!(!twice.trigger());
    assert_eq!(once, twice);
    assert!(twice.is_triggered());
}

#[test]
fn interrupt_right_after_run_terminates_with_both_tasks_done() {
    let mut l = started_run();
    assert!(!l.cancel.is_triggered());
    assert_eq!(l.step(Event::ListenerFinished, 51), Action::Await);
    assert_eq!(l.phase, Phase::ShuttingDown);
    assert!(l.cancel.is_triggered());
    assert_eq!(l.step(Event::BuilderFinished { ok: true }, 52), Action::Exit(Outcome::Success));
    assert_eq!(l.phase, Phase::Terminated);
    assert!(l.builder_done);
    assert!(l.listener_done);
    assert_eq!(l.outcome, Some(Outcome::Success));
}

#[test]
fn builder_error_still_waits_for_listener() {
    let mut l = started_run();
    assert_eq!(l.step(Event::BuilderFinished { ok: false }, 60), Action::Await);
    assert_eq!(l.phase, Phase::ShuttingDown);
    assert_eq!(l.outcome, None);
    assert_eq!(l.step(Event::ListenerFinished, 70), Action::Exit(Outcome::Failure(Stage::Run)));
    assert_eq!(l.phase, Phase::Terminated);
    assert!(l.builder_done && l.listener_done);
}

#[test]
fn redacted_telemetry_is_spawned_before_full() {
    let l = started_run();
    assert_eq!(l.redacted_spawned_at, Some(20));
    assert_eq!(l.full_spawned_at, Some(30));
    assert!(l.redacted_spawned_at.unwrap() <= l.full_spawned_at.unwrap());
}

#[test]
fn full_telemetry_before_redacted_is_ignored() {
    let mut l = Lifecycle::new();
    l.step(Event::ConfigLoaded, 1);
    assert_eq!(l.step(Event::FullSpawned, 2), Action::Ignore);
    assert_eq!(l.full_spawned_at, None);
    assert_eq!(l.phase, Phase::ConfigResolved);
    assert_eq!(l.last_event_at, 1);
}

#[test]
fn spawns_at_the_same_instant_keep_order() {
    let mut l = Lifecycle::new();
    l.step(Event::ConfigLoaded, 5);
    l.step(Event::RedactedSpawned, 5);
    assert_eq!(l.step(Event::FullSpawned, 5), Action::ConstructBuilder);
    assert_eq!(l.redacted_spawned_at, Some(5));
    assert_eq!(l.full_spawned_at, Some(5));
}

#[test]
fn event_earlier_than_last_is_ignored() {
    let mut l = Lifecycle::new();
    l.step(Event::ConfigLoaded, 100);
    assert_eq!(l.step(Event::RedactedSpawned, 99), Action::Ignore);
    assert_eq!(l.redacted_spawned_at, None);
    assert_eq!(l.last_event_at, 100);
}

#[test]
fn config_failure_is_fatal() {
    let mut l = Lifecycle::new();
    assert_eq!(
        l.step(Event::ConfigFailed, 1),
        Action::Exit(Outcome::Failure(Stage::Configuration))
    );
    assert_eq!(l.phase, Phase::Terminated);
    assert_eq!(l.redacted_spawned_at, None);
}

#[test]
fn spawn_failure_is_fatal_and_builds_nothing() {
    let mut l = Lifecycle::new();
    l.step(Event::ConfigLoaded, 1);
    l.step(Event::RedactedSpawned, 2);
    assert_eq!(l.step(Event::SpawnFailed, 3), Action::Exit(Outcome::Failure(Stage::Telemetry)));
    assert_eq!(l.phase, Phase::Terminated);
    assert_eq!(l.step(Event::BuilderBuilt, 4), Action::Ignore);
    assert!(!l.run_started);
}

#[test]
fn construction_failure_is_fatal() {
    let mut l = Lifecycle::new();
    l.step(Event::ConfigLoaded, 1);
    l.step(Event::RedactedSpawned, 2);
    l.step(Event::FullSpawned, 3);
    assert_eq!(
        l.step(Event::BuildFailed, 4),
        Action::Exit(Outcome::Failure(Stage::Construction))
    );
    assert_eq!(l.outcome, Some(Outcome::Failure(Stage::Construction)));
    assert_eq!(l.full_spawned_at, Some(3));
}

#[test]
fn second_interrupt_report_is_ignored() {
    let mut l = started_run();
    l.step(Event::ListenerFinished, 51);
    let before = l.cancel;
    assert_eq!(l.step(Event::ListenerFinished, 52), Action::Ignore);
    assert_eq!(l.cancel, before);
    assert_eq!(l.phase, Phase::ShuttingDown);
    assert_eq!(l.last_event_at, 51);
}

#[test]
fn events_out_of_phase_are_ignored() {
    let mut l = Lifecycle::new();
    assert_eq!(l.step(Event::RunStarted, 1), Action::Ignore);
    assert_eq!(l.step(Event::BuilderFinished { ok: true }, 1), Action::Ignore);
    assert_eq!(l.phase, Phase::Idle);
    assert_eq!(l.last_event_at, 0);
}

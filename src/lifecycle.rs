use vstd::prelude::*;

use crate::cancel::CancellationSignal;

verus! {

/// Where a `run` stands.
#[derive(Clone, Copy, Debug, PartialEq, Eq, Structural)]
pub enum Phase {
    Idle,
    ConfigResolved,
    TelemetryStarted,
    BuilderConstructed,
    Running,
    ShuttingDown,
    Terminated,
}

/// The step of a `run` at which a fatal error came.
#[derive(Clone, Copy, Debug, PartialEq, Eq, Structural)]
pub enum Stage {
    /// Loading or merging the settings.
    Configuration,
    /// Starting a telemetry server.
    Telemetry,
    /// Constructing the builder.
    Construction,
    /// The builder's own run.
    Run,
}

/// How a `run` ended.
#[derive(Clone, Copy, Debug, PartialEq, Eq, Structural)]
pub enum Outcome {
    Success,
    Failure(Stage),
}

/// What the outside work of a `run` reports back.
#[derive(Clone, Copy, Debug, PartialEq, Eq, Structural)]
pub enum Event {
    ConfigLoaded,
    ConfigFailed,
    RedactedSpawned,
    FullSpawned,
    SpawnFailed,
    BuilderBuilt,
    BuildFailed,
    /// The builder's run and the interrupt listener have been started.
    RunStarted,
    /// The builder's run returned, with success or not.
    BuilderFinished { ok: bool },
    /// The interrupt listener saw an interrupt, triggered the cancellation
    /// signal and returned.
    ListenerFinished,
}

/// The outside work that a `run` asks for next.
#[derive(Clone, Copy, Debug, PartialEq, Eq, Structural)]
pub enum Action {
    /// Start the telemetry server that is safe to expose.
    SpawnRedacted,
    /// Start the telemetry server with full operational detail.
    SpawnFull,
    /// Construct the builder with a fresh cancellation signal.
    ConstructBuilder,
    /// Call the start hook, if any, then start the builder's run and the
    /// interrupt listener side by side.
    StartRun,
    /// Wait for the tasks that are still running.
    Await,
    /// Return with this outcome.
    Exit(Outcome),
    /// The event does not fit where the run stands; nothing changed.
    Ignore,
}

/// The state of one `run`, from the settings to the end of its tasks.
/// Times are those that the caller reports with each event.
#[derive(Clone, Copy, Debug)]
pub struct Lifecycle {
    pub phase: Phase,
    pub outcome: Option<Outcome>,
    pub redacted_spawned_at: Option<u64>,
    pub full_spawned_at: Option<u64>,
    pub run_started: bool,
    pub builder_done: bool,
    pub builder_failed: bool,
    pub listener_done: bool,
    pub cancel: CancellationSignal,
    pub last_event_at: u64,
}

/// How a run ends once both of its tasks are done: with a failure of the
/// run itself if the builder returned an error, else with success.
pub open spec fn end_of_run(builder_failed: bool) -> Outcome {
    if builder_failed {
        Outcome::Failure(Stage::Run)
    } else {
        Outcome::Success
    }
}

impl Lifecycle {
    pub open spec fn wf(self) -> bool {
        &&& (self.phase == Phase::Terminated) == (self.outcome is Some)
        &&& self.redacted_spawned_at matches Some(t) ==> t <= self.last_event_at
        &&& self.full_spawned_at matches Some(t) ==> t <= self.last_event_at
        &&& self.full_spawned_at matches Some(f) ==> (self.redacted_spawned_at matches Some(r) && r <= f)
        &&& self.phase == Phase::Idle ==> self.redacted_spawned_at is None
        &&& (self.phase == Phase::Idle || self.phase == Phase::ConfigResolved) ==> self.full_spawned_at is None
        &&& (self.phase == Phase::TelemetryStarted || self.phase == Phase::BuilderConstructed
            || self.run_started) ==> self.full_spawned_at is Some
        &&& (self.phase == Phase::Running || self.phase == Phase::ShuttingDown) ==> self.run_started
        &&& (self.phase != Phase::Running && self.phase != Phase::ShuttingDown
            && self.phase != Phase::Terminated) ==> !self.run_started
        &&& (self.builder_done || self.listener_done) ==> self.run_started
        &&& self.builder_failed ==> self.builder_done
        &&& self.cancel@ == self.listener_done
        &&& self.phase == Phase::Running ==> !self.builder_done && !self.listener_done
        &&& self.phase == Phase::ShuttingDown ==> (self.builder_done || self.listener_done)
            && !(self.builder_done && self.listener_done)
        &&& (self.phase == Phase::Terminated && self.run_started) ==> self.builder_done
            && self.listener_done && self.outcome == Some(end_of_run(self.builder_failed))
    }

    /// The same state, with the event's time recorded.
    pub open spec fn at(self, now: u64) -> Lifecycle {
        Lifecycle { last_event_at: now, ..self }
    }

    /// The state after an event at time `now`, and the action it asks for.
    /// An event that does not fit the phase, or that comes earlier than the
    /// last one taken, changes nothing.
    pub open spec fn next(self, e: Event, now: u64) -> (Lifecycle, Action) {
        let s = self.at(now);
        if now < self.last_event_at {
            (self, Action::Ignore)
        } else {
            match (self.phase, e) {
                (Phase::Idle, Event::ConfigLoaded) => (
                    Lifecycle { phase: Phase::ConfigResolved, ..s },
                    Action::SpawnRedacted,
                ),
                (Phase::Idle, Event::ConfigFailed) => {
                    let o = Outcome::Failure(Stage::Configuration);
                    (Lifecycle { phase: Phase::Terminated, outcome: Some(o), ..s }, Action::Exit(o))
                },
                (Phase::ConfigResolved, Event::RedactedSpawned) => if self.redacted_spawned_at is None {
                    (Lifecycle { redacted_spawned_at: Some(now), ..s }, Action::SpawnFull)
                } else {
                    (self, Action::Ignore)
                },
                (Phase::ConfigResolved, Event::FullSpawned) => if self.redacted_spawned_at is Some {
                    (
                        Lifecycle { phase: Phase::TelemetryStarted, full_spawned_at: Some(now), ..s },
                        Action::ConstructBuilder,
                    )
                } else {
                    (self, Action::Ignore)
                },
                (Phase::ConfigResolved, Event::SpawnFailed) => {
                    let o = Outcome::Failure(Stage::Telemetry);
                    (Lifecycle { phase: Phase::Terminated, outcome: Some(o), ..s }, Action::Exit(o))
                },
                (Phase::TelemetryStarted, Event::BuilderBuilt) => (
                    Lifecycle { phase: Phase::BuilderConstructed, ..s },
                    Action::StartRun,
                ),
                (Phase::TelemetryStarted, Event::BuildFailed) => {
                    let o = Outcome::Failure(Stage::Construction);
                    (Lifecycle { phase: Phase::Terminated, outcome: Some(o), ..s }, Action::Exit(o))
                },
                (Phase::BuilderConstructed, Event::RunStarted) => (
                    Lifecycle { phase: Phase::Running, run_started: true, ..s },
                    Action::Await,
                ),
                (Phase::Running, Event::BuilderFinished { ok }) => (
                    Lifecycle { phase: Phase::ShuttingDown, builder_done: true, builder_failed: !ok, ..s },
                    Action::Await,
                ),
                (Phase::Running, Event::ListenerFinished) => (
                    Lifecycle {
                        phase: Phase::ShuttingDown,
                        listener_done: true,
                        cancel: self.cancel.after_trigger(),
                        ..s
                    },
                    Action::Await,
                ),
                (Phase::ShuttingDown, Event::BuilderFinished { ok }) => if self.builder_done {
                    (self, Action::Ignore)
                } else {
                    let o = end_of_run(!ok);
                    (
                        Lifecycle {
                            phase: Phase::Terminated,
                            outcome: Some(o),
                            builder_done: true,
                            builder_failed: !ok,
                            ..s
                        },
                        Action::Exit(o),
                    )
                },
                (Phase::ShuttingDown, Event::ListenerFinished) => if self.listener_done {
                    (self, Action::Ignore)
                } else {
                    let o = end_of_run(self.builder_failed);
                    (
                        Lifecycle {
                            phase: Phase::Terminated,
                            outcome: Some(o),
                            listener_done: true,
                            cancel: self.cancel.after_trigger(),
                            ..s
                        },
                        Action::Exit(o),
                    )
                },
                _ => (self, Action::Ignore),
            }
        }
    }

    /// A run that has not started yet.
    pub fn new() -> (r: Lifecycle)
        ensures
            r.wf(),
            r.phase == Phase::Idle,
            !r.cancel@,
            r.last_event_at == 0,
    {
        Lifecycle {
            phase: Phase::Idle,
            outcome: None,
            redacted_spawned_at: None,
            full_spawned_at: None,
            run_started: false,
            builder_done: false,
            builder_failed: false,
            listener_done: false,
            cancel: CancellationSignal::new(),
            last_event_at: 0,
        }
    }

    /// Takes an event at time `now` and says what to do next.
    pub fn step(&mut self, e: Event, now: u64) -> (r: Action)
        requires
            old(self).wf(),
        ensures
            final(self).wf(),
            (*final(self), r) == old(self).next(e, now),
    {
        if now < self.last_event_at {
            return Action::Ignore;
        }
        match (self.phase, e) {
            (Phase::Idle, Event::ConfigLoaded) => {
                self.phase = Phase::ConfigResolved;
                self.last_event_at = now;
                Action::SpawnRedacted
            },
            (Phase::Idle, Event::ConfigFailed) => self.fail(Stage::Configuration, now),
            (Phase::ConfigResolved, Event::RedactedSpawned) => {
                if self.redacted_spawned_at.is_some() {
                    return Action::Ignore;
                }
                self.redacted_spawned_at = Some(now);
                self.last_event_at = now;
                Action::SpawnFull
            },
            (Phase::ConfigResolved, Event::FullSpawned) => {
                if self.redacted_spawned_at.is_none() {
                    return Action::Ignore;
                }
                self.phase = Phase::TelemetryStarted;
                self.full_spawned_at = Some(now);
                self.last_event_at = now;
                Action::ConstructBuilder
            },
            (Phase::ConfigResolved, Event::SpawnFailed) => self.fail(Stage::Telemetry, now),
            (Phase::TelemetryStarted, Event::BuilderBuilt) => {
                self.phase = Phase::BuilderConstructed;
                self.last_event_at = now;
                Action::StartRun
            },
            (Phase::TelemetryStarted, Event::BuildFailed) => self.fail(Stage::Construction, now),
            (Phase::BuilderConstructed, Event::RunStarted) => {
                self.phase = Phase::Running;
                self.run_started = true;
                self.last_event_at = now;
                Action::Await
            },
            (Phase::Running, Event::BuilderFinished { ok }) => {
                self.phase = Phase::ShuttingDown;
                self.builder_done = true;
                self.builder_failed = !ok;
                self.last_event_at = now;
                Action::Await
            },
            (Phase::Running, Event::ListenerFinished) => {
                self.phase = Phase::ShuttingDown;
                self.listener_done = true;
                self.cancel.trigger();
                self.last_event_at = now;
                Action::Await
            },
            (Phase::ShuttingDown, Event::BuilderFinished { ok }) => {
                if self.builder_done {
                    return Action::Ignore;
                }
                self.builder_done = true;
                self.builder_failed = !ok;
                self.finish(now)
            },
            (Phase::ShuttingDown, Event::ListenerFinished) => {
                if self.listener_done {
                    return Action::Ignore;
                }
                self.listener_done = true;
                self.cancel.trigger();
                self.finish(now)
            },
            _ => Action::Ignore,
        }
    }

    fn fail(&mut self, stage: Stage, now: u64) -> (r: Action)
        ensures
            *final(self) == (Lifecycle {
                phase: Phase::Terminated,
                outcome: Some(Outcome::Failure(stage)),
                last_event_at: now,
                ..*old(self)
            }),
            r == Action::Exit(Outcome::Failure(stage)),
    {
        let o = Outcome::Failure(stage);
        self.phase = Phase::Terminated;
        self.outcome = Some(o);
        self.last_event_at = now;
        Action::Exit(o)
    }

    fn finish(&mut self, now: u64) -> (r: Action)
        ensures
            *final(self) == (Lifecycle {
                phase: Phase::Terminated,
                outcome: Some(end_of_run(old(self).builder_failed)),
                last_event_at: now,
                ..*old(self)
            }),
            r == Action::Exit(end_of_run(old(self).builder_failed)),
    {
        let o = if self.builder_failed {
            Outcome::Failure(Stage::Run)
        } else {
            Outcome::Success
        };
        self.phase = Phase::Terminated;
        self.outcome = Some(o);
        self.last_event_at = now;
        Action::Exit(o)
    }
}

/// In every state of a run, the telemetry server that is safe to expose was
/// started no later than the full one, and the builder is constructed only
/// once both are up.
pub proof fn lemma_redacted_telemetry_first(s: Lifecycle)
    requires
        s.wf(),
    ensures
        s.full_spawned_at matches Some(f) ==> (s.redacted_spawned_at matches Some(r) && r <= f),
        (s.phase == Phase::BuilderConstructed || s.run_started) ==> s.full_spawned_at is Some,
{
}

/// A run whose tasks were started ends only after both the builder's run and
/// the interrupt listener are done, and then shutdown has been asked for.
pub proof fn lemma_run_ends_with_both_tasks(s: Lifecycle)
    requires
        s.wf(),
        s.phase == Phase::Terminated,
        s.run_started,
    ensures
        s.builder_done,
        s.listener_done,
        s.cancel@,
        s.outcome == Some(end_of_run(s.builder_failed)),
{
}

} // verus!

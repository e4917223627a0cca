use agent_launcher::launcher::{Action, Event, Launcher, Phase, Variant, SETTLE_SECONDS};
use agent_launcher::location::{BuildMode, Location};
use agent_launcher::outcome::{report, LaunchError, Outcome};

fn place(segments: &[&str]) -> Location {
    Location {
        anchor: "/".to_string(),
        segments: segments.iter().map(|s| s.to_string()).collect(),
        separator: "/".to_string(),
    }
}

fn exe() -> Location {
    place(&["proj", "src-tauri", "target", "debug", "shell"])
}

fn debug_target() -> Location {
    place(&["proj", "agent", "dist", "lise-agent.exe"])
}

fn every_event() -> Vec<Event> {
    vec![
        Event::Start,
        Event::Located { exe: exe() },
        Event::LocateFailed { reason: "gone".to_string() },
        Event::Probed { exists: true },
        Event::Probed { exists: false },
        Event::Spawned,
        Event::SpawnFailed { reason: "denied".to_string() },
        Event::Waited,
        Event::StillRunning,
        Event::Exited { status: "exit status: 1".to_string() },
        Event::PollFailed { reason: "lost".to_string() },
    ]
}

/// Feeds the events in order and returns the launcher with every action
/// that was asked for.
fn feed(launcher: Launcher, events: Vec<Event>) -> (Launcher, Vec<Option<Action>>) {
    let mut launcher = launcher;
    let mut actions = Vec::new();
    for event in events {
        let (next, action) = launcher.step(event);
        launcher = next;
        actions.push(action);
    }
    (launcher, actions)
}

fn polling() -> Launcher {
    let (launcher, _) = feed(
        Launcher::new(Variant::Launch, BuildMode::Debug),
        vec![
            Event::Start,
            Event::Located { exe: exe() },
            Event::Probed { exists: true },
            Event::Spawned,
            Event::Waited,
        ],
    );
    assert_eq!(launcher.phase, Phase::Polling);
    launcher
}

#[test]
fn the_wait_is_two_seconds() {
    assert_eq!(SETTLE_SECONDS, 2);
}

#[test]
fn a_new_launcher_is_idle() {
    let launcher = Launcher::new(Variant::Launch, BuildMode::Release);
    assert_eq!(
        launcher,
        Launcher { variant: Variant::Launch, mode: BuildMode::Release, phase: Phase::Idle }
    );
    assert!(!launcher.is_done());
}

#[test]
fn successful_launch_runs_through_every_phase() {
    let launcher = Launcher::new(Variant::Launch, BuildMode::Debug);

    let (launcher, action) = launcher.step(Event::Start);
    assert_eq!(launcher.phase, Phase::Locating);
    assert_eq!(action, Some(Action::Locate));

    let (launcher, action) = launcher.step(Event::Located { exe: exe() });
    assert_eq!(launcher.phase, Phase::Probing { target: debug_target() });
    assert_eq!(action, Some(Action::Probe { target: debug_target() }));

    let (launcher, action) = launcher.step(Event::Probed { exists: true });
    assert_eq!(launcher.phase, Phase::Spawning);
    assert_eq!(action, Some(Action::Spawn { target: debug_target(), capture_output: true }));

    let (launcher, action) = launcher.step(Event::Spawned);
    assert_eq!(launcher.phase, Phase::Settling);
    assert_eq!(action, Some(Action::Wait { seconds: 2 }));

    let (launcher, action) = launcher.step(Event::Waited);
    assert_eq!(launcher.phase, Phase::Polling);
    assert_eq!(action, Some(Action::Poll));

    let (launcher, action) = launcher.step(Event::StillRunning);
    assert_eq!(launcher.phase, Phase::Done);
    assert!(launcher.is_done());
    assert_eq!(action, Some(Action::Conclude { outcome: Outcome::Running }));
    assert_eq!(launcher.variant, Variant::Launch);
    assert_eq!(launcher.mode, BuildMode::Debug);
}

#[test]
fn release_launch_probes_beside_the_executable() {
    let (launcher, actions) = feed(
        Launcher::new(Variant::Launch, BuildMode::Release),
        vec![Event::Start, Event::Located { exe: place(&["opt", "lise", "shell"]) }],
    );
    let target = place(&["opt", "lise", "lise-agent.exe"]);
    assert_eq!(launcher.phase, Phase::Probing { target: target.clone() });
    assert_eq!(actions[1], Some(Action::Probe { target }));
}

#[test]
fn missing_companion_is_reported_and_never_spawned() {
    let (launcher, actions) = feed(
        Launcher::new(Variant::Launch, BuildMode::Debug),
        vec![Event::Start, Event::Located { exe: exe() }, Event::Probed { exists: false }],
    );
    assert!(launcher.is_done());
    assert_eq!(
        actions[2],
        Some(Action::Conclude {
            outcome: Outcome::Failed(LaunchError::PathNotFound(
                "Python agent not found at: /proj/agent/dist/lise-agent.exe".to_string()
            )),
        })
    );
    let (launcher, later) = feed(launcher, every_event());
    assert!(launcher.is_done());
    assert!(later.iter().all(|action| action.is_none()));
    assert!(!actions.iter().any(|action| matches!(action, Some(Action::Spawn { .. }))));
}

#[test]
fn early_exit_is_reported_with_its_status() {
    let (launcher, action) = polling().step(Event::Exited { status: "exit status: 1".to_string() });
    assert!(launcher.is_done());
    assert_eq!(
        action,
        Some(Action::Conclude {
            outcome: Outcome::Failed(LaunchError::ProcessError(
                "Python agent exited early with status: exit status: 1".to_string()
            )),
        })
    );
}

#[test]
fn failed_status_check_is_reported() {
    let (launcher, action) =
        polling().step(Event::PollFailed { reason: "Invalid argument (os error 22)".to_string() });
    assert!(launcher.is_done());
    assert_eq!(
        action,
        Some(Action::Conclude {
            outcome: Outcome::Failed(LaunchError::ProcessError(
                "Failed to check agent status: Invalid argument (os error 22)".to_string()
            )),
        })
    );
}

#[test]
fn failed_spawn_is_reported_in_the_systems_words() {
    let (launcher, actions) = feed(
        Launcher::new(Variant::Launch, BuildMode::Debug),
        vec![
            Event::Start,
            Event::Located { exe: exe() },
            Event::Probed { exists: true },
            Event::SpawnFailed { reason: "Permission denied (os error 13)".to_string() },
        ],
    );
    assert!(launcher.is_done());
    assert_eq!(
        actions[3],
        Some(Action::Conclude {
            outcome: Outcome::Failed(LaunchError::ProcessError(
                "Permission denied (os error 13)".to_string()
            )),
        })
    );
}

#[test]
fn unknown_executable_location_is_reported() {
    let (launcher, actions) = feed(
        Launcher::new(Variant::Launch, BuildMode::Release),
        vec![Event::Start, Event::LocateFailed { reason: "no such file".to_string() }],
    );
    assert!(launcher.is_done());
    assert_eq!(
        actions[1],
        Some(Action::Conclude {
            outcome: Outcome::Failed(LaunchError::ProcessError("no such file".to_string())),
        })
    );
}

#[test]
fn running_process_is_not_watched_any_further() {
    let (launcher, action) = polling().step(Event::StillRunning);
    assert_eq!(action, Some(Action::Conclude { outcome: Outcome::Running }));
    let (launcher, later) = feed(launcher, every_event());
    assert_eq!(launcher.phase, Phase::Done);
    assert_eq!(later.len(), 11);
    assert!(later.iter().all(|action| action.is_none()));
}

#[test]
fn assuming_variant_never_spawns_and_setup_succeeds() {
    let launcher = Launcher::new(Variant::AssumeRunning, BuildMode::Debug);
    let (launcher, action) = launcher.step(Event::Start);
    assert!(launcher.is_done());
    assert_eq!(action, Some(Action::Conclude { outcome: Outcome::AssumedRunning }));
    assert!(report(&Outcome::AssumedRunning).setup_ok);
    let (launcher, later) = feed(launcher, every_event());
    assert!(launcher.is_done());
    assert!(later.iter().all(|action| action.is_none()));
}

#[test]
fn assuming_variant_ignores_everything_before_the_start() {
    let mut events = every_event();
    events.remove(0);
    for mode in [BuildMode::Debug, BuildMode::Release] {
        let (launcher, actions) =
            feed(Launcher::new(Variant::AssumeRunning, mode), events.clone());
        assert_eq!(launcher.phase, Phase::Idle);
        assert!(actions.iter().all(|action| action.is_none()));
    }
}

#[test]
fn events_out_of_turn_change_nothing() {
    let (launcher, _) = feed(
        Launcher::new(Variant::Launch, BuildMode::Debug),
        vec![Event::Start, Event::Located { exe: exe() }],
    );
    let before = launcher.clone();
    let out_of_turn = vec![
        Event::Start,
        Event::Located { exe: exe() },
        Event::LocateFailed { reason: "gone".to_string() },
        Event::Spawned,
        Event::SpawnFailed { reason: "denied".to_string() },
        Event::Waited,
        Event::StillRunning,
        Event::Exited { status: "1".to_string() },
        Event::PollFailed { reason: "lost".to_string() },
    ];
    let (launcher, actions) = feed(launcher, out_of_turn);
    assert_eq!(launcher, before);
    assert!(actions.iter().all(|action| action.is_none()));
}

#[test]
fn idle_launcher_waits_for_the_start() {
    let (launcher, actions) = feed(
        Launcher::new(Variant::Launch, BuildMode::Debug),
        vec![Event::Probed { exists: true }, Event::Spawned, Event::StillRunning],
    );
    assert_eq!(launcher.phase, Phase::Idle);
    assert!(actions.iter().all(|action| action.is_none()));
}

#[test]
fn spawn_is_asked_for_once_in_a_whole_launch() {
    let (_, actions) = feed(
        Launcher::new(Variant::Launch, BuildMode::Debug),
        vec![
            Event::Start,
            Event::Located { exe: exe() },
            Event::Probed { exists: true },
            Event::Probed { exists: true },
            Event::Spawned,
            Event::Waited,
            Event::StillRunning,
            Event::Probed { exists: true },
        ],
    );
    let spawns = actions.iter().filter(|a| matches!(a, Some(Action::Spawn { .. }))).count();
    assert_eq!(spawns, 1);
}

//! The launch attempt as a state machine. The caller performs each action
//! (reading the executable's location, probing the filesystem, starting the
//! process, sleeping, polling) and hands what it observed back as an event.

use crate::location::{spec_companion, BuildMode, Location, LocationView};
use crate::outcome::{
    spec_exited_early, spec_not_found, spec_os_failure, spec_status_unknown, LaunchError,
    Outcome, OutcomeView,
};
use vstd::prelude::*;

verus! {

/// Seconds that a freshly started companion process is given before its
/// status is checked.
pub const SETTLE_SECONDS: u64 = 2;

/// Which startup hook the shell runs.
#[derive(Clone, Copy, Debug, PartialEq, Eq, Structural)]
pub enum Variant {
    /// Start the companion process and check that it stays up.
    Launch,
    /// Start nothing: the companion is taken to be running already.
    AssumeRunning,
}

/// How far a launch attempt has come.
#[derive(Clone, Debug, PartialEq, Eq)]
pub enum Phase {
    /// Nothing has happened yet.
    Idle,
    /// The location of the running executable was asked for.
    Locating,
    /// The existence of the companion executable at `target` was asked for.
    Probing { target: Location },
    /// The start of the companion process was asked for.
    Spawning,
    /// The wait after the start is running.
    Settling,
    /// The single status check was asked for.
    Polling,
    /// The attempt is over; the process, if any, is on its own.
    Done,
}

/// Mathematical value of a [`Phase`].
pub enum PhaseView {
    Idle,
    Locating,
    Probing { target: LocationView },
    Spawning,
    Settling,
    Polling,
    Done,
}

impl View for Phase {
    type V = PhaseView;

    open spec fn view(&self) -> PhaseView {
        match self {
            Phase::Idle => PhaseView::Idle,
            Phase::Locating => PhaseView::Locating,
            Phase::Probing { target } => PhaseView::Probing { target: target@ },
            Phase::Spawning => PhaseView::Spawning,
            Phase::Settling => PhaseView::Settling,
            Phase::Polling => PhaseView::Polling,
            Phase::Done => PhaseView::Done,
        }
    }
}

/// What the caller observed.
#[derive(Clone, Debug, PartialEq, Eq)]
pub enum Event {
    /// The startup hook was invoked.
    Start,
    /// The running executable lies at `exe`.
    Located { exe: Location },
    /// The location of the running executable could not be read.
    LocateFailed { reason: String },
    /// Whether the companion executable exists.
    Probed { exists: bool },
    /// The companion process was started.
    Spawned,
    /// The companion process could not be started.
    SpawnFailed { reason: String },
    /// The wait is over.
    Waited,
    /// The status check found the process running.
    StillRunning,
    /// The status check found that the process has ended, with `status` as
    /// the operating system words it.
    Exited { status: String },
    /// The status check itself failed.
    PollFailed { reason: String },
}

/// Mathematical value of an [`Event`].
pub enum EventView {
    Start,
    Located { exe: LocationView },
    LocateFailed { reason: Seq<char> },
    Probed { exists: bool },
    Spawned,
    SpawnFailed { reason: Seq<char> },
    Waited,
    StillRunning,
    Exited { status: Seq<char> },
    PollFailed { reason: Seq<char> },
}

impl View for Event {
    type V = EventView;

    open spec fn view(&self) -> EventView {
        match self {
            Event::Start => EventView::Start,
            Event::Located { exe } => EventView::Located { exe: exe@ },
            Event::LocateFailed { reason } => EventView::LocateFailed { reason: reason@ },
            Event::Probed { exists } => EventView::Probed { exists: *exists },
            Event::Spawned => EventView::Spawned,
            Event::SpawnFailed { reason } => EventView::SpawnFailed { reason: reason@ },
            Event::Waited => EventView::Waited,
            Event::StillRunning => EventView::StillRunning,
            Event::Exited { status } => EventView::Exited { status: status@ },
            Event::PollFailed { reason } => EventView::PollFailed { reason: reason@ },
        }
    }
}

/// What the caller is to do next.
#[derive(Clone, Debug, PartialEq, Eq)]
pub enum Action {
    /// Read the location of the running executable.
    Locate,
    /// Find out whether a file exists at `target`.
    Probe { target: Location },
    /// Start the executable at `target` as a child process of its own, with
    /// the environment of the caller. With `capture_output`, its standard
    /// output and standard error go to pipes that the caller holds and does
    /// not read.
    Spawn { target: Location, capture_output: bool },
    /// Block for `seconds` seconds.
    Wait { seconds: u64 },
    /// Check once, without blocking, whether the child process has ended.
    Poll,
    /// Let go of the child process, if any, and report `outcome`.
    Conclude { outcome: Outcome },
}

/// Mathematical value of an [`Action`].
pub enum ActionView {
    Locate,
    Probe { target: LocationView },
    Spawn { target: LocationView, capture_output: bool },
    Wait { seconds: u64 },
    Poll,
    Conclude { outcome: OutcomeView },
}

impl View for Action {
    type V = ActionView;

    open spec fn view(&self) -> ActionView {
        match self {
            Action::Locate => ActionView::Locate,
            Action::Probe { target } => ActionView::Probe { target: target@ },
            Action::Spawn { target, capture_output } => ActionView::Spawn {
                target: target@,
                capture_output: *capture_output,
            },
            Action::Wait { seconds } => ActionView::Wait { seconds: *seconds },
            Action::Poll => ActionView::Poll,
            Action::Conclude { outcome } => ActionView::Conclude { outcome: outcome@ },
        }
    }
}

/// The value of an optional action.
pub open spec fn action_view(action: Option<Action>) -> Option<ActionView> {
    match action {
        Some(action) => Some(action@),
        None => None,
    }
}

/// A launch attempt: its fixed configuration and how far it has come.
#[derive(Clone, Debug, PartialEq, Eq)]
pub struct Launcher {
    pub variant: Variant,
    pub mode: BuildMode,
    pub phase: Phase,
}

/// Mathematical value of a [`Launcher`].
pub struct LauncherView {
    pub variant: Variant,
    pub mode: BuildMode,
    pub phase: PhaseView,
}

impl View for Launcher {
    type V = LauncherView;

    open spec fn view(&self) -> LauncherView {
        LauncherView { variant: self.variant, mode: self.mode, phase: self.phase@ }
    }
}

/// A step that ends the attempt with `outcome`.
pub open spec fn conclude(outcome: OutcomeView) -> (PhaseView, Option<ActionView>) {
    (PhaseView::Done, Some(ActionView::Conclude { outcome }))
}

/// The phase that follows `phase` on `event`, and the action to perform.
/// An event that the phase does not wait for changes nothing and asks for
/// nothing.
pub open spec fn spec_step(
    variant: Variant,
    mode: BuildMode,
    phase: PhaseView,
    event: EventView,
) -> (PhaseView, Option<ActionView>) {
    match (phase, event) {
        (PhaseView::Idle, EventView::Start) => match variant {
            Variant::Launch => (PhaseView::Locating, Some(ActionView::Locate)),
            Variant::AssumeRunning => conclude(OutcomeView::AssumedRunning),
        },
        (PhaseView::Locating, EventView::Located { exe }) => (
            PhaseView::Probing { target: spec_companion(exe, mode) },
            Some(ActionView::Probe { target: spec_companion(exe, mode) }),
        ),
        (PhaseView::Locating, EventView::LocateFailed { reason }) => conclude(
            OutcomeView::Failed(spec_os_failure(reason)),
        ),
        (PhaseView::Probing { target }, EventView::Probed { exists }) => if exists {
            (PhaseView::Spawning, Some(ActionView::Spawn { target, capture_output: true }))
        } else {
            conclude(OutcomeView::Failed(spec_not_found(target)))
        },
        (PhaseView::Spawning, EventView::Spawned) => (
            PhaseView::Settling,
            Some(ActionView::Wait { seconds: SETTLE_SECONDS }),
        ),
        (PhaseView::Spawning, EventView::SpawnFailed { reason }) => conclude(
            OutcomeView::Failed(spec_os_failure(reason)),
        ),
        (PhaseView::Settling, EventView::Waited) => (PhaseView::Polling, Some(ActionView::Poll)),
        (PhaseView::Polling, EventView::StillRunning) => conclude(OutcomeView::Running),
        (PhaseView::Polling, EventView::Exited { status }) => conclude(
            OutcomeView::Failed(spec_exited_early(status)),
        ),
        (PhaseView::Polling, EventView::PollFailed { reason }) => conclude(
            OutcomeView::Failed(spec_status_unknown(reason)),
        ),
        _ => (phase, None),
    }
}

/// The phase reached from `phase` after `events`, in order.
pub open spec fn spec_run(
    variant: Variant,
    mode: BuildMode,
    phase: PhaseView,
    events: Seq<EventView>,
) -> PhaseView
    decreases events.len(),
{
    if events.len() == 0 {
        phase
    } else {
        spec_step(variant, mode, spec_run(variant, mode, phase, events.drop_last()), events.last()).0
    }
}

/// The phase in which a fresh launcher receives the event at `index` of
/// `events`.
pub open spec fn spec_phase_at(
    variant: Variant,
    mode: BuildMode,
    events: Seq<EventView>,
    index: int,
) -> PhaseView {
    spec_run(variant, mode, PhaseView::Idle, events.take(index))
}

/// The action that a fresh launcher asks for on the event at `index` of
/// `events`.
pub open spec fn spec_action_at(
    variant: Variant,
    mode: BuildMode,
    events: Seq<EventView>,
    index: int,
) -> Option<ActionView> {
    spec_step(variant, mode, spec_phase_at(variant, mode, events, index), events[index]).1
}

/// Whether `event` is an observation that performing `action` can give.
pub open spec fn spec_answers(action: ActionView, event: EventView) -> bool {
    match action {
        ActionView::Locate => event is Located || event is LocateFailed,
        ActionView::Probe { .. } => event is Probed,
        ActionView::Spawn { .. } => event is Spawned || event is SpawnFailed,
        ActionView::Wait { .. } => event is Waited,
        ActionView::Poll => event is StillRunning || event is Exited || event is PollFailed,
        ActionView::Conclude { .. } => false,
    }
}

/// How far a phase lies along the course of an attempt.
pub open spec fn spec_progress(phase: PhaseView) -> nat {
    match phase {
        PhaseView::Idle => 0,
        PhaseView::Locating => 1,
        PhaseView::Probing { .. } => 2,
        PhaseView::Spawning => 3,
        PhaseView::Settling => 4,
        PhaseView::Polling => 5,
        PhaseView::Done => 6,
    }
}

impl Launcher {
    /// A launcher that has not done anything yet.
    pub fn new(variant: Variant, mode: BuildMode) -> (launcher: Launcher)
        ensures
            launcher@ == (LauncherView { variant, mode, phase: PhaseView::Idle }),
    {
        Launcher { variant, mode, phase: Phase::Idle }
    }

    /// Whether the attempt is over.
    pub fn is_done(&self) -> (answer: bool)
        ensures
            answer == (self@.phase is Done),
    {
        match &self.phase {
            Phase::Done => true,
            _ => false,
        }
    }

    /// Takes in `event` and says what to do next, if anything.
    pub fn step(self, event: Event) -> (next: (Launcher, Option<Action>))
        ensures
            next.0@.variant == self@.variant,
            next.0@.mode == self@.mode,
            (next.0@.phase, action_view(next.1)) == spec_step(
                self@.variant,
                self@.mode,
                self@.phase,
                event@,
            ),
    {
        let variant = self.variant;
        let mode = self.mode;
        let (phase, action): (Phase, Option<Action>) = match self.phase {
            Phase::Idle => match event {
                Event::Start => match variant {
                    Variant::Launch => (Phase::Locating, Some(Action::Locate)),
                    Variant::AssumeRunning => (
                        Phase::Done,
                        Some(Action::Conclude { outcome: Outcome::AssumedRunning }),
                    ),
                },
                _ => (Phase::Idle, None),
            },
            Phase::Locating => match event {
                Event::Located { exe } => {
                    let target = exe.companion(mode);
                    let probed = target.duplicate();
                    (Phase::Probing { target }, Some(Action::Probe { target: probed }))
                },
                Event::LocateFailed { reason } => (
                    Phase::Done,
                    Some(Action::Conclude { outcome: Outcome::Failed(LaunchError::os_failure(reason)) }),
                ),
                _ => (Phase::Locating, None),
            },
            Phase::Probing { target } => match event {
                Event::Probed { exists } => if exists {
                    (Phase::Spawning, Some(Action::Spawn { target, capture_output: true }))
                } else {
                    (
                        Phase::Done,
                        Some(
                            Action::Conclude {
                                outcome: Outcome::Failed(LaunchError::not_found(&target)),
                            },
                        ),
                    )
                },
                _ => (Phase::Probing { target }, None),
            },
            Phase::Spawning => match event {
                Event::Spawned => (Phase::Settling, Some(Action::Wait { seconds: SETTLE_SECONDS })),
                Event::SpawnFailed { reason } => (
                    Phase::Done,
                    Some(Action::Conclude { outcome: Outcome::Failed(LaunchError::os_failure(reason)) }),
                ),
                _ => (Phase::Spawning, None),
            },
            Phase::Settling => match event {
                Event::Waited => (Phase::Polling, Some(Action::Poll)),
                _ => (Phase::Settling, None),
            },
            Phase::Polling => match event {
                Event::StillRunning => (
                    Phase::Done,
                    Some(Action::Conclude { outcome: Outcome::Running }),
                ),
                Event::Exited { status } => (
                    Phase::Done,
                    Some(
                        Action::Conclude {
                            outcome: Outcome::Failed(LaunchError::exited_early(status.as_str())),
                        },
                    ),
                ),
                Event::PollFailed { reason } => (
                    Phase::Done,
                    Some(
                        Action::Conclude {
                            outcome: Outcome::Failed(LaunchError::status_unknown(reason.as_str())),
                        },
                    ),
                ),
                _ => (Phase::Polling, None),
            },
            Phase::Done => (Phase::Done, None),
        };
        (Launcher { variant, mode, phase }, action)
    }
}

/// Once the attempt is over, no event changes that and none asks for an
/// action.
pub proof fn law_done_is_final(variant: Variant, mode: BuildMode, events: Seq<EventView>)
    ensures
        spec_run(variant, mode, PhaseView::Done, events) == PhaseView::Done,
    decreases events.len(),
{
    if events.len() > 0 {
        law_done_is_final(variant, mode, events.drop_last());
    }
}

/// A run of events can be cut anywhere: the second part goes on from where
/// the first part ended.
pub proof fn law_run_splits(
    variant: Variant,
    mode: BuildMode,
    phase: PhaseView,
    events: Seq<EventView>,
    cut: int,
)
    requires
        0 <= cut <= events.len(),
    ensures
        spec_run(variant, mode, phase, events) == spec_run(
            variant,
            mode,
            spec_run(variant, mode, phase, events.take(cut)),
            events.skip(cut),
        ),
    decreases events.len() - cut,
{
    if cut == events.len() {
        assert(events.take(cut) =~= events);
    } else {
        law_run_splits(variant, mode, phase, events.drop_last(), cut);
        assert(events.drop_last().take(cut) =~= events.take(cut));
        assert(events.drop_last().skip(cut) =~= events.skip(cut).drop_last());
        assert(events.skip(cut).last() == events.last());
    }
}

/// An attempt never goes back: no run of events leads to an earlier phase,
/// and an event that is answered with an action leads to a later one.
pub proof fn law_attempt_never_goes_back(
    variant: Variant,
    mode: BuildMode,
    phase: PhaseView,
    events: Seq<EventView>,
)
    ensures
        spec_progress(phase) <= spec_progress(spec_run(variant, mode, phase, events)),
        forall|event: EventView| #[trigger]
            spec_step(variant, mode, phase, event).1.is_some() ==> spec_progress(phase)
                < spec_progress(spec_step(variant, mode, phase, event).0),
    decreases events.len(),
{
    if events.len() > 0 {
        law_attempt_never_goes_back(variant, mode, phase, events.drop_last());
    }
}

/// The launcher never stalls: when the caller answers an action with an
/// observation that the action can give, the launcher asks for the next
/// action. Only a conclusion has no answer.
pub proof fn law_answer_is_never_ignored(
    variant: Variant,
    mode: BuildMode,
    phase: PhaseView,
    event: EventView,
    answer: EventView,
)
    requires
        spec_step(variant, mode, phase, event).1 matches Some(action) && spec_answers(
            action,
            answer,
        ),
    ensures
        spec_step(variant, mode, spec_step(variant, mode, phase, event).0, answer).1.is_some(),
{
}

/// The phases in which a fresh launcher receives its events come in order.
pub proof fn law_phases_come_in_order(
    variant: Variant,
    mode: BuildMode,
    events: Seq<EventView>,
    earlier: int,
    later: int,
)
    requires
        0 <= earlier <= later <= events.len(),
    ensures
        spec_progress(spec_phase_at(variant, mode, events, earlier)) <= spec_progress(
            spec_phase_at(variant, mode, events, later),
        ),
{
    let upto = events.take(later);
    assert(upto.take(earlier) =~= events.take(earlier));
    law_run_splits(variant, mode, PhaseView::Idle, upto, earlier);
    law_attempt_never_goes_back(
        variant,
        mode,
        spec_phase_at(variant, mode, events, earlier),
        upto.skip(earlier),
    );
}

/// The phase that follows the event at `index` is the phase in which the
/// next event is received.
pub proof fn law_phase_follows_step(
    variant: Variant,
    mode: BuildMode,
    events: Seq<EventView>,
    index: int,
)
    requires
        0 <= index < events.len(),
    ensures
        spec_phase_at(variant, mode, events, index + 1) == spec_step(
            variant,
            mode,
            spec_phase_at(variant, mode, events, index),
            events[index],
        ).0,
{
    assert(events.take(index + 1).drop_last() =~= events.take(index));
    assert(events.take(index + 1).last() == events[index]);
}

/// Whatever the events, the companion process is started at most once.
pub proof fn law_spawned_at_most_once(
    variant: Variant,
    mode: BuildMode,
    events: Seq<EventView>,
    first: int,
    second: int,
)
    requires
        0 <= first < second < events.len(),
        spec_action_at(variant, mode, events, first) matches Some(ActionView::Spawn { .. }),
    ensures
        !(spec_action_at(variant, mode, events, second) matches Some(ActionView::Spawn { .. })),
{
    law_phase_follows_step(variant, mode, events, first);
    law_phases_come_in_order(variant, mode, events, first + 1, second);
}

/// Whatever the events, an action that concludes the attempt is the last
/// one: every later event is answered with no action at all, so nothing is
/// started, polled or waited for after it.
pub proof fn law_nothing_follows_a_conclusion(
    variant: Variant,
    mode: BuildMode,
    events: Seq<EventView>,
    first: int,
    later: int,
)
    requires
        0 <= first < later < events.len(),
        spec_action_at(variant, mode, events, first) matches Some(action) && action is Conclude,
    ensures
        spec_phase_at(variant, mode, events, later) == PhaseView::Done,
        spec_action_at(variant, mode, events, later).is_none(),
{
    law_phase_follows_step(variant, mode, events, first);
    law_phases_come_in_order(variant, mode, events, first + 1, later);
}

/// The companion process is started on one occasion only: when the probe
/// that was asked for reports that the executable exists, and then at the
/// very location that was probed, with its output captured.
pub proof fn law_spawn_needs_existing_target(
    variant: Variant,
    mode: BuildMode,
    phase: PhaseView,
    event: EventView,
)
    ensures
        spec_step(variant, mode, phase, event).1 matches Some(
            ActionView::Spawn { target, capture_output },
        ) ==> phase == (PhaseView::Probing { target }) && event == (EventView::Probed {
            exists: true,
        }) && capture_output,
{
}

/// When the companion executable is missing, the attempt ends there with a
/// `PathNotFound` error, and in the whole run, before and after, the
/// process is never started.
pub proof fn law_missing_target_is_never_spawned(
    variant: Variant,
    mode: BuildMode,
    events: Seq<EventView>,
    index: int,
    other: int,
)
    requires
        0 <= index < events.len(),
        0 <= other < events.len(),
        spec_phase_at(variant, mode, events, index) is Probing,
        events[index] == (EventView::Probed { exists: false }),
    ensures
        spec_action_at(variant, mode, events, index) == Some(
            ActionView::Conclude {
                outcome: OutcomeView::Failed(
                    spec_not_found(spec_phase_at(variant, mode, events, index)->target),
                ),
            },
        ),
        spec_not_found(spec_phase_at(variant, mode, events, index)->target) is PathNotFound,
        !(spec_action_at(variant, mode, events, other) matches Some(ActionView::Spawn { .. })),
        other > index ==> spec_action_at(variant, mode, events, other).is_none(),
{
    if other > index {
        law_nothing_follows_a_conclusion(variant, mode, events, index, other);
    } else if other < index {
        law_phase_follows_step(variant, mode, events, other);
        law_phases_come_in_order(variant, mode, events, other + 1, index);
    }
}

/// When the status check finds that the process has ended, the attempt
/// ends with a `ProcessError` that carries the exit status.
pub proof fn law_early_exit_is_reported(
    variant: Variant,
    mode: BuildMode,
    events: Seq<EventView>,
    index: int,
    status: Seq<char>,
)
    requires
        0 <= index < events.len(),
        spec_phase_at(variant, mode, events, index) is Polling,
        events[index] == (EventView::Exited { status }),
    ensures
        spec_action_at(variant, mode, events, index) == Some(
            ActionView::Conclude { outcome: OutcomeView::Failed(spec_exited_early(status)) },
        ),
        spec_exited_early(status) is ProcessError,
        spec_exited_early(status).message().len() >= status.len(),
        spec_exited_early(status).message().skip(
            spec_exited_early(status).message().len() - status.len(),
        ) == status,
{
    let message = spec_exited_early(status).message();
    assert(message.skip(message.len() - status.len()) =~= status);
}

/// When the status check finds the process running, the attempt ends in
/// success, and no later event is answered with an action: the process is
/// not watched any further.
pub proof fn law_running_process_is_left_alone(
    variant: Variant,
    mode: BuildMode,
    events: Seq<EventView>,
    index: int,
    later: int,
)
    requires
        0 <= index < later < events.len(),
        spec_phase_at(variant, mode, events, index) is Polling,
        events[index] == EventView::StillRunning,
    ensures
        spec_action_at(variant, mode, events, index) == Some(
            ActionView::Conclude { outcome: OutcomeView::Running },
        ),
        spec_action_at(variant, mode, events, later).is_none(),
{
    law_nothing_follows_a_conclusion(variant, mode, events, index, later);
}

/// A launcher that assumes a running companion is idle until it is started
/// and done from then on.
pub proof fn law_assuming_launcher_is_idle_or_done(mode: BuildMode, events: Seq<EventView>)
    ensures
        spec_run(Variant::AssumeRunning, mode, PhaseView::Idle, events) is Idle || spec_run(
            Variant::AssumeRunning,
            mode,
            PhaseView::Idle,
            events,
        ) is Done,
    decreases events.len(),
{
    if events.len() > 0 {
        law_assuming_launcher_is_idle_or_done(mode, events.drop_last());
    }
}

/// A launcher that assumes a running companion never asks for a process to
/// be started, whatever the events: its one action is to conclude, on the
/// first start event, that the companion is taken to be running.
pub proof fn law_assuming_launcher_never_spawns(
    mode: BuildMode,
    events: Seq<EventView>,
    index: int,
)
    requires
        0 <= index < events.len(),
    ensures
        !(spec_action_at(Variant::AssumeRunning, mode, events, index) matches Some(
            ActionView::Spawn { .. },
        )),
        spec_action_at(Variant::AssumeRunning, mode, events, index) == if spec_phase_at(
            Variant::AssumeRunning,
            mode,
            events,
            index,
        ) is Idle && events[index] is Start {
            Some(ActionView::Conclude { outcome: OutcomeView::AssumedRunning })
        } else {
            None
        },
{
    law_assuming_launcher_is_idle_or_done(mode, events.take(index));
}

} // verus!

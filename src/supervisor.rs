use vstd::prelude::*;

use crate::command::{command_count, command_spec, launch_command, LaunchCommand, Platform};
use crate::directory::{
    base_dir_choice, exe_dir_of, joined_of, marker_path, resolve_base_dir, MARKER_FILE,
};
use crate::error::SupervisorError;

verus! {

/// Seconds to wait for the server once it has been spawned.
pub const READY_WAIT_SECS: u64 = 10;

/// Seconds to wait when no server was spawned: it might come up some other way.
pub const FALLBACK_WAIT_SECS: u64 = 5;

/// What a missing marker file means for the launch.
#[derive(Clone, Copy, Debug, PartialEq, Eq, Structural)]
pub enum MarkerPolicy {
    /// A warning is reported and the server is started all the same.
    Advisory,
    /// A warning is reported and the server is not started.
    Required,
}

/// The fixed choices a supervisor is made with.
#[derive(Clone, Copy, Debug, PartialEq, Eq, Structural)]
pub struct SupervisorConfig {
    pub platform: Platform,
    pub marker_policy: MarkerPolicy,
}

/// Where the supervisor stands in bringing the application up.
///
/// A spawned server is never stopped by the supervisor: it is deliberately
/// detached and outlives the window.
#[derive(Debug)]
pub enum Phase {
    /// Nothing has happened yet.
    Start,
    /// Waiting for the executable's path and the working directory.
    ResolvingDirectory,
    /// Waiting to learn whether the marker file exists in `base_dir`.
    CheckingMarker { base_dir: String },
    /// Waiting for the outcome of spawning the command of attempt `attempt`.
    Launching { base_dir: String, attempt: usize },
    /// Waiting for the readiness delay to pass.
    AwaitingReadiness { launched: bool },
    /// Waiting for the GUI runtime to take over.
    OpeningWindow { launched: bool },
    /// The GUI runtime has taken over.
    Running { launched: bool },
    /// A fatal error ended the sequence.
    Failed,
}

/// What the caller observed after carrying out the last action.
#[derive(Debug)]
pub enum Event {
    /// The sequence is to begin.
    Begin,
    /// The running executable's path and the working directory, where known.
    DirectoryFound { exe_path: Option<String>, cwd: Option<String> },
    /// Whether the marker file exists.
    MarkerChecked { present: bool },
    /// The server process was created.
    SpawnSucceeded,
    /// The server process could not be created, for the reason given.
    SpawnFailed { detail: String },
    /// The requested delay has passed.
    WaitElapsed,
    /// The GUI runtime took over and has finished.
    WindowOpened,
    /// The GUI runtime could not be started, for the reason given.
    WindowFailed { detail: String },
}

/// What the caller is to do next.
#[derive(Debug)]
pub enum Action {
    /// Report the executable's path and the working directory.
    ResolveDirectory,
    /// Report whether the file at `path` exists.
    CheckMarker { path: String },
    /// Spawn `command` with `dir` as its working directory, and keep the child.
    Spawn { command: LaunchCommand, dir: String },
    /// Block for `secs` seconds.
    Wait { secs: u64 },
    /// Hand control to the GUI runtime.
    OpenWindow,
    /// Stop: `error` is fatal.
    Abort { error: SupervisorError },
    /// Nothing is left to do for this event.
    Idle,
}

/// The action to carry out, and a warning to report first, if any.
#[derive(Debug)]
pub struct Step {
    pub action: Action,
    pub warning: Option<SupervisorError>,
}

/// The supervisor of one launch sequence. All of its state is in the value:
/// two supervisors share nothing.
#[derive(Debug)]
pub struct Supervisor {
    pub config: SupervisorConfig,
    pub phase: Phase,
}

/// The order in which phases are passed through; no step goes back.
pub open spec fn rank(p: Phase) -> nat {
    match p {
        Phase::Start => 0,
        Phase::ResolvingDirectory => 1,
        Phase::CheckingMarker { .. } => 2,
        Phase::Launching { .. } => 3,
        Phase::AwaitingReadiness { .. } => 4,
        Phase::OpeningWindow { .. } => 5,
        Phase::Running { .. } => 6,
        Phase::Failed => 7,
    }
}

/// `a` asks to spawn the command of attempt `attempt` on `platform` in `dir`.
pub open spec fn spawns(a: Action, platform: Platform, attempt: nat, dir: Seq<char>) -> bool {
    a matches Action::Spawn { command, dir: d } && command_spec(platform, attempt) == Some(
        command.view_parts(),
    ) && d@ == dir
}

/// `w` is the warning that the marker file is missing from `dir`.
pub open spec fn marker_warning(w: Option<SupervisorError>, dir: Seq<char>) -> bool {
    w matches Some(SupervisorError::MarkerFileMissing { base_dir }) && base_dir@ == dir
}

/// `w` is the warning that the command of attempt `attempt` failed with `detail`.
pub open spec fn spawn_warning(
    w: Option<SupervisorError>,
    platform: Platform,
    attempt: nat,
    detail: Seq<char>,
) -> bool {
    w matches Some(SupervisorError::SpawnFailure { program, detail: d }) && command_spec(
        platform,
        attempt,
    ) matches Some(c) && program@ == c.0 && d@ == detail
}

/// One step of the launch sequence: from state `s`, event `e` leads to state
/// `t` and the step `r`. An event that does not fit the phase changes nothing.
pub open spec fn step_spec(s: Supervisor, e: Event, t: Supervisor, r: Step) -> bool {
    &&& t.config == s.config
    &&& match (s.phase, e) {
        (Phase::Start, Event::Begin) => {
            &&& t.phase is ResolvingDirectory
            &&& r.action is ResolveDirectory
            &&& r.warning is None
        },
        (Phase::ResolvingDirectory, Event::DirectoryFound { exe_path, cwd }) => {
            &&& r.warning is None
            &&& match base_dir_choice(exe_dir_of(exe_path.deep_view()), cwd.deep_view()) {
                Some(d) => {
                    &&& t.phase matches Phase::CheckingMarker { base_dir } && base_dir@ == d
                    &&& r.action matches Action::CheckMarker { path } && path@ == joined_of(
                        d,
                        MARKER_FILE@,
                    )
                },
                None => {
                    &&& t.phase is Failed
                    &&& r.action matches Action::Abort { error }
                        && error is DirectoryResolutionFailure
                },
            }
        },
        (Phase::CheckingMarker { base_dir }, Event::MarkerChecked { present }) => {
            &&& if present {
                r.warning is None
            } else {
                marker_warning(r.warning, base_dir@)
            }
            &&& if present || s.config.marker_policy == MarkerPolicy::Advisory {
                &&& t.phase matches Phase::Launching { base_dir: b, attempt } && b == base_dir
                    && attempt == 0
                &&& spawns(r.action, s.config.platform, 0, base_dir@)
            } else {
                &&& t.phase == Phase::AwaitingReadiness { launched: false }
                &&& r.action == Action::Wait { secs: FALLBACK_WAIT_SECS }
            }
        },
        (Phase::Launching { .. }, Event::SpawnSucceeded) => {
            &&& t.phase == Phase::AwaitingReadiness { launched: true }
            &&& r.action == Action::Wait { secs: READY_WAIT_SECS }
            &&& r.warning is None
        },
        (Phase::Launching { base_dir, attempt }, Event::SpawnFailed { detail }) => {
            &&& spawn_warning(r.warning, s.config.platform, attempt as nat, detail@)
            &&& if attempt + 1 < command_count(s.config.platform) {
                &&& t.phase matches Phase::Launching { base_dir: b, attempt: a } && b == base_dir
                    && a == attempt + 1
                &&& spawns(r.action, s.config.platform, (attempt + 1) as nat, base_dir@)
            } else {
                &&& t.phase == Phase::AwaitingReadiness { launched: false }
                &&& r.action == Action::Wait { secs: FALLBACK_WAIT_SECS }
            }
        },
        (Phase::AwaitingReadiness { launched }, Event::WaitElapsed) => {
            &&& t.phase == Phase::OpeningWindow { launched }
            &&& r.action is OpenWindow
            &&& r.warning is None
        },
        (Phase::OpeningWindow { launched }, Event::WindowOpened) => {
            &&& t.phase == Phase::Running { launched }
            &&& r.action is Idle
            &&& r.warning is None
        },
        (Phase::OpeningWindow { .. }, Event::WindowFailed { detail }) => {
            &&& t.phase is Failed
            &&& r.action matches Action::Abort { error: SupervisorError::GuiRuntimeInitFailure {
                detail: d,
            } } && d@ == detail@
            &&& r.warning is None
        },
        _ => {
            &&& t.phase == s.phase
            &&& r.action is Idle
            &&& r.warning is None
        },
    }
}

impl Supervisor {
    /// While launching, the attempt names one of the platform's commands.
    pub open spec fn wf(&self) -> bool {
        self.phase matches Phase::Launching { attempt, .. } ==> attempt < command_count(
            self.config.platform,
        )
    }

    /// A fresh supervisor that has not begun.
    pub fn new(config: SupervisorConfig) -> (r: Supervisor)
        ensures
            r.config == config,
            r.phase is Start,
            r.wf(),
    {
        Supervisor { config, phase: Phase::Start }
    }

    /// Takes in what the caller observed and decides what happens next.
    pub fn step(&mut self, event: Event) -> (r: Step)
        requires
            old(self).wf(),
        ensures
            step_spec(*old(self), event, *final(self), r),
            final(self).wf(),
    {
        let platform = self.config.platform;
        match (&self.phase, event) {
            (Phase::Start, Event::Begin) => {
                self.phase = Phase::ResolvingDirectory;
                Step { action: Action::ResolveDirectory, warning: None }
            },
            (Phase::ResolvingDirectory, Event::DirectoryFound { exe_path, cwd }) => {
                match resolve_base_dir(exe_path, cwd) {
                    Ok(d) => {
                        let path = marker_path(d.as_str());
                        self.phase = Phase::CheckingMarker { base_dir: d };
                        Step { action: Action::CheckMarker { path }, warning: None }
                    },
                    Err(error) => {
                        self.phase = Phase::Failed;
                        Step { action: Action::Abort { error }, warning: None }
                    },
                }
            },
            (Phase::CheckingMarker { base_dir }, Event::MarkerChecked { present }) => {
                let base_dir = base_dir.clone();
                let warning = if present {
                    None
                } else {
                    Some(SupervisorError::MarkerFileMissing { base_dir: base_dir.clone() })
                };
                if present || self.config.marker_policy == MarkerPolicy::Advisory {
                    proof {
                        lemma_first_command(platform);
                    }
                    let command = launch_command(platform, 0).unwrap();
                    let dir = base_dir.clone();
                    self.phase = Phase::Launching { base_dir, attempt: 0 };
                    Step { action: Action::Spawn { command, dir }, warning }
                } else {
                    self.phase = Phase::AwaitingReadiness { launched: false };
                    Step { action: Action::Wait { secs: FALLBACK_WAIT_SECS }, warning }
                }
            },
            (Phase::Launching { .. }, Event::SpawnSucceeded) => {
                self.phase = Phase::AwaitingReadiness { launched: true };
                Step { action: Action::Wait { secs: READY_WAIT_SECS }, warning: None }
            },
            (Phase::Launching { base_dir, attempt }, Event::SpawnFailed { detail }) => {
                let base_dir = base_dir.clone();
                let attempt = *attempt;
                let failed = launch_command(platform, attempt).unwrap();
                let warning = Some(
                    SupervisorError::SpawnFailure { program: failed.program, detail },
                );
                match launch_command(platform, attempt + 1) {
                    Some(command) => {
                        let dir = base_dir.clone();
                        self.phase = Phase::Launching { base_dir, attempt: attempt + 1 };
                        Step { action: Action::Spawn { command, dir }, warning }
                    },
                    None => {
                        self.phase = Phase::AwaitingReadiness { launched: false };
                        Step { action: Action::Wait { secs: FALLBACK_WAIT_SECS }, warning }
                    },
                }
            },
            (Phase::AwaitingReadiness { launched }, Event::WaitElapsed) => {
                self.phase = Phase::OpeningWindow { launched: *launched };
                Step { action: Action::OpenWindow, warning: None }
            },
            (Phase::OpeningWindow { launched }, Event::WindowOpened) => {
                self.phase = Phase::Running { launched: *launched };
                Step { action: Action::Idle, warning: None }
            },
            (Phase::OpeningWindow { .. }, Event::WindowFailed { detail }) => {
                self.phase = Phase::Failed;
                Step {
                    action: Action::Abort { error: SupervisorError::GuiRuntimeInitFailure { detail } },
                    warning: None,
                }
            },
            _ => Step { action: Action::Idle, warning: None },
        }
    }
}

/// No step goes back to an earlier phase, and the GUI handoff is asked for
/// only on the step from awaiting readiness to opening the window.
pub proof fn lemma_step_moves_forward(s: Supervisor, e: Event, t: Supervisor, r: Step)
    requires
        step_spec(s, e, t, r),
    ensures
        rank(s.phase) <= rank(t.phase),
        r.action is OpenWindow ==> s.phase is AwaitingReadiness && t.phase is OpeningWindow,
{
}

/// `states`, `events` and `steps` record a run: the step taken on each event
/// leads from each state to the next.
pub open spec fn is_run(states: Seq<Supervisor>, events: Seq<Event>, steps: Seq<Step>) -> bool {
    &&& states.len() == events.len() + 1
    &&& steps.len() == events.len()
    &&& forall|k: int|
        0 <= k < events.len() ==> step_spec(states[k], events[k], states[k + 1], #[trigger] steps[k])
}

proof fn lemma_run_moves_forward(
    states: Seq<Supervisor>,
    events: Seq<Event>,
    steps: Seq<Step>,
    i: int,
    j: int,
)
    requires
        is_run(states, events, steps),
        0 <= i <= j < states.len(),
    ensures
        rank(states[i].phase) <= rank(states[j].phase),
    decreases j - i,
{
    if i < j {
        lemma_run_moves_forward(states, events, steps, i, j - 1);
        lemma_step_moves_forward(states[j - 1], events[j - 1], states[j], steps[j - 1]);
    }
}

/// Whatever the events, a supervisor hands control to the GUI runtime at
/// most once.
pub proof fn lemma_window_opened_at_most_once(
    states: Seq<Supervisor>,
    events: Seq<Event>,
    steps: Seq<Step>,
    i: int,
    j: int,
)
    requires
        is_run(states, events, steps),
        0 <= i < j < steps.len(),
        steps[i].action is OpenWindow,
    ensures
        !(steps[j].action is OpenWindow),
{
    lemma_step_moves_forward(states[i], events[i], states[i + 1], steps[i]);
    lemma_run_moves_forward(states, events, steps, i + 1, j);
    lemma_step_moves_forward(states[j], events[j], states[j + 1], steps[j]);
}

/// When the last way of starting the server fails, the supervisor reports the
/// failure, waits the shorter fallback delay, and then still opens the window.
pub proof fn lemma_spawn_failure_still_opens_window(
    s: Supervisor,
    detail: String,
    t: Supervisor,
    r: Step,
    u: Supervisor,
    r2: Step,
)
    requires
        (s.phase matches Phase::Launching { attempt, .. } && attempt + 1 == command_count(
            s.config.platform,
        )),
        step_spec(s, (Event::SpawnFailed { detail }), t, r),
        step_spec(t, Event::WaitElapsed, u, r2),
    ensures
        (r.warning matches Some(SupervisorError::SpawnFailure { detail: d, .. }) && d@ == detail@),
        r.action == (Action::Wait { secs: FALLBACK_WAIT_SECS }),
        FALLBACK_WAIT_SECS < READY_WAIT_SECS,
        r2.action is OpenWindow,
        u.phase == (Phase::OpeningWindow { launched: false }),
{
}

proof fn lemma_first_command(platform: Platform)
    ensures
        command_spec(platform, 0) is Some,
        0 < command_count(platform),
{
}

} // verus!

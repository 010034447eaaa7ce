//! The supervisor state machine: the complete startup decision procedure,
//! free of side effects.
//!
//! One startup attempt is a run of the machine.  [`Supervisor::start`]
//! yields the machine and its first action; the caller performs each action
//! (probe a port, check a path, spawn a process, wait and re-probe, kill)
//! and feeds the observed result back through [`Supervisor::step`], which
//! returns the next action.  The run ends when the machine reaches a
//! [`StateModel::Done`] state carrying the outcome.
//!
//! Policy fixed here, matching the bundled-runtime behaviour: the spawned
//! child's standard streams are suppressed by the caller, the grace period
//! and ports come from the [`SupervisorConfig`], and a spawned-but-
//! unreachable process is killed exactly when `kill_on_verify_failure` is
//! set.

use vstd::prelude::*;
use vstd::string::StringExecFns;
use crate::config::ConfigModel;
use crate::config::RuntimeCandidate;
use crate::config::RuntimeCandidateModel;
use crate::config::ServerMode;
use crate::config::SupervisorConfig;
use crate::outcome::FailureReason;
use crate::outcome::OutcomeModel;
use crate::outcome::ReasonModel;
use crate::outcome::StartupOutcome;
use crate::outcome::SupervisedProcess;

verus! {

/// Joins a base directory and a relative path with a single separator.
/// Plain concatenation is the canonical joining policy of this library.
pub open spec fn join_model(base: Seq<char>, rel: Seq<char>) -> Seq<char> {
    base + seq!['/'] + rel
}

/// Joins a base directory and a relative path with a single `/` separator.
pub fn join_path(base: &String, rel: &String) -> (r: String)
    ensures
        r@ == join_model(base@, rel@),
{
    proof {
        reveal_strlit("/");
        assert(("/")@ =~= seq!['/']);
    }
    let mut s = String::from_str(base.as_str());
    s.append("/");
    s.append(rel.as_str());
    s
}

/// Duplicates a string; the copy denotes the same character sequence.
fn dup_string(s: &String) -> (r: String)
    ensures
        r@ == s@,
{
    String::from_str(s.as_str())
}

/// The character for one decimal digit.
pub open spec fn dec_digit(d: nat) -> char {
    if d == 0 {
        '0'
    } else if d == 1 {
        '1'
    } else if d == 2 {
        '2'
    } else if d == 3 {
        '3'
    } else if d == 4 {
        '4'
    } else if d == 5 {
        '5'
    } else if d == 6 {
        '6'
    } else if d == 7 {
        '7'
    } else if d == 8 {
        '8'
    } else {
        '9'
    }
}

/// The decimal digits of `n`, most significant first, without leading
/// zeroes except for `n == 0` itself.
pub open spec fn dec_string(n: nat) -> Seq<char>
    decreases n,
{
    if n < 10 {
        seq![dec_digit(n)]
    } else {
        dec_string(n / 10) + seq![dec_digit(n % 10)]
    }
}

/// Appends the character of one decimal digit.
fn push_digit(s: &mut String, d: u16)
    requires
        d < 10,
    ensures
        final(s)@ == old(s)@ + seq![dec_digit(d as nat)],
{
    proof {
        reveal_strlit("0");
        reveal_strlit("1");
        reveal_strlit("2");
        reveal_strlit("3");
        reveal_strlit("4");
        reveal_strlit("5");
        reveal_strlit("6");
        reveal_strlit("7");
        reveal_strlit("8");
        reveal_strlit("9");
    }
    match d {
        0 => s.append("0"),
        1 => s.append("1"),
        2 => s.append("2"),
        3 => s.append("3"),
        4 => s.append("4"),
        5 => s.append("5"),
        6 => s.append("6"),
        7 => s.append("7"),
        8 => s.append("8"),
        _ => s.append("9"),
    }
}

/// Renders a port number in decimal.
pub fn u16_decimal(n: u16) -> (r: String)
    ensures
        r@ == dec_string(n as nat),
    decreases n,
{
    if n < 10 {
        let mut s = String::new();
        push_digit(&mut s, n);
        proof {
            assert(s@ =~= dec_string(n as nat));
        }
        s
    } else {
        let mut s = u16_decimal(n / 10);
        push_digit(&mut s, n % 10);
        proof {
            assert(s@ =~= dec_string(n as nat));
        }
        s
    }
}

/// The environment pinned onto a spawned server, as name/value pairs in
/// order: the runtime mode fixed to production, the listening port, and the
/// marker telling the child process it was launched by this supervisor.
pub fn spawn_env(port: u16) -> (r: Vec<(String, String)>)
    ensures
        r@.len() == 3,
        r@[0].0@ == "NODE_ENV"@ && r@[0].1@ == "production"@,
        r@[1].0@ == "PORT"@ && r@[1].1@ == dec_string(port as nat),
        r@[2].0@ == "TAURI_ENV"@ && r@[2].1@ == "true"@,
{
    let mut r: Vec<(String, String)> = Vec::new();
    r.push((String::from_str("NODE_ENV"), String::from_str("production")));
    r.push((String::from_str("PORT"), u16_decimal(port)));
    r.push((String::from_str("TAURI_ENV"), String::from_str("true")));
    r
}

/// An observation the caller feeds back into the machine: the result of the
/// action the machine requested last.
#[derive(Debug)]
pub enum SupervisorEvent {
    /// Result of a loopback connection attempt: `true` only when the
    /// connection was established within the timeout.
    PortProbed { reachable: bool },
    /// Result of a filesystem existence check.
    PathChecked { exists: bool },
    /// The requested process launch succeeded with this process id.
    SpawnOk { pid: u32 },
    /// The operating system refused the launch; carries the error text.
    SpawnErr { error: String },
}

/// Mathematical model of a [`SupervisorEvent`].
pub enum EventModel {
    PortProbed { reachable: bool },
    PathChecked { exists: bool },
    SpawnOk { pid: u32 },
    SpawnErr { error: Seq<char> },
}

impl View for SupervisorEvent {
    type V = EventModel;

    open spec fn view(&self) -> EventModel {
        match self {
            SupervisorEvent::PortProbed { reachable } => EventModel::PortProbed {
                reachable: *reachable,
            },
            SupervisorEvent::PathChecked { exists } => EventModel::PathChecked {
                exists: *exists,
            },
            SupervisorEvent::SpawnOk { pid } => EventModel::SpawnOk { pid: *pid },
            SupervisorEvent::SpawnErr { error } => EventModel::SpawnErr { error: error@ },
        }
    }
}

/// The side effect the caller must perform next.
#[derive(Debug)]
pub enum SupervisorAction {
    /// Attempt one loopback TCP connection to `127.0.0.1:port`, bounded by
    /// the timeout; answer with `PortProbed`.
    ProbePort { port: u16, timeout_millis: u64 },
    /// Check whether this path exists on disk; answer with `PathChecked`.
    CheckPath { path: String },
    /// Launch `runtime` with `script` as its sole argument, the server
    /// environment pinned to production mode on `port`, and the child's
    /// standard streams suppressed; answer with `SpawnOk` or `SpawnErr`.
    Spawn { runtime: String, script: String, port: u16 },
    /// Sleep for the grace period, then probe as in `ProbePort`.
    WaitThenProbe { grace_millis: u64, port: u16, timeout_millis: u64 },
    /// Kill the spawned process; the run is over, no answer is expected.
    KillSpawned { pid: u32 },
    /// The run is over; no answer is expected.
    Finished,
}

/// Mathematical model of a [`SupervisorAction`].
pub enum ActionModel {
    ProbePort { port: u16, timeout_millis: u64 },
    CheckPath { path: Seq<char> },
    Spawn { runtime: Seq<char>, script: Seq<char>, port: u16 },
    WaitThenProbe { grace_millis: u64, port: u16, timeout_millis: u64 },
    KillSpawned { pid: u32 },
    Finished,
}

impl View for SupervisorAction {
    type V = ActionModel;

    open spec fn view(&self) -> ActionModel {
        match self {
            SupervisorAction::ProbePort { port, timeout_millis } => ActionModel::ProbePort {
                port: *port,
                timeout_millis: *timeout_millis,
            },
            SupervisorAction::CheckPath { path } => ActionModel::CheckPath { path: path@ },
            SupervisorAction::Spawn { runtime, script, port } => ActionModel::Spawn {
                runtime: runtime@,
                script: script@,
                port: *port,
            },
            SupervisorAction::WaitThenProbe { grace_millis, port, timeout_millis } => {
                ActionModel::WaitThenProbe {
                    grace_millis: *grace_millis,
                    port: *port,
                    timeout_millis: *timeout_millis,
                }
            },
            SupervisorAction::KillSpawned { pid } => ActionModel::KillSpawned { pid: *pid },
            SupervisorAction::Finished => ActionModel::Finished,
        }
    }
}

/// Where the machine stands within one startup attempt.
#[derive(Debug)]
pub enum SupervisorState {
    /// Waiting for the probe of the mode's port.
    ProbingExisting,
    /// Waiting for the existence check of primary candidate `idx`.
    CheckingPrimary { idx: usize },
    /// Waiting for the existence check of fallback candidate `idx`.
    CheckingFallback { idx: usize },
    /// A server entry file was found; waiting for the existence check of
    /// runtime candidate `idx`.
    ResolvingRuntime { script: String, idx: usize },
    /// Waiting for the result of the requested spawn.
    AwaitingSpawn { runtime: String, script: String },
    /// A process was spawned; waiting for the verifying re-probe.
    Verifying { pid: u32 },
    /// The run is over.
    Done { outcome: StartupOutcome },
}

/// Mathematical model of a [`SupervisorState`].
pub enum StateModel {
    ProbingExisting,
    CheckingPrimary { idx: int },
    CheckingFallback { idx: int },
    ResolvingRuntime { script: Seq<char>, idx: int },
    AwaitingSpawn { runtime: Seq<char>, script: Seq<char> },
    Verifying { pid: u32 },
    Done { outcome: OutcomeModel },
}

impl View for SupervisorState {
    type V = StateModel;

    open spec fn view(&self) -> StateModel {
        match self {
            SupervisorState::ProbingExisting => StateModel::ProbingExisting,
            SupervisorState::CheckingPrimary { idx } => StateModel::CheckingPrimary {
                idx: *idx as int,
            },
            SupervisorState::CheckingFallback { idx } => StateModel::CheckingFallback {
                idx: *idx as int,
            },
            SupervisorState::ResolvingRuntime { script, idx } => StateModel::ResolvingRuntime {
                script: script@,
                idx: *idx as int,
            },
            SupervisorState::AwaitingSpawn { runtime, script } => StateModel::AwaitingSpawn {
                runtime: runtime@,
                script: script@,
            },
            SupervisorState::Verifying { pid } => StateModel::Verifying { pid: *pid },
            SupervisorState::Done { outcome } => StateModel::Done { outcome: outcome@ },
        }
    }
}

/// One startup attempt: the machine that owns the decision procedure.
pub struct Supervisor {
    pub config: SupervisorConfig,
    pub mode: ServerMode,
    /// Primary candidates, already joined under the resource directory;
    /// empty when no resource directory is available.
    pub primary: Vec<String>,
    pub state: SupervisorState,
    /// Whether a `Spawn` action has been requested during this run.
    pub spawned: bool,
}

/// Mathematical model of a [`Supervisor`].
pub struct SupervisorModel {
    pub config: ConfigModel,
    pub mode: ServerMode,
    pub primary: Seq<Seq<char>>,
    pub state: StateModel,
    pub spawned: bool,
}

impl View for Supervisor {
    type V = SupervisorModel;

    open spec fn view(&self) -> SupervisorModel {
        SupervisorModel {
            config: self.config@,
            mode: self.mode,
            primary: self.primary@.map_values(|s: String| s@),
            state: self.state@,
            spawned: self.spawned,
        }
    }
}

/// The port the given mode is served on.
pub open spec fn mode_port(c: ConfigModel, mode: ServerMode) -> u16 {
    match mode {
        ServerMode::Development => c.dev_port,
        ServerMode::Production => c.prod_port,
    }
}

impl SupervisorModel {
    /// The discovery-exhausted terminal pair.
    pub open spec fn exhausted(self) -> (StateModel, ActionModel) {
        (
            StateModel::Done {
                outcome: OutcomeModel::Failed { reason: ReasonModel::DiscoveryExhausted },
            },
            ActionModel::Finished,
        )
    }

    /// Continue primary discovery at candidate `idx`; past the end, fall
    /// back to working-directory discovery.
    pub open spec fn enter_primary(self, idx: int) -> (StateModel, ActionModel) {
        if idx < self.primary.len() {
            (
                StateModel::CheckingPrimary { idx },
                ActionModel::CheckPath { path: self.primary[idx] },
            )
        } else {
            self.enter_fallback(0)
        }
    }

    /// Continue fallback discovery at candidate `idx`; past the end,
    /// discovery is exhausted.
    pub open spec fn enter_fallback(self, idx: int) -> (StateModel, ActionModel) {
        if idx < self.config.fallback_candidates.len() {
            (
                StateModel::CheckingFallback { idx },
                ActionModel::CheckPath { path: self.config.fallback_candidates[idx] },
            )
        } else {
            self.exhausted()
        }
    }

    /// Continue runtime resolution for `script` at candidate `idx`: a PATH
    /// lookup resolves immediately and the spawn is requested, a file
    /// candidate needs an existence check first, and an exhausted list ends
    /// discovery.
    pub open spec fn enter_runtime(self, script: Seq<char>, idx: int) -> (StateModel, ActionModel) {
        if idx < self.config.runtime_candidates.len() {
            match self.config.runtime_candidates[idx] {
                RuntimeCandidateModel::PathLookup { name } => (
                    StateModel::AwaitingSpawn { runtime: name, script },
                    ActionModel::Spawn { runtime: name, script, port: self.config.prod_port },
                ),
                RuntimeCandidateModel::File { path } => (
                    StateModel::ResolvingRuntime { script, idx },
                    ActionModel::CheckPath { path },
                ),
            }
        } else {
            self.exhausted()
        }
    }

    /// Which event kind the machine is waiting for; a finished machine
    /// expects none.
    pub open spec fn expects(self, e: EventModel) -> bool {
        match self.state {
            StateModel::ProbingExisting => e is PortProbed,
            StateModel::CheckingPrimary { .. } => e is PathChecked,
            StateModel::CheckingFallback { .. } => e is PathChecked,
            StateModel::ResolvingRuntime { .. } => e is PathChecked,
            StateModel::AwaitingSpawn { .. } => e is SpawnOk || e is SpawnErr,
            StateModel::Verifying { .. } => e is PortProbed,
            StateModel::Done { .. } => false,
        }
    }

    /// Structural well-formedness: indices stay within their tables, the
    /// spawn flag agrees with the state, and development mode never leaves
    /// the probe-or-done fragment (so it can never spawn).
    pub open spec fn wf(self) -> bool {
        match self.state {
            StateModel::ProbingExisting => !self.spawned,
            StateModel::CheckingPrimary { idx } => self.mode is Production && !self.spawned && 0
                <= idx < self.primary.len(),
            StateModel::CheckingFallback { idx } => self.mode is Production && !self.spawned && 0
                <= idx < self.config.fallback_candidates.len(),
            StateModel::ResolvingRuntime { script: _, idx } => self.mode is Production
                && !self.spawned && 0 <= idx < self.config.runtime_candidates.len()
                && self.config.runtime_candidates[idx] is File,
            StateModel::AwaitingSpawn { .. } => self.mode is Production && self.spawned,
            StateModel::Verifying { .. } => self.mode is Production && self.spawned,
            StateModel::Done { outcome } => match outcome {
                OutcomeModel::AlreadyRunning => !self.spawned,
                OutcomeModel::Started { .. } => self.mode is Production && self.spawned,
                OutcomeModel::Failed { reason } => match reason {
                    ReasonModel::ExternalServerMissing => self.mode is Development
                        && !self.spawned,
                    ReasonModel::DiscoveryExhausted => self.mode is Production && !self.spawned,
                    ReasonModel::SpawnFailed { .. } => self.mode is Production && self.spawned,
                    ReasonModel::VerifyFailed { .. } => self.mode is Production && self.spawned,
                },
            },
        }
    }

    /// The transition relation: the successor state and the requested
    /// action, for a machine that expects the event.  An unexpected event
    /// changes nothing and requests nothing.
    pub open spec fn step_result(self, e: EventModel) -> (StateModel, ActionModel) {
        if !self.expects(e) {
            (self.state, ActionModel::Finished)
        } else {
            match (self.state, e) {
                (StateModel::ProbingExisting, EventModel::PortProbed { reachable }) => {
                    if reachable {
                        (
                            StateModel::Done { outcome: OutcomeModel::AlreadyRunning },
                            ActionModel::Finished,
                        )
                    } else {
                        match self.mode {
                            ServerMode::Development => (
                                StateModel::Done {
                                    outcome: OutcomeModel::Failed {
                                        reason: ReasonModel::ExternalServerMissing,
                                    },
                                },
                                ActionModel::Finished,
                            ),
                            ServerMode::Production => self.enter_primary(0),
                        }
                    }
                },
                (StateModel::CheckingPrimary { idx }, EventModel::PathChecked { exists }) => {
                    if exists {
                        self.enter_runtime(self.primary[idx], 0)
                    } else {
                        self.enter_primary(idx + 1)
                    }
                },
                (StateModel::CheckingFallback { idx }, EventModel::PathChecked { exists }) => {
                    if exists {
                        self.enter_runtime(self.config.fallback_candidates[idx], 0)
                    } else {
                        self.enter_fallback(idx + 1)
                    }
                },
                (
                    StateModel::ResolvingRuntime { script, idx },
                    EventModel::PathChecked { exists },
                ) => {
                    if exists {
                        match self.config.runtime_candidates[idx] {
                            RuntimeCandidateModel::File { path } => (
                                StateModel::AwaitingSpawn { runtime: path, script },
                                ActionModel::Spawn {
                                    runtime: path,
                                    script,
                                    port: self.config.prod_port,
                                },
                            ),
                            RuntimeCandidateModel::PathLookup { .. } => (
                                self.state,
                                ActionModel::Finished,
                            ),
                        }
                    } else {
                        self.enter_runtime(script, idx + 1)
                    }
                },
                (StateModel::AwaitingSpawn { .. }, EventModel::SpawnOk { pid }) => (
                    StateModel::Verifying { pid },
                    ActionModel::WaitThenProbe {
                        grace_millis: self.config.grace_millis,
                        port: self.config.prod_port,
                        timeout_millis: self.config.connect_timeout_millis,
                    },
                ),
                (StateModel::AwaitingSpawn { .. }, EventModel::SpawnErr { error }) => (
                    StateModel::Done {
                        outcome: OutcomeModel::Failed {
                            reason: ReasonModel::SpawnFailed { error },
                        },
                    },
                    ActionModel::Finished,
                ),
                (StateModel::Verifying { pid }, EventModel::PortProbed { reachable }) => {
                    if reachable {
                        (
                            StateModel::Done { outcome: OutcomeModel::Started { pid } },
                            ActionModel::Finished,
                        )
                    } else {
                        (
                            StateModel::Done {
                                outcome: OutcomeModel::Failed {
                                    reason: ReasonModel::VerifyFailed { pid },
                                },
                            },
                            if self.config.kill_on_verify_failure {
                                ActionModel::KillSpawned { pid }
                            } else {
                                ActionModel::Finished
                            },
                        )
                    }
                },
                _ => (self.state, ActionModel::Finished),
            }
        }
    }

    /// The whole successor machine: `step_result` plus the spawn-flag
    /// update; everything else is immutable for the run.
    pub open spec fn step_model(self, e: EventModel) -> SupervisorModel {
        SupervisorModel {
            state: self.step_result(e).0,
            spawned: self.spawned || self.step_result(e).1 is Spawn,
            ..self
        }
    }
}

impl Supervisor {
    /// Begins a startup attempt: primary candidates are joined under the
    /// resource directory (none without one), and the first action probes
    /// the mode's port.
    pub fn start(config: SupervisorConfig, mode: ServerMode, resource_dir: Option<String>) -> (r: (
        Supervisor,
        SupervisorAction,
    ))
        ensures
            r.0@.config == config@,
            r.0@.mode == mode,
            r.0@.state == StateModel::ProbingExisting,
            r.0@.spawned == false,
            r.0@.wf(),
            match resource_dir {
                Some(dir) => r.0@.primary.len() == config@.primary_suffixes.len() && (forall|
                    i: int,
                |
                    0 <= i < config@.primary_suffixes.len() ==> r.0@.primary[i] == join_model(
                        dir@,
                        config@.primary_suffixes[i],
                    )),
                None => r.0@.primary.len() == 0,
            },
            r.1@ == (ActionModel::ProbePort {
                port: mode_port(config@, mode),
                timeout_millis: config@.connect_timeout_millis,
            }),
    {
        let mut primary: Vec<String> = Vec::new();
        match &resource_dir {
            Some(dir) => {
                let mut i: usize = 0;
                while i < config.primary_suffixes.len()
                    invariant
                        i <= config.primary_suffixes@.len(),
                        primary@.len() == i,
                        forall|j: int|
                            0 <= j < i ==> primary@[j]@ == join_model(
                                dir@,
                                config.primary_suffixes@[j]@,
                            ),
                    decreases config.primary_suffixes@.len() - i,
                {
                    let p = join_path(dir, &config.primary_suffixes[i]);
                    primary.push(p);
                    i += 1;
                }
            },
            None => {},
        }
        let port = match mode {
            ServerMode::Development => config.dev_port,
            ServerMode::Production => config.prod_port,
        };
        let timeout_millis = config.connect_timeout_millis;
        let sup = Supervisor {
            config,
            mode,
            primary,
            state: SupervisorState::ProbingExisting,
            spawned: false,
        };
        (sup, SupervisorAction::ProbePort { port, timeout_millis })
    }

    /// Whether the run is over and [`Self::outcome`] is available.
    pub fn is_done(&self) -> (r: bool)
        ensures
            r == (self@.state is Done),
    {
        matches!(self.state, SupervisorState::Done { .. })
    }

    /// Whether the machine is waiting for this kind of event.
    pub fn expects_event(&self, e: &SupervisorEvent) -> (r: bool)
        ensures
            r == self@.expects(e@),
    {
        match (&self.state, e) {
            (SupervisorState::ProbingExisting, SupervisorEvent::PortProbed { .. }) => true,
            (SupervisorState::CheckingPrimary { .. }, SupervisorEvent::PathChecked { .. }) => true,
            (SupervisorState::CheckingFallback { .. }, SupervisorEvent::PathChecked { .. }) => true,
            (
                SupervisorState::ResolvingRuntime { .. },
                SupervisorEvent::PathChecked { .. },
            ) => true,
            (SupervisorState::AwaitingSpawn { .. }, SupervisorEvent::SpawnOk { .. }) => true,
            (SupervisorState::AwaitingSpawn { .. }, SupervisorEvent::SpawnErr { .. }) => true,
            (SupervisorState::Verifying { .. }, SupervisorEvent::PortProbed { .. }) => true,
            _ => false,
        }
    }

    /// Whether the machine is structurally well formed; [`Self::start`]
    /// establishes this and [`Self::step`] preserves it, so it only needs
    /// re-checking after outside mutation.
    pub fn check_wf(&self) -> (r: bool)
        ensures
            r == self@.wf(),
    {
        let prod = matches!(self.mode, ServerMode::Production);
        match &self.state {
            SupervisorState::ProbingExisting => !self.spawned,
            SupervisorState::CheckingPrimary { idx } => prod && !self.spawned && *idx
                < self.primary.len(),
            SupervisorState::CheckingFallback { idx } => prod && !self.spawned && *idx
                < self.config.fallback_candidates.len(),
            SupervisorState::ResolvingRuntime { script: _, idx } => prod && !self.spawned && *idx
                < self.config.runtime_candidates.len() && matches!(
                &self.config.runtime_candidates[*idx],
                RuntimeCandidate::File { .. },
            ),
            SupervisorState::AwaitingSpawn { .. } => prod && self.spawned,
            SupervisorState::Verifying { .. } => prod && self.spawned,
            SupervisorState::Done { outcome } => match outcome {
                StartupOutcome::AlreadyRunning => !self.spawned,
                StartupOutcome::Started { .. } => prod && self.spawned,
                StartupOutcome::Failed { reason } => match reason {
                    FailureReason::ExternalServerMissing => matches!(
                        self.mode,
                        ServerMode::Development,
                    ) && !self.spawned,
                    FailureReason::DiscoveryExhausted => prod && !self.spawned,
                    FailureReason::SpawnFailed { .. } => prod && self.spawned,
                    FailureReason::VerifyFailed { .. } => prod && self.spawned,
                },
            },
        }
    }

    /// Continue primary discovery at `idx` (see the spec-level
    /// `enter_primary`).
    fn enter_primary_exec(&self, idx: usize) -> (r: (SupervisorState, SupervisorAction))
        ensures
            (r.0@, r.1@) == self@.enter_primary(idx as int),
    {
        if idx < self.primary.len() {
            let path = dup_string(&self.primary[idx]);
            (SupervisorState::CheckingPrimary { idx }, SupervisorAction::CheckPath { path })
        } else {
            self.enter_fallback_exec(0)
        }
    }

    /// Continue fallback discovery at `idx` (see the spec-level
    /// `enter_fallback`).
    fn enter_fallback_exec(&self, idx: usize) -> (r: (SupervisorState, SupervisorAction))
        ensures
            (r.0@, r.1@) == self@.enter_fallback(idx as int),
    {
        if idx < self.config.fallback_candidates.len() {
            let path = dup_string(&self.config.fallback_candidates[idx]);
            (SupervisorState::CheckingFallback { idx }, SupervisorAction::CheckPath { path })
        } else {
            (
                SupervisorState::Done {
                    outcome: StartupOutcome::Failed {
                        reason: FailureReason::DiscoveryExhausted,
                    },
                },
                SupervisorAction::Finished,
            )
        }
    }

    /// Continue runtime resolution for `script` at `idx` (see the
    /// spec-level `enter_runtime`).
    fn enter_runtime_exec(&self, script: String, idx: usize) -> (r: (
        SupervisorState,
        SupervisorAction,
    ))
        ensures
            (r.0@, r.1@) == self@.enter_runtime(script@, idx as int),
    {
        if idx < self.config.runtime_candidates.len() {
            match &self.config.runtime_candidates[idx] {
                RuntimeCandidate::PathLookup { name } => {
                    let runtime_for_state = dup_string(name);
                    let runtime_for_action = dup_string(name);
                    let script_for_action = dup_string(&script);
                    (
                        SupervisorState::AwaitingSpawn { runtime: runtime_for_state, script },
                        SupervisorAction::Spawn {
                            runtime: runtime_for_action,
                            script: script_for_action,
                            port: self.config.prod_port,
                        },
                    )
                },
                RuntimeCandidate::File { path } => {
                    let path = dup_string(path);
                    (
                        SupervisorState::ResolvingRuntime { script, idx },
                        SupervisorAction::CheckPath { path },
                    )
                },
            }
        } else {
            (
                SupervisorState::Done {
                    outcome: StartupOutcome::Failed {
                        reason: FailureReason::DiscoveryExhausted,
                    },
                },
                SupervisorAction::Finished,
            )
        }
    }

    /// Feeds one observation into the machine and returns the next action.
    ///
    /// The transition is exactly the spec-level `step_result`, and well-
    /// formedness is preserved; everything but the state and the spawn flag
    /// is untouched.
    pub fn step(&mut self, event: &SupervisorEvent) -> (a: SupervisorAction)
        requires
            old(self)@.wf(),
            old(self)@.expects(event@),
        ensures
            final(self)@.config == old(self)@.config,
            final(self)@.mode == old(self)@.mode,
            final(self)@.primary == old(self)@.primary,
            final(self)@.state == old(self)@.step_result(event@).0,
            final(self)@.spawned == old(self)@.step_model(event@).spawned,
            a@ == old(self)@.step_result(event@).1,
            final(self)@.wf(),
    {
        proof {
            crate::laws::lemma_step_preserves_wf(old(self)@, event@);
        }
        let (st, a) = match (&self.state, event) {
            (SupervisorState::ProbingExisting, SupervisorEvent::PortProbed { reachable }) => {
                if *reachable {
                    (
                        SupervisorState::Done { outcome: StartupOutcome::AlreadyRunning },
                        SupervisorAction::Finished,
                    )
                } else {
                    match self.mode {
                        ServerMode::Development => (
                            SupervisorState::Done {
                                outcome: StartupOutcome::Failed {
                                    reason: FailureReason::ExternalServerMissing,
                                },
                            },
                            SupervisorAction::Finished,
                        ),
                        ServerMode::Production => self.enter_primary_exec(0),
                    }
                }
            },
            (SupervisorState::CheckingPrimary { idx }, SupervisorEvent::PathChecked { exists }) => {
                let idx = *idx;
                proof {
                    assert(idx < self.primary.len());
                }
                if *exists {
                    let script = dup_string(&self.primary[idx]);
                    self.enter_runtime_exec(script, 0)
                } else {
                    self.enter_primary_exec(idx + 1)
                }
            },
            (
                SupervisorState::CheckingFallback { idx },
                SupervisorEvent::PathChecked { exists },
            ) => {
                let idx = *idx;
                proof {
                    assert(idx < self.config.fallback_candidates.len());
                }
                if *exists {
                    let script = dup_string(&self.config.fallback_candidates[idx]);
                    self.enter_runtime_exec(script, 0)
                } else {
                    self.enter_fallback_exec(idx + 1)
                }
            },
            (
                SupervisorState::ResolvingRuntime { script, idx },
                SupervisorEvent::PathChecked { exists },
            ) => {
                let idx = *idx;
                proof {
                    assert(idx < self.config.runtime_candidates.len());
                }
                let script = dup_string(script);
                if *exists {
                    match &self.config.runtime_candidates[idx] {
                        RuntimeCandidate::File { path } => {
                            let runtime_for_state = dup_string(path);
                            let runtime_for_action = dup_string(path);
                            let script_for_action = dup_string(&script);
                            (
                                SupervisorState::AwaitingSpawn {
                                    runtime: runtime_for_state,
                                    script,
                                },
                                SupervisorAction::Spawn {
                                    runtime: runtime_for_action,
                                    script: script_for_action,
                                    port: self.config.prod_port,
                                },
                            )
                        },
                        RuntimeCandidate::PathLookup { .. } => {
                            // unreachable: well-formedness pins the candidate
                            // under resolution to a file
                            proof {
                                assert(false);
                            }
                            (SupervisorState::ProbingExisting, SupervisorAction::Finished)
                        },
                    }
                } else {
                    self.enter_runtime_exec(script, idx + 1)
                }
            },
            (SupervisorState::AwaitingSpawn { .. }, SupervisorEvent::SpawnOk { pid }) => {
                (
                    SupervisorState::Verifying { pid: *pid },
                    SupervisorAction::WaitThenProbe {
                        grace_millis: self.config.grace_millis,
                        port: self.config.prod_port,
                        timeout_millis: self.config.connect_timeout_millis,
                    },
                )
            },
            (SupervisorState::AwaitingSpawn { .. }, SupervisorEvent::SpawnErr { error }) => {
                let error = dup_string(error);
                (
                    SupervisorState::Done {
                        outcome: StartupOutcome::Failed {
                            reason: FailureReason::SpawnFailed { error },
                        },
                    },
                    SupervisorAction::Finished,
                )
            },
            (SupervisorState::Verifying { pid }, SupervisorEvent::PortProbed { reachable }) => {
                let pid = *pid;
                if *reachable {
                    (
                        SupervisorState::Done {
                            outcome: StartupOutcome::Started {
                                process: SupervisedProcess { pid },
                            },
                        },
                        SupervisorAction::Finished,
                    )
                } else {
                    (
                        SupervisorState::Done {
                            outcome: StartupOutcome::Failed {
                                reason: FailureReason::VerifyFailed { pid },
                            },
                        },
                        if self.config.kill_on_verify_failure {
                            SupervisorAction::KillSpawned { pid }
                        } else {
                            SupervisorAction::Finished
                        },
                    )
                }
            },
            _ => {
                // unreachable: the machine expects this event, so the state
                // and event kinds pair up in one of the arms above
                proof {
                    assert(false);
                }
                (SupervisorState::ProbingExisting, SupervisorAction::Finished)
            },
        };
        self.state = st;
        self.spawned = self.spawned || matches!(a, SupervisorAction::Spawn { .. });
        a
    }

    /// The outcome of a finished run, or `None` while the run is still
    /// going on.
    pub fn outcome(&self) -> (r: Option<&StartupOutcome>)
        ensures
            match r {
                Some(o) => self@.state == (StateModel::Done { outcome: o@ }),
                None => !(self@.state is Done),
            },
    {
        match &self.state {
            SupervisorState::Done { outcome } => Some(outcome),
            _ => None,
        }
    }
}

} // verus!

//! The result of one startup attempt and its failure taxonomy.

use vstd::prelude::*;

verus! {

/// Handle to a server process the supervisor spawned, identified by its
/// operating-system process id.  The supervisor owns at most one of these
/// per lifetime.
#[derive(Clone, Copy, Debug)]
pub struct SupervisedProcess {
    pub pid: u32,
}

/// Why a startup attempt failed.  Exactly one reason is produced per failed
/// attempt, and none of them aborts the host application.
#[derive(Debug)]
pub enum FailureReason {
    /// Development mode: the externally managed server was not reachable.
    /// The user must start it through the separate development workflow.
    ExternalServerMissing,
    /// Production mode: no server entry file exists in any primary or
    /// fallback candidate location, or no runtime could be resolved.
    DiscoveryExhausted,
    /// The operating system refused to launch the resolved runtime; carries
    /// the underlying error text.
    SpawnFailed { error: String },
    /// A process was spawned but the production port was still unreachable
    /// after the grace period.  The process id is retained so the caller can
    /// apply its configured retention policy.
    VerifyFailed { pid: u32 },
}

/// Outcome of one `EnsureServerRunning`-style startup attempt.
#[derive(Debug)]
pub enum StartupOutcome {
    /// A server already listens on the relevant port; nothing was spawned.
    AlreadyRunning,
    /// A server was spawned and verified reachable.
    Started { process: SupervisedProcess },
    /// The attempt failed; no usable server is known to be running.
    Failed { reason: FailureReason },
}

/// Mathematical model of a [`FailureReason`].
pub enum ReasonModel {
    ExternalServerMissing,
    DiscoveryExhausted,
    SpawnFailed { error: Seq<char> },
    VerifyFailed { pid: u32 },
}

/// Mathematical model of a [`StartupOutcome`].
pub enum OutcomeModel {
    AlreadyRunning,
    Started { pid: u32 },
    Failed { reason: ReasonModel },
}

impl View for FailureReason {
    type V = ReasonModel;

    open spec fn view(&self) -> ReasonModel {
        match self {
            FailureReason::ExternalServerMissing => ReasonModel::ExternalServerMissing,
            FailureReason::DiscoveryExhausted => ReasonModel::DiscoveryExhausted,
            FailureReason::SpawnFailed { error } => ReasonModel::SpawnFailed { error: error@ },
            FailureReason::VerifyFailed { pid } => ReasonModel::VerifyFailed { pid: *pid },
        }
    }
}

impl View for StartupOutcome {
    type V = OutcomeModel;

    open spec fn view(&self) -> OutcomeModel {
        match self {
            StartupOutcome::AlreadyRunning => OutcomeModel::AlreadyRunning,
            StartupOutcome::Started { process } => OutcomeModel::Started { pid: process.pid },
            StartupOutcome::Failed { reason } => OutcomeModel::Failed { reason: reason@ },
        }
    }
}

} // verus!

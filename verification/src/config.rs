//! Supervisor configuration: modes, ports, and the ordered candidate tables
//! that drive executable discovery and runtime resolution.

use vstd::prelude::*;
use vstd::string::StringExecFns;

verus! {

/// Which port and which discovery strategy apply for this run.
///
/// The mode is chosen once at startup and never changes afterwards.
#[derive(Clone, Copy, PartialEq, Eq, Structural, Debug)]
pub enum ServerMode {
    /// An externally managed server is expected on the development port;
    /// the supervisor only verifies that it is reachable and never spawns.
    Development,
    /// The supervisor may locate and spawn a bundled server itself.
    Production,
}

/// One entry in the ordered runtime search list: either a bare command name
/// to be resolved through the system PATH, or a concrete file path that must
/// exist on disk.  A PATH lookup is always considered present, so placing one
/// in the list guarantees that runtime resolution cannot come up empty.
#[derive(Debug)]
pub enum RuntimeCandidate {
    PathLookup { name: String },
    File { path: String },
}

/// Mathematical model of a [`RuntimeCandidate`].
pub enum RuntimeCandidateModel {
    PathLookup { name: Seq<char> },
    File { path: Seq<char> },
}

impl View for RuntimeCandidate {
    type V = RuntimeCandidateModel;

    open spec fn view(&self) -> RuntimeCandidateModel {
        match self {
            RuntimeCandidate::PathLookup { name } => RuntimeCandidateModel::PathLookup {
                name: name@,
            },
            RuntimeCandidate::File { path } => RuntimeCandidateModel::File { path: path@ },
        }
    }
}

/// The location a resolved runtime candidate designates: the bare name for a
/// PATH lookup, the file path otherwise.
pub open spec fn runtime_location(c: RuntimeCandidateModel) -> Seq<char> {
    match c {
        RuntimeCandidateModel::PathLookup { name } => name,
        RuntimeCandidateModel::File { path } => path,
    }
}

/// Everything the supervisor's decision procedure depends on, gathered into
/// one explicit structure so that tests can substitute deterministic values.
pub struct SupervisorConfig {
    /// Port probed in development mode.
    pub dev_port: u16,
    /// Port probed, and pinned onto a spawned server, in production mode.
    pub prod_port: u16,
    /// Bound on a single loopback connection attempt, in milliseconds.
    pub connect_timeout_millis: u64,
    /// Fixed delay between a spawn and the verifying re-probe, in milliseconds.
    pub grace_millis: u64,
    /// Whether a process that spawned but never became reachable is killed
    /// (`true`) or left running for diagnostics (`false`).
    pub kill_on_verify_failure: bool,
    /// Paths joined under the resource directory for primary discovery,
    /// in priority order.
    pub primary_suffixes: Vec<String>,
    /// Working-directory-relative paths for fallback discovery, in priority
    /// order.
    pub fallback_candidates: Vec<String>,
    /// Runtime search list, in priority order.
    pub runtime_candidates: Vec<RuntimeCandidate>,
}

/// Mathematical model of a [`SupervisorConfig`].
pub struct ConfigModel {
    pub dev_port: u16,
    pub prod_port: u16,
    pub connect_timeout_millis: u64,
    pub grace_millis: u64,
    pub kill_on_verify_failure: bool,
    pub primary_suffixes: Seq<Seq<char>>,
    pub fallback_candidates: Seq<Seq<char>>,
    pub runtime_candidates: Seq<RuntimeCandidateModel>,
}

impl View for SupervisorConfig {
    type V = ConfigModel;

    open spec fn view(&self) -> ConfigModel {
        ConfigModel {
            dev_port: self.dev_port,
            prod_port: self.prod_port,
            connect_timeout_millis: self.connect_timeout_millis,
            grace_millis: self.grace_millis,
            kill_on_verify_failure: self.kill_on_verify_failure,
            primary_suffixes: self.primary_suffixes@.map_values(|s: String| s@),
            fallback_candidates: self.fallback_candidates@.map_values(|s: String| s@),
            runtime_candidates: self.runtime_candidates@.map_values(|c: RuntimeCandidate| c@),
        }
    }
}

/// The compiled-in defaults: the two fixed ports, the conventional resource
/// and working-directory layouts for the server entry file, and the runtime
/// search order.  The system PATH lookup comes first so that a compatible
/// system-installed runtime is preferred over potentially incompatible
/// bundled copies, and it doubles as the guaranteed last resort; a spawned
/// process that never becomes reachable is left running for diagnostics.
pub fn default_config() -> (c: SupervisorConfig)
    ensures
        c@.dev_port == DEV_PORT,
        c@.prod_port == PROD_PORT,
        c@.connect_timeout_millis == CONNECT_TIMEOUT_MILLIS,
        c@.grace_millis == GRACE_MILLIS,
        c@.kill_on_verify_failure == false,
        c@.primary_suffixes == seq!["index.js"@, "_up_/dist/index.js"@, "dist/index.js"@],
        c@.fallback_candidates == seq![
            "./dist/index.js"@,
            "../dist/index.js"@,
            "./server/dist/index.js"@,
            "../server/dist/index.js"@,
            "./index.js"@,
            "../index.js"@,
        ],
        c@.runtime_candidates == seq![
            RuntimeCandidateModel::PathLookup { name: "node"@ },
            RuntimeCandidateModel::File { path: "/usr/local/bin/node"@ },
            RuntimeCandidateModel::File { path: "/usr/bin/node"@ },
            RuntimeCandidateModel::File { path: "/opt/homebrew/bin/node"@ },
        ],
{
    let mut primary_suffixes: Vec<String> = Vec::new();
    primary_suffixes.push(String::from_str("index.js"));
    primary_suffixes.push(String::from_str("_up_/dist/index.js"));
    primary_suffixes.push(String::from_str("dist/index.js"));
    let mut fallback_candidates: Vec<String> = Vec::new();
    fallback_candidates.push(String::from_str("./dist/index.js"));
    fallback_candidates.push(String::from_str("../dist/index.js"));
    fallback_candidates.push(String::from_str("./server/dist/index.js"));
    fallback_candidates.push(String::from_str("../server/dist/index.js"));
    fallback_candidates.push(String::from_str("./index.js"));
    fallback_candidates.push(String::from_str("../index.js"));
    let mut runtime_candidates: Vec<RuntimeCandidate> = Vec::new();
    runtime_candidates.push(RuntimeCandidate::PathLookup { name: String::from_str("node") });
    runtime_candidates.push(
        RuntimeCandidate::File { path: String::from_str("/usr/local/bin/node") },
    );
    runtime_candidates.push(RuntimeCandidate::File { path: String::from_str("/usr/bin/node") });
    runtime_candidates.push(
        RuntimeCandidate::File { path: String::from_str("/opt/homebrew/bin/node") },
    );
    let c = SupervisorConfig {
        dev_port: DEV_PORT,
        prod_port: PROD_PORT,
        connect_timeout_millis: CONNECT_TIMEOUT_MILLIS,
        grace_millis: GRACE_MILLIS,
        kill_on_verify_failure: false,
        primary_suffixes,
        fallback_candidates,
        runtime_candidates,
    };
    proof {
        assert(c@.primary_suffixes =~= seq!["index.js"@, "_up_/dist/index.js"@, "dist/index.js"@]);
        assert(c@.fallback_candidates =~= seq![
            "./dist/index.js"@,
            "../dist/index.js"@,
            "./server/dist/index.js"@,
            "../server/dist/index.js"@,
            "./index.js"@,
            "../index.js"@,
        ]);
        assert(c@.runtime_candidates =~= seq![
            RuntimeCandidateModel::PathLookup { name: "node"@ },
            RuntimeCandidateModel::File { path: "/usr/local/bin/node"@ },
            RuntimeCandidateModel::File { path: "/usr/bin/node"@ },
            RuntimeCandidateModel::File { path: "/opt/homebrew/bin/node"@ },
        ]);
    }
    c
}

/// Default development port.
pub const DEV_PORT: u16 = 3001;

/// Default production port.
pub const PROD_PORT: u16 = 5001;

/// Default bound on one loopback connection attempt.
pub const CONNECT_TIMEOUT_MILLIS: u64 = 3000;

/// Default startup grace period.
pub const GRACE_MILLIS: u64 = 5000;

} // verus!

//! Laws of the supervisor state machine, stated and proved over the
//! mathematical model so they hold of every configuration and every run.

use vstd::prelude::*;
use crate::config::runtime_location;
use crate::outcome::OutcomeModel;
use crate::outcome::ReasonModel;
use crate::supervisor::ActionModel;
use crate::supervisor::EventModel;
use crate::supervisor::StateModel;
use crate::supervisor::SupervisorModel;

verus! {

/// Every step of the machine preserves well-formedness, whatever event
/// arrives.
pub proof fn lemma_step_preserves_wf(m: SupervisorModel, e: EventModel)
    requires
        m.wf(),
    ensures
        m.step_model(e).wf(),
{
}

/// Development mode never spawns: from any well-formed machine in
/// development mode, the step taken on the probe answer ends the run, with
/// `AlreadyRunning` when the development port was reachable and
/// `ExternalServerMissing` when it was not, and no spawn is ever requested.
pub proof fn lemma_development_never_spawns(m: SupervisorModel, e: EventModel)
    requires
        m.wf(),
        m.expects(e),
        m.mode is Development,
    ensures
        !(m.step_result(e).1 is Spawn),
        m.step_model(e).spawned == false,
        m.step_result(e).0 is Done,
        (e matches EventModel::PortProbed { reachable: true }) ==> m.step_result(e).0 == (
        StateModel::Done { outcome: OutcomeModel::AlreadyRunning }),
        (e matches EventModel::PortProbed { reachable: false }) ==> m.step_result(e).0 == (
        StateModel::Done {
            outcome: OutcomeModel::Failed { reason: ReasonModel::ExternalServerMissing },
        }),
{
}

/// Idempotency: when the initial probe finds the port already reachable,
/// the run ends at once with `AlreadyRunning`, in either mode, and nothing
/// was or will be spawned.
pub proof fn lemma_reachable_port_never_spawns(m: SupervisorModel, e: EventModel)
    requires
        m.wf(),
        m.state is ProbingExisting,
        (e matches EventModel::PortProbed { reachable: true }),
    ensures
        m.step_result(e).0 == (StateModel::Done { outcome: OutcomeModel::AlreadyRunning }),
        m.step_result(e).1 == ActionModel::Finished,
        m.step_model(e).spawned == false,
{
}

/// An exhausted discovery never spawned: a well-formed machine that ended
/// with `DiscoveryExhausted` requested no spawn during its whole run.
pub proof fn lemma_exhausted_never_spawned(m: SupervisorModel)
    requires
        m.wf(),
        m.state == (StateModel::Done {
            outcome: OutcomeModel::Failed { reason: ReasonModel::DiscoveryExhausted },
        }),
    ensures
        !m.spawned,
{
}

/// Whether this machine state records `s` as the server entry file whose
/// existence check succeeded.
pub open spec fn script_of_state(m: SupervisorModel, s: Seq<char>) -> bool {
    match m.state {
        StateModel::CheckingPrimary { idx } => s == m.primary[idx],
        StateModel::CheckingFallback { idx } => s == m.config.fallback_candidates[idx],
        StateModel::ResolvingRuntime { script, .. } => s == script,
        _ => false,
    }
}

/// Everything a requested spawn carries is accounted for: the spawn is
/// fresh (none was requested before, and the flag is set by this step), it
/// is pinned to the production port, its runtime is the location of a
/// configured runtime candidate, its server entry file is the candidate
/// whose existence check just succeeded, and the machine then awaits
/// exactly that spawn.
pub proof fn lemma_spawn_provenance(m: SupervisorModel, e: EventModel)
    requires
        m.wf(),
    ensures
        m.step_result(e).1 matches ActionModel::Spawn { runtime, script, port } ==> {
            &&& port == m.config.prod_port
            &&& !m.spawned
            &&& m.step_model(e).spawned
            &&& m.mode is Production
            &&& e is PathChecked
            &&& m.step_result(e).0 == (StateModel::AwaitingSpawn { runtime, script })
            &&& exists|i: int|
                0 <= i < m.config.runtime_candidates.len() && runtime == runtime_location(
                    m.config.runtime_candidates[i],
                )
            &&& script_of_state(m, script)
        },
{
    if m.step_result(e).1 is Spawn {
        let runtime = m.step_result(e).1->Spawn_runtime;
        match m.state {
            StateModel::CheckingPrimary { idx } => {
                assert(runtime == runtime_location(m.config.runtime_candidates[0]));
            },
            StateModel::CheckingFallback { idx } => {
                assert(runtime == runtime_location(m.config.runtime_candidates[0]));
            },
            StateModel::ResolvingRuntime { script, idx } => {
                if e == (EventModel::PathChecked { exists: true }) {
                    assert(runtime == runtime_location(m.config.runtime_candidates[idx]));
                } else {
                    assert(runtime == runtime_location(m.config.runtime_candidates[idx + 1]));
                }
            },
            _ => {},
        }
    }
}

/// The machine after a run: the events are consumed in order, each through
/// one step.
pub open spec fn run_model(m: SupervisorModel, events: Seq<EventModel>) -> SupervisorModel
    decreases events.len(),
{
    if events.len() == 0 {
        m
    } else {
        run_model(m.step_model(events[0]), events.drop_first())
    }
}

/// How many spawns a run requests.
pub open spec fn spawn_count(m: SupervisorModel, events: Seq<EventModel>) -> nat
    decreases events.len(),
{
    if events.len() == 0 {
        0
    } else {
        (if m.step_result(events[0]).1 is Spawn {
            1nat
        } else {
            0nat
        }) + spawn_count(m.step_model(events[0]), events.drop_first())
    }
}

/// A step requests a spawn only when none was requested before, and the
/// spawn flag never falls back.
pub proof fn lemma_spawn_is_fresh(m: SupervisorModel, e: EventModel)
    requires
        m.wf(),
    ensures
        m.step_result(e).1 is Spawn ==> !m.spawned,
        m.spawned ==> m.step_model(e).spawned,
        m.step_model(e).spawned == (m.spawned || m.step_result(e).1 is Spawn),
{
}

/// At most one process per supervisor lifetime: over any run of a
/// well-formed machine, however long and whatever the observations, at most
/// one spawn is requested in all, and none at all once one has been
/// requested.
pub proof fn lemma_spawn_at_most_once(m: SupervisorModel, events: Seq<EventModel>)
    requires
        m.wf(),
    ensures
        spawn_count(m, events) + (if m.spawned {
            1nat
        } else {
            0nat
        }) <= 1,
    decreases events.len(),
{
    if events.len() > 0 {
        let e = events[0];
        lemma_step_preserves_wf(m, e);
        lemma_spawn_is_fresh(m, e);
        lemma_spawn_at_most_once(m.step_model(e), events.drop_first());
    }
}

/// Wherever a run ends with `AlreadyRunning` or `DiscoveryExhausted`, it
/// never requested a spawn at any point.
pub proof fn lemma_unspawned_outcomes(m: SupervisorModel, events: Seq<EventModel>)
    requires
        m.wf(),
        !m.spawned,
    ensures
        (run_model(m, events).state matches StateModel::Done { outcome }
            && (outcome == OutcomeModel::AlreadyRunning || outcome == (OutcomeModel::Failed {
            reason: ReasonModel::DiscoveryExhausted,
        }))) ==> spawn_count(m, events) == 0,
    decreases events.len(),
{
    if events.len() > 0 {
        let e = events[0];
        lemma_step_preserves_wf(m, e);
        lemma_run_preserves_wf(m.step_model(e), events.drop_first());
        if m.step_model(e).spawned {
            lemma_spawned_stays_spawned(m.step_model(e), events.drop_first());
        } else {
            lemma_unspawned_outcomes(m.step_model(e), events.drop_first());
        }
    }
}

/// Discovery is order-sensitive at the machine level too: while the
/// machine works through primary candidates from position `idx`, and the
/// existence answers are misses up to position `j0` and a hit there, the
/// machine moves to runtime resolution for exactly the candidate at
/// `idx + j0` — whatever the answers for later candidates would have been,
/// they are never asked for.
pub proof fn lemma_primary_discovery_first_match(
    m: SupervisorModel,
    idx: int,
    events: Seq<EventModel>,
    j0: int,
)
    requires
        m.wf(),
        m.state == (StateModel::CheckingPrimary { idx }),
        events.len() <= m.primary.len() - idx,
        0 <= j0 < events.len(),
        events[j0] == (EventModel::PathChecked { exists: true }),
        forall|k: int| 0 <= k < j0 ==> events[k] == (EventModel::PathChecked { exists: false }),
    ensures
        ({
            let hit = m.enter_runtime(m.primary[idx + j0], 0);
            &&& run_model(m, events.take(j0 + 1)).state == hit.0
            &&& run_model(m, events.take(j0 + 1)).spawned == (m.spawned || hit.1 is Spawn)
        }),
    decreases j0,
{
    let s = events.take(j0 + 1);
    let m1 = m.step_model(events[0]);
    assert(run_model(m, s) == run_model(m1, s.drop_first()));
    if j0 == 0 {
        assert(s.drop_first().len() == 0);
    } else {
        lemma_step_preserves_wf(m, events[0]);
        assert(m1.state == (StateModel::CheckingPrimary { idx: idx + 1 }));
        assert(s.drop_first() =~= events.drop_first().take(j0 - 1 + 1));
        lemma_primary_discovery_first_match(m1, idx + 1, events.drop_first(), j0 - 1);
    }
}

/// The same first-match law for the fallback table.
pub proof fn lemma_fallback_discovery_first_match(
    m: SupervisorModel,
    idx: int,
    events: Seq<EventModel>,
    j0: int,
)
    requires
        m.wf(),
        m.state == (StateModel::CheckingFallback { idx }),
        events.len() <= m.config.fallback_candidates.len() - idx,
        0 <= j0 < events.len(),
        events[j0] == (EventModel::PathChecked { exists: true }),
        forall|k: int| 0 <= k < j0 ==> events[k] == (EventModel::PathChecked { exists: false }),
    ensures
        ({
            let hit = m.enter_runtime(m.config.fallback_candidates[idx + j0], 0);
            &&& run_model(m, events.take(j0 + 1)).state == hit.0
            &&& run_model(m, events.take(j0 + 1)).spawned == (m.spawned || hit.1 is Spawn)
        }),
    decreases j0,
{
    let s = events.take(j0 + 1);
    let m1 = m.step_model(events[0]);
    assert(run_model(m, s) == run_model(m1, s.drop_first()));
    if j0 == 0 {
        assert(s.drop_first().len() == 0);
    } else {
        lemma_step_preserves_wf(m, events[0]);
        assert(m1.state == (StateModel::CheckingFallback { idx: idx + 1 }));
        assert(s.drop_first() =~= events.drop_first().take(j0 - 1 + 1));
        lemma_fallback_discovery_first_match(m1, idx + 1, events.drop_first(), j0 - 1);
    }
}

/// When every remaining primary candidate is missing, the machine hands
/// over to fallback discovery — with nothing spawned along the way.
pub proof fn lemma_primary_exhausted_falls_back(
    m: SupervisorModel,
    idx: int,
    events: Seq<EventModel>,
)
    requires
        m.wf(),
        m.state == (StateModel::CheckingPrimary { idx }),
        events.len() == m.primary.len() - idx,
        forall|k: int| 0 <= k < events.len() ==> events[k] == (EventModel::PathChecked {
            exists: false,
        }),
    ensures
        run_model(m, events).state == m.enter_fallback(0).0,
        run_model(m, events).spawned == m.spawned,
    decreases events.len(),
{
    let m1 = m.step_model(events[0]);
    assert(run_model(m, events) == run_model(m1, events.drop_first()));
    if events.len() == 1 {
        assert(run_model(m1, events.drop_first()) == m1);
    } else {
        lemma_step_preserves_wf(m, events[0]);
        assert(m1.state == (StateModel::CheckingPrimary { idx: idx + 1 }));
        lemma_primary_exhausted_falls_back(m1, idx + 1, events.drop_first());
    }
}

/// A whole run preserves well-formedness.
pub proof fn lemma_run_preserves_wf(m: SupervisorModel, events: Seq<EventModel>)
    requires
        m.wf(),
    ensures
        run_model(m, events).wf(),
    decreases events.len(),
{
    if events.len() > 0 {
        lemma_step_preserves_wf(m, events[0]);
        lemma_run_preserves_wf(m.step_model(events[0]), events.drop_first());
    }
}

/// How far the machine still has to go: an upper bound on the number of
/// further events it can consume.
pub open spec fn rank(m: SupervisorModel) -> int {
    let runtimes = m.config.runtime_candidates.len() as int;
    let fallbacks = m.config.fallback_candidates.len() as int;
    let primaries = m.primary.len() as int;
    match m.state {
        StateModel::Done { .. } => 0,
        StateModel::Verifying { .. } => 1,
        StateModel::AwaitingSpawn { .. } => 2,
        StateModel::ResolvingRuntime { script: _, idx } => 3 + (runtimes - idx),
        StateModel::CheckingFallback { idx } => 4 + runtimes + (fallbacks - idx),
        StateModel::CheckingPrimary { idx } => 5 + runtimes + fallbacks + (primaries - idx),
        StateModel::ProbingExisting => 6 + runtimes + fallbacks + primaries,
    }
}

/// Every startup attempt ends: each expected event strictly lowers the
/// machine's rank, so a run is over after at most `rank` observations —
/// the supervisor's latency is bounded by the candidate tables, with no
/// retry loop anywhere.
pub proof fn lemma_progress(m: SupervisorModel, e: EventModel)
    requires
        m.wf(),
        m.expects(e),
    ensures
        0 < rank(m),
        0 <= rank(m.step_model(e)) < rank(m),
{
}

/// A finished machine is finished for good: it expects nothing, and any
/// event leaves it exactly as it is, requesting nothing further.
pub proof fn lemma_done_is_absorbing(m: SupervisorModel, e: EventModel)
    requires
        m.state is Done,
    ensures
        !m.expects(e),
        m.step_model(e) == m,
        m.step_result(e).1 == ActionModel::Finished,
{
}

/// The spawn flag is monotone over whole runs.
pub proof fn lemma_spawned_stays_spawned(m: SupervisorModel, events: Seq<EventModel>)
    requires
        m.spawned,
    ensures
        run_model(m, events).spawned,
    decreases events.len(),
{
    if events.len() > 0 {
        lemma_spawned_stays_spawned(m.step_model(events[0]), events.drop_first());
    }
}

} // verus!

use server_supervisor::config::RuntimeCandidate;
use server_supervisor::config::ServerMode;
use server_supervisor::config::SupervisorConfig;
use server_supervisor::config::default_config;
use server_supervisor::outcome::FailureReason;
use server_supervisor::outcome::StartupOutcome;
use server_supervisor::supervisor::Supervisor;
use server_supervisor::supervisor::SupervisorAction;
use server_supervisor::supervisor::SupervisorEvent;

/// A scripted environment: `exists` answers each `CheckPath` in order of
/// request, `probes` answers each probe in order, and `spawn` answers the
/// `Spawn` action.
struct Script {
    probes: Vec<bool>,
    exists: Vec<bool>,
    spawn: Result<u32, String>,
}

struct Trace {
    checked: Vec<String>,
    spawns: Vec<(String, String, u16)>,
    probed_ports: Vec<u16>,
    last: SupervisorAction,
}

fn drive(mut sup: Supervisor, first: SupervisorAction, script: Script) -> (Supervisor, Trace) {
    let mut probes = script.probes.into_iter();
    let mut exists = script.exists.into_iter();
    let mut action = first;
    let mut trace = Trace {
        checked: Vec::new(),
        spawns: Vec::new(),
        probed_ports: Vec::new(),
        last: SupervisorAction::Finished,
    };
    loop {
        assert!(sup.check_wf(), "machine left well-formedness");
        let event = match &action {
            SupervisorAction::ProbePort { port, .. } => {
                trace.probed_ports.push(*port);
                SupervisorEvent::PortProbed { reachable: probes.next().expect("probe answer") }
            }
            SupervisorAction::WaitThenProbe { port, .. } => {
                trace.probed_ports.push(*port);
                SupervisorEvent::PortProbed { reachable: probes.next().expect("probe answer") }
            }
            SupervisorAction::CheckPath { path } => {
                trace.checked.push(path.clone());
                SupervisorEvent::PathChecked { exists: exists.next().expect("exists answer") }
            }
            SupervisorAction::Spawn { runtime, script: file, port } => {
                trace.spawns.push((runtime.clone(), file.clone(), *port));
                match &script.spawn {
                    Ok(pid) => SupervisorEvent::SpawnOk { pid: *pid },
                    Err(e) => SupervisorEvent::SpawnErr { error: e.clone() },
                }
            }
            SupervisorAction::KillSpawned { .. } | SupervisorAction::Finished => {
                trace.last = action;
                return (sup, trace);
            }
        };
        assert!(sup.expects_event(&event), "machine refused the scripted event");
        action = sup.step(&event);
    }
}

fn start(mode: ServerMode, resource_dir: Option<&str>) -> (Supervisor, SupervisorAction) {
    Supervisor::start(default_config(), mode, resource_dir.map(|s| s.to_string()))
}

#[test]
fn development_unreachable_fails_without_spawn() {
    let (sup, first) = start(ServerMode::Development, None);
    assert!(matches!(&first, SupervisorAction::ProbePort { port: 3001, timeout_millis: 3000 }));
    let (sup, trace) = drive(sup, first, Script {
        probes: vec![false],
        exists: vec![],
        spawn: Err("unused".to_string()),
    });
    assert!(matches!(
        sup.outcome(),
        Some(StartupOutcome::Failed { reason: FailureReason::ExternalServerMissing })
    ));
    assert_eq!(trace.spawns.len(), 0);
    assert!(!sup.spawned);
    assert_eq!(trace.checked.len(), 0);
}

#[test]
fn development_reachable_is_already_running() {
    let (sup, first) = start(ServerMode::Development, None);
    let (sup, trace) = drive(sup, first, Script {
        probes: vec![true],
        exists: vec![],
        spawn: Err("unused".to_string()),
    });
    assert!(matches!(sup.outcome(), Some(StartupOutcome::AlreadyRunning)));
    assert_eq!(trace.spawns.len(), 0);
    assert!(!sup.spawned);
}

#[test]
fn production_reachable_is_already_running() {
    let (sup, first) = start(ServerMode::Production, Some("/app/resources"));
    assert!(matches!(&first, SupervisorAction::ProbePort { port: 5001, .. }));
    let (sup, trace) = drive(sup, first, Script {
        probes: vec![true],
        exists: vec![],
        spawn: Err("unused".to_string()),
    });
    assert!(matches!(sup.outcome(), Some(StartupOutcome::AlreadyRunning)));
    assert_eq!(trace.spawns.len(), 0);
    assert_eq!(trace.checked.len(), 0);
}

#[test]
fn production_primary_hit_spawns_exactly_once() {
    let (sup, first) = start(ServerMode::Production, Some("/res"));
    let (sup, trace) = drive(sup, first, Script {
        probes: vec![false, true],
        exists: vec![true],
        spawn: Ok(42),
    });
    assert_eq!(trace.checked, vec!["/res/index.js"]);
    assert_eq!(
        trace.spawns,
        vec![("node".to_string(), "/res/index.js".to_string(), 5001)]
    );
    match sup.outcome() {
        Some(StartupOutcome::Started { process }) => assert_eq!(process.pid, 42),
        other => panic!("expected Started, got {:?}", other),
    }
}

#[test]
fn production_primary_checks_in_order() {
    let (sup, first) = start(ServerMode::Production, Some("/res"));
    let (_sup, trace) = drive(sup, first, Script {
        probes: vec![false, true],
        exists: vec![false, false, true],
        spawn: Ok(1),
    });
    assert_eq!(
        trace.checked,
        vec!["/res/index.js", "/res/_up_/dist/index.js", "/res/dist/index.js"]
    );
    assert_eq!(trace.spawns[0].1, "/res/dist/index.js");
}

#[test]
fn production_without_resource_dir_goes_to_fallback() {
    let (sup, first) = start(ServerMode::Production, None);
    let (sup, trace) = drive(sup, first, Script {
        probes: vec![false, true],
        exists: vec![false, true],
        spawn: Ok(9),
    });
    assert_eq!(trace.checked, vec!["./dist/index.js", "../dist/index.js"]);
    assert_eq!(
        trace.spawns,
        vec![("node".to_string(), "../dist/index.js".to_string(), 5001)]
    );
    assert!(matches!(sup.outcome(), Some(StartupOutcome::Started { .. })));
}

#[test]
fn production_fallback_after_empty_primary() {
    let (sup, first) = start(ServerMode::Production, Some("/res"));
    let (sup, trace) = drive(sup, first, Script {
        probes: vec![false, true],
        exists: vec![false, false, false, true],
        spawn: Ok(3),
    });
    assert_eq!(
        trace.checked,
        vec![
            "/res/index.js",
            "/res/_up_/dist/index.js",
            "/res/dist/index.js",
            "./dist/index.js"
        ]
    );
    assert_eq!(trace.spawns[0].1, "./dist/index.js");
    assert!(matches!(sup.outcome(), Some(StartupOutcome::Started { .. })));
}

#[test]
fn production_exhausted_everywhere_fails_without_spawn() {
    let (sup, first) = start(ServerMode::Production, Some("/res"));
    let (sup, trace) = drive(sup, first, Script {
        probes: vec![false],
        exists: vec![false; 9],
        spawn: Err("unused".to_string()),
    });
    assert!(matches!(
        sup.outcome(),
        Some(StartupOutcome::Failed { reason: FailureReason::DiscoveryExhausted })
    ));
    assert_eq!(trace.spawns.len(), 0);
    assert!(!sup.spawned);
    assert_eq!(trace.checked.len(), 9);
}

#[test]
fn spawn_failure_is_reported_with_the_os_error() {
    let (sup, first) = start(ServerMode::Production, Some("/res"));
    let (sup, trace) = drive(sup, first, Script {
        probes: vec![false],
        exists: vec![true],
        spawn: Err("permission denied".to_string()),
    });
    match sup.outcome() {
        Some(StartupOutcome::Failed { reason: FailureReason::SpawnFailed { error } }) => {
            assert_eq!(error.as_str(), "permission denied");
        }
        other => panic!("expected SpawnFailed, got {:?}", other),
    }
    assert_eq!(trace.spawns.len(), 1);
}

#[test]
fn verify_failure_retains_the_process_by_default() {
    let (sup, first) = start(ServerMode::Production, Some("/res"));
    let (sup, trace) = drive(sup, first, Script {
        probes: vec![false, false],
        exists: vec![true],
        spawn: Ok(31),
    });
    match sup.outcome() {
        Some(StartupOutcome::Failed { reason: FailureReason::VerifyFailed { pid } }) => {
            assert_eq!(*pid, 31);
        }
        other => panic!("expected VerifyFailed, got {:?}", other),
    }
    assert!(matches!(trace.last, SupervisorAction::Finished));
}

#[test]
fn verify_failure_kills_when_configured() {
    let mut config = default_config();
    config.kill_on_verify_failure = true;
    let (sup, first) =
        Supervisor::start(config, ServerMode::Production, Some("/res".to_string()));
    let (sup, trace) = drive(sup, first, Script {
        probes: vec![false, false],
        exists: vec![true],
        spawn: Ok(8),
    });
    assert!(matches!(
        sup.outcome(),
        Some(StartupOutcome::Failed { reason: FailureReason::VerifyFailed { pid: 8 } })
    ));
    assert!(matches!(trace.last, SupervisorAction::KillSpawned { pid: 8 }));
}

#[test]
fn runtime_files_are_checked_before_a_later_sentinel() {
    let mut config = default_config();
    config.runtime_candidates = vec![
        RuntimeCandidate::File { path: "/opt/a/node".to_string() },
        RuntimeCandidate::File { path: "/opt/b/node".to_string() },
        RuntimeCandidate::PathLookup { name: "node".to_string() },
    ];
    let (sup, first) =
        Supervisor::start(config, ServerMode::Production, Some("/res".to_string()));
    let (sup, trace) = drive(sup, first, Script {
        probes: vec![false, true],
        exists: vec![true, false, false],
        spawn: Ok(5),
    });
    assert_eq!(
        trace.checked,
        vec!["/res/index.js", "/opt/a/node", "/opt/b/node"]
    );
    assert_eq!(
        trace.spawns,
        vec![("node".to_string(), "/res/index.js".to_string(), 5001)]
    );
    assert!(matches!(sup.outcome(), Some(StartupOutcome::Started { .. })));
}

#[test]
fn runtime_existing_file_is_used_as_the_runtime() {
    let mut config = default_config();
    config.runtime_candidates = vec![
        RuntimeCandidate::File { path: "/opt/a/node".to_string() },
        RuntimeCandidate::PathLookup { name: "node".to_string() },
    ];
    let (sup, first) =
        Supervisor::start(config, ServerMode::Production, Some("/res".to_string()));
    let (_sup, trace) = drive(sup, first, Script {
        probes: vec![false, true],
        exists: vec![true, true],
        spawn: Ok(5),
    });
    assert_eq!(
        trace.spawns,
        vec![("/opt/a/node".to_string(), "/res/index.js".to_string(), 5001)]
    );
}

#[test]
fn runtime_exhaustion_without_sentinel_ends_discovery() {
    let mut config = default_config();
    config.runtime_candidates = vec![
        RuntimeCandidate::File { path: "/opt/a/node".to_string() },
    ];
    let (sup, first) =
        Supervisor::start(config, ServerMode::Production, Some("/res".to_string()));
    let (sup, trace) = drive(sup, first, Script {
        probes: vec![false],
        exists: vec![true, false],
        spawn: Err("unused".to_string()),
    });
    assert!(matches!(
        sup.outcome(),
        Some(StartupOutcome::Failed { reason: FailureReason::DiscoveryExhausted })
    ));
    assert_eq!(trace.spawns.len(), 0);
}

#[test]
fn end_to_end_production_startup() {
    // mode = Production, resource dir /app/resources, the entry file at
    // /app/resources/dist/index.js, port 5001 unreachable at first and
    // reachable after the grace window.
    let (sup, first) = start(ServerMode::Production, Some("/app/resources"));
    let (sup, trace) = drive(sup, first, Script {
        probes: vec![false, true],
        exists: vec![false, false, true],
        spawn: Ok(4242),
    });
    assert_eq!(trace.probed_ports, vec![5001, 5001]);
    assert_eq!(
        trace.spawns,
        vec![("node".to_string(), "/app/resources/dist/index.js".to_string(), 5001)]
    );
    match sup.outcome() {
        Some(StartupOutcome::Started { process }) => assert_eq!(process.pid, 4242),
        other => panic!("expected Started, got {:?}", other),
    }
    assert!(sup.is_done());
    assert!(sup.spawned);
}

use server_supervisor::config::RuntimeCandidate;
use server_supervisor::discovery::find_first_existing;
use server_supervisor::discovery::find_runtime;
use server_supervisor::supervisor::join_path;
use server_supervisor::supervisor::u16_decimal;
use server_supervisor::supervisor::spawn_env;

fn paths(names: &[&str]) -> Vec<String> {
    names.iter().map(|s| s.to_string()).collect()
}

#[test]
fn first_existing_is_order_sensitive() {
    // [missing, present, present]: the second entry wins regardless of the third.
    let candidates = paths(&["./a.js", "./b.js", "./c.js"]);
    let exists = vec![false, true, true];
    assert_eq!(find_first_existing(&candidates, &exists), Some(1));
}

#[test]
fn first_existing_prefers_the_head() {
    let candidates = paths(&["./a.js", "./b.js"]);
    let exists = vec![true, true];
    assert_eq!(find_first_existing(&candidates, &exists), Some(0));
}

#[test]
fn first_existing_all_missing_is_none() {
    let candidates = paths(&["./a.js", "./b.js", "./c.js"]);
    let exists = vec![false, false, false];
    assert_eq!(find_first_existing(&candidates, &exists), None);
}

#[test]
fn first_existing_empty_list_is_none() {
    let candidates: Vec<String> = Vec::new();
    let exists: Vec<bool> = Vec::new();
    assert_eq!(find_first_existing(&candidates, &exists), None);
}

#[test]
fn runtime_sentinel_is_never_exhausted() {
    // An all-missing explicit-path list still resolves: the PATH sentinel wins.
    let candidates = vec![
        RuntimeCandidate::File { path: "/usr/local/bin/node".to_string() },
        RuntimeCandidate::File { path: "/usr/bin/node".to_string() },
        RuntimeCandidate::PathLookup { name: "node".to_string() },
    ];
    let file_exists = vec![false, false, false];
    assert_eq!(find_runtime(&candidates, &file_exists), Some(2));
}

#[test]
fn runtime_prefers_the_earliest_usable() {
    let candidates = vec![
        RuntimeCandidate::PathLookup { name: "node".to_string() },
        RuntimeCandidate::File { path: "/usr/bin/node".to_string() },
    ];
    let file_exists = vec![false, true];
    assert_eq!(find_runtime(&candidates, &file_exists), Some(0));
}

#[test]
fn runtime_existing_file_beats_later_sentinel() {
    let candidates = vec![
        RuntimeCandidate::File { path: "/usr/bin/node".to_string() },
        RuntimeCandidate::PathLookup { name: "node".to_string() },
    ];
    let file_exists = vec![true, false];
    assert_eq!(find_runtime(&candidates, &file_exists), Some(0));
}

#[test]
fn runtime_without_sentinel_can_exhaust() {
    let candidates = vec![
        RuntimeCandidate::File { path: "/usr/local/bin/node".to_string() },
        RuntimeCandidate::File { path: "/usr/bin/node".to_string() },
    ];
    let file_exists = vec![false, false];
    assert_eq!(find_runtime(&candidates, &file_exists), None);
}

#[test]
fn join_path_inserts_one_separator() {
    let base = "/app/resources".to_string();
    let rel = "dist/index.js".to_string();
    assert_eq!(join_path(&base, &rel), "/app/resources/dist/index.js");
}

#[test]
fn decimal_rendering_is_exact() {
    assert_eq!(u16_decimal(0), "0");
    assert_eq!(u16_decimal(7), "7");
    assert_eq!(u16_decimal(3001), "3001");
    assert_eq!(u16_decimal(5001), "5001");
    assert_eq!(u16_decimal(65535), "65535");
}

#[test]
fn spawn_env_pins_production_and_port() {
    let env = spawn_env(5001);
    assert_eq!(env.len(), 3);
    assert_eq!(env[0].0, "NODE_ENV");
    assert_eq!(env[0].1, "production");
    assert_eq!(env[1].0, "PORT");
    assert_eq!(env[1].1, "5001");
    assert_eq!(env[2].0, "TAURI_ENV");
    assert_eq!(env[2].1, "true");
}

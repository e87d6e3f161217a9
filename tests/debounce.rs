use watchx::debounce::{ChangedPath, DebounceGate, GateDecision};

fn batch(paths: &[&str]) -> Vec<ChangedPath> {
    paths.iter().map(|p| ChangedPath { path: p.to_string(), is_dir: false }).collect()
}

#[test]
fn second_burst_within_window_is_skipped_with_warning() {
    let rules = None;
    let mut gate = DebounceGate::new(1000);
    match gate.on_changes(5000, &batch(&["src/a.rs"]), &rules) {
        GateDecision::Trigger(p) => assert_eq!(p, vec!["src/a.rs".to_string()]),
        GateDecision::Skip { .. } => panic!("first burst must trigger"),
    }
    match gate.on_changes(5200, &batch(&["src/b.rs"]), &rules) {
        GateDecision::Skip { warn } => assert!(warn),
        GateDecision::Trigger(_) => panic!("second burst must be skipped"),
    }
}

#[test]
fn warnings_are_rate_limited() {
    let rules = None;
    let mut gate = DebounceGate::new(1000);
    assert!(matches!(gate.on_changes(5000, &batch(&["a"]), &rules), GateDecision::Trigger(_)));
    assert!(matches!(gate.on_changes(5200, &batch(&["a"]), &rules), GateDecision::Skip { warn: true }));
    assert!(matches!(gate.on_changes(5300, &batch(&["a"]), &rules), GateDecision::Skip { warn: false }));
    assert_eq!(gate.last_warned, Some(5200));
}

#[test]
fn window_holds_even_after_restart_finishes() {
    let rules = None;
    let mut gate = DebounceGate::new(1000);
    assert!(matches!(gate.on_changes(5000, &batch(&["a"]), &rules), GateDecision::Trigger(_)));
    gate.restart_finished();
    assert!(!gate.in_flight);
    assert!(matches!(gate.on_changes(5900, &batch(&["a"]), &rules), GateDecision::Skip { .. }));
    assert!(matches!(gate.on_changes(6001, &batch(&["a"]), &rules), GateDecision::Trigger(_)));
}

#[test]
fn running_restart_blocks_triggers() {
    let rules = None;
    let mut gate = DebounceGate::new(1000);
    assert!(matches!(gate.on_changes(5000, &batch(&["a"]), &rules), GateDecision::Trigger(_)));
    assert!(matches!(gate.on_changes(9000, &batch(&["a"]), &rules), GateDecision::Skip { warn: true }));
    assert_eq!(gate.last_accepted, Some(5000));
}

#[test]
fn ignored_batch_is_skipped_silently() {
    let rules = Some(vec!["build/".to_string()]);
    let mut gate = DebounceGate::new(1000);
    let before = gate;
    assert!(matches!(
        gate.on_changes(5000, &batch(&["build/x.js", "notes.txt~"]), &rules),
        GateDecision::Skip { warn: false }
    ));
    assert_eq!(gate, before);
}

#[test]
fn trigger_lists_only_kept_paths() {
    let rules = Some(vec!["*.log".to_string()]);
    let mut gate = DebounceGate::new(1000);
    match gate.on_changes(10, &batch(&["out.log", "src/a.rs", "src/b.rs"]), &rules) {
        GateDecision::Trigger(p) => assert_eq!(p, vec!["src/a.rs".to_string(), "src/b.rs".to_string()]),
        GateDecision::Skip { .. } => panic!("a kept path must trigger"),
    }
    assert!(gate.in_flight);
}

use oddlauncher::registry::{ProcessInfo, ProcessManager};
use oddlauncher::supervisor::{
    already_running_result, bookmark_missing_url_result, bookmark_opened_result, exit_code_message,
    failure_result, kill_all_ladder, kill_all_result, ladder_outcome, make_process_info,
    not_found_result, plan_start, spawn_error_message, started_result, status_all,
    status_snapshot, stop_ladder, stop_result, LaunchDecision, SpawnErrorKind, StopMethod,
};
use oddlauncher::HostOs;

fn info(pid: u32) -> ProcessInfo {
    ProcessInfo { pid, started_at: "2024-01-01T00:00:00+00:00".to_string(), pgid: Some(pid as i32) }
}

#[test]
fn registry_rejects_second_record_for_same_id() {
    let mut pm = ProcessManager::new();
    assert!(pm.try_register("app1".to_string(), info(10)));
    assert!(!pm.try_register("app1".to_string(), info(11)));
    assert_eq!(pm.count(), 1);
    assert_eq!(pm.get("app1").unwrap().pid, 10);
}

#[test]
fn removed_process_leaves_exactly_once_and_id_is_free_again() {
    let mut pm = ProcessManager::new();
    assert!(pm.try_register("app1".to_string(), info(10)));
    let taken = pm.take("app1").unwrap();
    assert_eq!(taken.pid, 10);
    assert!(pm.take("app1").is_none());
    assert!(pm.try_register("app1".to_string(), info(12)));
    assert_eq!(pm.get("app1").unwrap().pid, 12);
}

#[test]
fn take_leaves_other_records_alone() {
    let mut pm = ProcessManager::new();
    assert!(pm.try_register("a".to_string(), info(1)));
    assert!(pm.try_register("b".to_string(), info(2)));
    assert!(pm.take("a").is_some());
    assert!(pm.contains("b"));
    assert!(!pm.contains("a"));
}

#[test]
fn drain_empties_the_registry() {
    let mut pm = ProcessManager::new();
    assert!(pm.try_register("a".to_string(), info(1)));
    assert!(pm.try_register("b".to_string(), info(2)));
    let drained = pm.drain_all();
    assert_eq!(drained.len(), 2);
    assert_eq!(pm.count(), 0);
    assert_eq!(drained[0].0, "a");
    assert_eq!(drained[1].0, "b");
}

#[test]
fn status_reports_running_with_empty_output() {
    let mut pm = ProcessManager::new();
    assert!(pm.try_register("a".to_string(), info(42)));
    let s = status_snapshot(&pm, "a").unwrap();
    assert_eq!(s.app_id, "a");
    assert_eq!(s.pid, Some(42));
    assert!(s.output.is_empty());
    assert_eq!(s.is_background, Some(false));
    assert!(status_snapshot(&pm, "b").is_none());
    let all = status_all(&pm);
    assert_eq!(all.len(), 1);
    assert_eq!(all[0].app_id, "a");
}

#[test]
fn bookmark_launch_never_spawns() {
    let pm = ProcessManager::new();
    let d = plan_start(&pm, "app1", None, None, None, None, Some("http://x"), HostOs::Linux);
    match d {
        LaunchDecision::BookmarkOpen { url } => assert_eq!(url, "http://x"),
        _ => panic!("expected a bookmark open"),
    }
    let d2 = plan_start(
        &pm,
        "app1",
        Some("   \n  "),
        None,
        None,
        None,
        Some("http://x"),
        HostOs::Linux,
    );
    assert!(matches!(d2, LaunchDecision::BookmarkOpen { .. }));
    let d3 = plan_start(&pm, "app1", Some("  "), None, None, None, None, HostOs::Linux);
    assert!(matches!(d3, LaunchDecision::BookmarkMissingUrl));
}

#[test]
fn start_on_registered_id_is_rejected() {
    let mut pm = ProcessManager::new();
    assert!(pm.try_register("app1".to_string(), info(7)));
    let d = plan_start(&pm, "app1", Some("echo hi"), None, None, None, None, HostOs::Linux);
    assert!(matches!(d, LaunchDecision::AlreadyRunning));
}

#[test]
fn start_plan_resolves_spawn_command() {
    let pm = ProcessManager::new();
    let env = vec![("PORT".to_string(), "3000".to_string())];
    let d = plan_start(
        &pm,
        "app1",
        Some("echo hello"),
        None,
        Some(&env),
        None,
        None,
        HostOs::Linux,
    );
    match d {
        LaunchDecision::Spawn { program, args, cwd, env } => {
            assert_eq!(program, "echo");
            assert_eq!(args, vec!["hello".to_string()]);
            assert!(cwd.is_none());
            assert_eq!(env, vec![("PORT".to_string(), "3000".to_string())]);
        },
        _ => panic!("expected a spawn plan"),
    }
}

#[test]
fn process_info_gets_own_group_on_posix_only() {
    let p = make_process_info(321, HostOs::Linux);
    assert_eq!(p.pid, 321);
    assert_eq!(p.pgid, Some(321));
    let w = make_process_info(321, HostOs::Windows);
    assert!(w.pgid.is_none());
}

#[test]
fn stop_ladder_escalates_interrupt_terminate_kill() {
    let l = stop_ladder(HostOs::Linux);
    assert_eq!(l.len(), 3);
    assert_eq!(l[0].method, StopMethod::Interrupt);
    assert_eq!(l[0].wait_ms, 2000);
    assert_eq!(l[1].method, StopMethod::Terminate);
    assert_eq!(l[1].wait_ms, 2000);
    assert_eq!(l[2].method, StopMethod::Kill);
    assert_eq!(l[2].wait_ms, 1000);
    let w = stop_ladder(HostOs::Windows);
    assert_eq!(w.len(), 2);
    assert_eq!(w[1].method, StopMethod::Kill);
}

#[test]
fn child_that_dies_only_on_kill_succeeds_after_all_waits() {
    let ladder = stop_ladder(HostOs::Linux);
    let observed = vec![false, false, true];
    let outcome = ladder_outcome(&ladder, &observed);
    assert!(outcome.success);
    assert_eq!(outcome.method, Some(StopMethod::Kill));
    assert_eq!(outcome.attempts, 3);
    let waited: u64 = ladder[0].wait_ms + ladder[1].wait_ms;
    assert_eq!(waited, 4000);
    assert_eq!(ladder[2].wait_ms, 1000);
}

#[test]
fn ladder_stops_at_first_successful_step() {
    let ladder = stop_ladder(HostOs::Linux);
    let outcome = ladder_outcome(&ladder, &vec![false, true]);
    assert!(outcome.success);
    assert_eq!(outcome.method, Some(StopMethod::Terminate));
    assert_eq!(outcome.attempts, 2);
}

#[test]
fn exhausted_ladder_reports_failure() {
    let ladder = stop_ladder(HostOs::Linux);
    let outcome = ladder_outcome(&ladder, &vec![false, false, false]);
    assert!(!outcome.success);
    assert!(outcome.method.is_none());
    assert_eq!(outcome.attempts, 3);
    let r = stop_result(&outcome, 9, Some("SIGKILL to group failed: EPERM".to_string()));
    assert!(!r.success);
    assert_eq!(r.message, "SIGKILL to group failed: EPERM");
    let r2 = stop_result(&outcome, 9, None);
    assert_eq!(r2.message, "Failed to stop process within timeout");
    assert_eq!(r2.pid, Some(9));
}

#[test]
fn kill_all_ladder_has_no_interrupt_step() {
    let l = kill_all_ladder(HostOs::Linux);
    assert_eq!(l.len(), 2);
    assert_eq!(l[0].method, StopMethod::Terminate);
    assert_eq!(l[0].wait_ms, 1500);
    assert_eq!(l[1].method, StopMethod::Kill);
}

#[test]
fn kill_all_counts_sum_to_total() {
    let r = kill_all_result(&vec![true, false, true, false, false]);
    assert!(!r.success);
    assert_eq!(r.message, "Killed 2 processes, 3 failed");
    assert_eq!(r.error.as_deref(), Some("3 processes failed to stop"));
    let ok = kill_all_result(&vec![true, true]);
    assert!(ok.success);
    assert_eq!(ok.message, "Killed 2 processes, 0 failed");
    assert!(ok.error.is_none());
    let none = kill_all_result(&vec![]);
    assert!(none.success);
    assert_eq!(none.message, "Killed 0 processes, 0 failed");
}

#[test]
fn spawn_errors_are_classified() {
    assert_eq!(
        spawn_error_message(SpawnErrorKind::NotFound, "frob", ""),
        "Command not found: 'frob'. Make sure the command exists and is in your PATH."
    );
    assert_eq!(
        spawn_error_message(SpawnErrorKind::PermissionDenied, "frob", ""),
        "Permission denied when trying to execute: 'frob'"
    );
    assert_eq!(
        spawn_error_message(SpawnErrorKind::Other, "frob", "resource exhausted"),
        "Failed to start process: resource exhausted"
    );
}

#[test]
fn well_known_exit_codes_get_hints() {
    assert_eq!(
        exit_code_message(Some(127)),
        "OddLauncher: Process exited with code 127 (Command not found - check if executable exists in PATH)"
    );
    assert_eq!(
        exit_code_message(Some(126)),
        "OddLauncher: Process exited with code 126 (Permission denied - executable not permitted to run)"
    );
    assert_eq!(
        exit_code_message(Some(1)),
        "OddLauncher: Process exited with code 1 (General error - check command syntax and arguments)"
    );
    assert_eq!(
        exit_code_message(Some(2)),
        "OddLauncher: Process exited with code 2 (Misuse of shell builtins - check command usage)"
    );
    assert_eq!(
        exit_code_message(Some(130)),
        "OddLauncher: Process exited with code 130 (Process terminated by Ctrl+C)"
    );
    assert_eq!(exit_code_message(Some(42)), "OddLauncher: Process exited with code 42");
    assert_eq!(
        exit_code_message(Some(-2147483648)),
        "OddLauncher: Process exited with code -2147483648"
    );
    assert_eq!(
        exit_code_message(None),
        "OddLauncher: Process exited (no exit code available)"
    );
}

#[test]
fn result_builders_report_expected_fields() {
    let s = started_result(33);
    assert!(s.success);
    assert_eq!(s.message, "Process started successfully");
    assert_eq!(s.pid, Some(33));
    let a = already_running_result();
    assert!(!a.success);
    assert_eq!(a.error.as_deref(), Some("Process already exists"));
    let b = bookmark_opened_result("http://x");
    assert_eq!(b.message, "Opened URL: http://x");
    let m = bookmark_missing_url_result();
    assert_eq!(m.error.as_deref(), Some("No URL provided for bookmark app"));
    let f = failure_result("boom".to_string());
    assert_eq!(f.message, "boom");
    assert_eq!(f.error.as_deref(), Some("boom"));
    let n = not_found_result();
    assert_eq!(n.message, "Process not found or not running");
    assert_eq!(n.error.as_deref(), Some("Process not found"));
}

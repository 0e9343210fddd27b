use oddlauncher::browser::{
    classify_environment, check_url_scheme, file_open_attempts, open_result, open_url_attempts,
    url_open_attempts, AttemptEnd, ExecEnv,
};
use oddlauncher::poller::{
    check_url_for, classify_probe, poll_interval_ms, poll_over, poll_should_continue,
};
use oddlauncher::HostOs;

#[test]
fn poll_on_url_that_never_responds_returns_false_after_timeout() {
    let probes = vec![false; 60];
    assert!(!poll_over(&probes, 30000));
}

#[test]
fn poll_returns_true_on_first_success() {
    let probes = vec![false, false, true, false];
    assert!(poll_over(&probes, 30000));
}

#[test]
fn poll_gives_up_when_timeout_precedes_success() {
    let probes = vec![false, false, true];
    assert!(!poll_over(&probes, 1000));
}

#[test]
fn poll_loop_parameters_match_the_design() {
    assert_eq!(poll_interval_ms(), 500);
    assert!(poll_should_continue(0, 1));
    assert!(!poll_should_continue(5, 5));
}

#[test]
fn probe_outcome_maps_to_readiness() {
    assert!(classify_probe(Some(true)));
    assert!(!classify_probe(Some(false)));
    assert!(!classify_probe(None));
}

#[test]
fn check_url_prefers_explicit_scheme() {
    assert_eq!(check_url_for("http://example:8080", 3000), "http://example:8080");
    assert_eq!(check_url_for("myapp", 3000), "http://localhost:3000");
}

#[test]
fn wsl_is_detected_from_markers_or_kernel_banner() {
    assert_eq!(classify_environment(true, None, HostOs::Windows), ExecEnv::Wsl);
    assert_eq!(
        classify_environment(
            false,
            Some("Linux version 5.15.90.1-Microsoft-standard-WSL2"),
            HostOs::Linux
        ),
        ExecEnv::Wsl
    );
    assert_eq!(
        classify_environment(false, Some("Linux version 6.1.0"), HostOs::Linux),
        ExecEnv::Linux
    );
    assert_eq!(classify_environment(false, None, HostOs::MacOs), ExecEnv::MacOs);
    assert_eq!(classify_environment(false, None, HostOs::Windows), ExecEnv::Windows);
}

#[test]
fn url_scheme_is_validated_before_any_spawn() {
    assert!(check_url_scheme("http://x"));
    assert!(check_url_scheme("https://x"));
    assert!(check_url_scheme("file:///tmp/a"));
    assert!(!check_url_scheme("ftp://x"));
    let e = open_url_attempts("notaurl", ExecEnv::Linux).unwrap_err();
    assert_eq!(e, "Invalid URL format. Must start with http://, https://, or file://");
}

#[test]
fn http_url_attempts_follow_the_dispatch_table() {
    let linux = open_url_attempts("http://localhost:3000", ExecEnv::Linux).unwrap();
    assert_eq!(linux.len(), 1);
    assert_eq!(linux[0].program, "xdg-open");
    assert_eq!(linux[0].args, vec!["http://localhost:3000".to_string()]);

    let mac = url_open_attempts("http://x", ExecEnv::MacOs);
    assert_eq!(mac[0].program, "open");

    let win = url_open_attempts("http://x", ExecEnv::Windows);
    assert_eq!(win[0].program, "cmd");
    assert_eq!(
        win[0].args,
        vec!["/C".to_string(), "start".to_string(), "".to_string(), "http://x".to_string()]
    );

    let wsl = url_open_attempts("http://it's", ExecEnv::Wsl);
    assert_eq!(wsl.len(), 2);
    assert_eq!(wsl[0].program, "wslview");
    assert_eq!(wsl[1].program, "powershell.exe");
    assert_eq!(wsl[1].args[4], "Start-Process -FilePath 'http://it''s'");
}

#[test]
fn file_url_is_percent_decoded_before_use() {
    let attempts = open_url_attempts("file:///tmp/a%20b", ExecEnv::Linux).unwrap();
    assert_eq!(attempts.len(), 1);
    assert_eq!(attempts[0].program, "xdg-open");
    assert_eq!(attempts[0].args, vec!["/tmp/a b".to_string()]);
}

#[test]
fn windows_file_path_in_wsl_goes_through_powershell() {
    let attempts = file_open_attempts("/mnt/c/docs/readme.txt", ExecEnv::Wsl);
    assert_eq!(attempts.len(), 2);
    assert_eq!(attempts[0].program, "wslview");
    assert_eq!(attempts[1].program, "powershell.exe");
    assert_eq!(
        attempts[1].args[4],
        "Start-Process -FilePath 'C:\\docs\\readme.txt'"
    );
}

#[test]
fn linux_file_path_in_wsl_retries_wslview() {
    let attempts = file_open_attempts("/home/u/doc.pdf", ExecEnv::Wsl);
    assert_eq!(attempts.len(), 3);
    assert_eq!(attempts[0].program, "wslview");
    assert_eq!(attempts[1].program, "xdg-open");
    assert_eq!(attempts[2].program, "wslview");
}

#[test]
fn open_results_carry_exact_messages() {
    let ok = open_result("http://x", &AttemptEnd::Succeeded).unwrap();
    assert_eq!(ok, "Successfully opened http://x");
    let bad = open_result("http://x", &AttemptEnd::ExitedWith { code: Some(1) }).unwrap_err();
    assert_eq!(bad, "Failed to open URL http://x: process exited with code Some(1)");
    let none = open_result("http://x", &AttemptEnd::ExitedWith { code: None }).unwrap_err();
    assert_eq!(none, "Failed to open URL http://x: process exited with code None");
    let err = open_result(
        "http://x",
        &AttemptEnd::LaunchFailed { error: "no such file".to_string() },
    )
    .unwrap_err();
    assert_eq!(err, "Failed to open URL http://x: no such file");
}

#[test]
fn doubled_file_scheme_is_stripped() {
    let attempts = open_url_attempts("file://file:///tmp/x", ExecEnv::Linux).unwrap();
    assert_eq!(attempts[0].args, vec!["/tmp/x".to_string()]);
}

#[test]
fn file_url_that_decodes_to_invalid_utf8_is_rejected() {
    let e = open_url_attempts("file:///tmp/%FF", ExecEnv::Linux).unwrap_err();
    assert_eq!(e, "Failed to decode file path");
}

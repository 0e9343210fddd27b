use oddlauncher::terminal::{
    detect_unix_terminals, detect_windows_terminals, get_terminal_command, git_bash_heuristic,
    TerminalProbes,
};
use oddlauncher::HostOs;

fn no_probes() -> TerminalProbes {
    TerminalProbes {
        powershell: false,
        pwsh: false,
        git_bash: false,
        wsl: false,
        bash: false,
        zsh: false,
        fish: false,
        sh: false,
    }
}

#[test]
fn cmd_selector_embeds_directory_change() {
    let v = get_terminal_command("cmd", "echo hi", Some("C:\\x"));
    assert_eq!(
        v,
        vec![
            "cmd.exe".to_string(),
            "/c".to_string(),
            "cd /d \"C:\\x\" && echo hi".to_string()
        ]
    );
}

#[test]
fn cmd_selector_without_directory_runs_plain() {
    let v = get_terminal_command("cmd", "echo hi", None);
    assert_eq!(v, vec!["cmd.exe".to_string(), "/c".to_string(), "echo hi".to_string()]);
}

#[test]
fn powershell_selector_sets_location() {
    let v = get_terminal_command("powershell", "Get-Date", Some("C:\\w"));
    assert_eq!(
        v,
        vec![
            "powershell.exe".to_string(),
            "-Command".to_string(),
            "Set-Location -Path 'C:\\w'; Get-Date".to_string()
        ]
    );
}

#[test]
fn pwsh_selector_uses_pwsh_binary() {
    let v = get_terminal_command("pwsh", "Get-Date", None);
    assert_eq!(v[0], "pwsh.exe");
}

#[test]
fn gitbash_selector_converts_drive_path() {
    let v = get_terminal_command("gitbash", "ls", Some("C:\\Users\\me"));
    assert_eq!(
        v,
        vec![
            "bash.exe".to_string(),
            "-c".to_string(),
            "cd '/c/Users/me' && ls".to_string()
        ]
    );
}

#[test]
fn wsl_selector_builds_bootstrap_script() {
    let v = get_terminal_command("wsl", "npm start", Some("C:\\proj"));
    assert_eq!(v[0], "wsl.exe");
    assert_eq!(v[1], "bash");
    assert_eq!(v[2], "-c");
    let script = &v[3];
    assert!(script.starts_with("#!/bin/bash\nset -e\n"));
    assert!(script.contains("cd '/mnt/c/proj'"));
    assert!(script.ends_with("npm start"));
}

#[test]
fn plain_shell_selectors_use_matching_binary() {
    for shell in ["bash", "zsh", "fish", "sh"] {
        let v = get_terminal_command(shell, "ls", Some("/srv"));
        assert_eq!(v, vec![shell.to_string(), "-c".to_string(), "cd '/srv' && ls".to_string()]);
    }
}

#[test]
fn unknown_selector_falls_back_to_bash() {
    let v = get_terminal_command("weird-shell", "ls", None);
    assert_eq!(v, vec!["bash".to_string(), "-c".to_string(), "ls".to_string()]);
}

#[test]
fn windows_terminal_list_is_fixed_with_probed_availability() {
    let mut p = no_probes();
    p.powershell = true;
    p.git_bash = true;
    let v = detect_windows_terminals(&p);
    assert_eq!(v.len(), 5);
    assert_eq!(v[0].id, "cmd");
    assert_eq!(v[0].name, "Command Prompt");
    assert_eq!(v[0].executable, "cmd.exe");
    assert!(v[0].available);
    assert_eq!(v[0].platform, "windows");
    assert!(v[1].available);
    assert!(!v[2].available);
    assert_eq!(v[3].id, "gitbash");
    assert_eq!(v[3].executable, "bash.exe");
    assert!(v[3].available);
    assert_eq!(v[4].id, "wsl");
    assert_eq!(v[4].name, "Windows Subsystem for Linux");
}

#[test]
fn unix_terminal_list_tags_platform_by_host() {
    let mut p = no_probes();
    p.bash = true;
    p.sh = true;
    let mac = detect_unix_terminals(&p, HostOs::MacOs);
    assert_eq!(mac.len(), 4);
    assert_eq!(mac[0].id, "bash");
    assert!(mac[0].available);
    assert!(!mac[1].available);
    assert_eq!(mac[0].platform, "macos");
    let lin = detect_unix_terminals(&p, HostOs::Linux);
    assert_eq!(lin[3].id, "sh");
    assert_eq!(lin[3].platform, "linux");
}

#[test]
fn git_bash_heuristic_checks_path_then_version() {
    assert!(git_bash_heuristic(Some("C:\\Program Files\\Git\\bin\\bash.exe"), None));
    assert!(git_bash_heuristic(
        Some("C:\\bin\\bash.exe"),
        Some("GNU bash, version 5 (Git for Windows)")
    ));
    assert!(!git_bash_heuristic(Some("/usr/bin/bash"), Some("GNU bash, version 5")));
    assert!(!git_bash_heuristic(None, Some("git")));
}

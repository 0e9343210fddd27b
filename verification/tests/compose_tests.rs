use oddlauncher::compose::{
    prepare_command, prepare_multi_command_execution, prepare_unix_multi_command,
    prepare_windows_multi_command, prepare_wsl_command, split_command_lines,
};
use oddlauncher::HostOs;

#[test]
fn command_lines_are_trimmed_and_filtered() {
    let lines = split_command_lines("  npm install  \n\n   \n npm start\n");
    assert_eq!(lines, vec!["npm install".to_string(), "npm start".to_string()]);
}

#[test]
fn single_command_is_tokenized() {
    let (prog, args) = prepare_command("npm run dev", None, HostOs::Linux).unwrap();
    assert_eq!(prog, "npm");
    assert_eq!(args, vec!["run".to_string(), "dev".to_string()]);
}

#[test]
fn empty_command_is_rejected() {
    let e = prepare_command("   ", None, HostOs::Linux).unwrap_err();
    assert_eq!(e, "Command cannot be empty");
}

#[test]
fn wsl_directory_routes_through_wsl_on_windows() {
    let (prog, args) = prepare_command("ls -la", Some("/home/u"), HostOs::Windows).unwrap();
    assert_eq!(prog, "wsl.exe");
    assert_eq!(
        args,
        vec![
            "--cd".to_string(),
            "/home/u".to_string(),
            "ls".to_string(),
            "-la".to_string()
        ]
    );
}

#[test]
fn wsl_command_without_posix_directory_omits_cd() {
    let args: Vec<String> = vec!["-la".to_string()];
    let (prog, rest) = prepare_wsl_command("ls", &args, Some("wsl.localhost-ish"), HostOs::Windows)
        .unwrap();
    assert_eq!(prog, "wsl.exe");
    assert_eq!(rest, vec!["ls".to_string(), "-la".to_string()]);
}

#[test]
fn posix_script_has_set_e_and_traces_in_order() {
    let commands = vec!["npm install".to_string(), "npm start".to_string()];
    let (prog, args) = prepare_unix_multi_command(&commands, None, HostOs::Linux).unwrap();
    assert_eq!(prog, "bash");
    assert_eq!(args[0], "-c");
    let script = &args[1];
    assert!(script.contains("set -e"));
    let t1 = "echo \"OddLauncher: Executing command 1: npm install\"";
    let t2 = "echo \"OddLauncher: Executing command 2: npm start\"";
    let p1 = script.find(t1).unwrap();
    let c1 = script.find("\nnpm install").unwrap();
    let p2 = script.find(t2).unwrap();
    let c2 = script.find("\nnpm start").unwrap();
    assert!(p1 < c1 && c1 < p2 && p2 < c2);
}

#[test]
fn posix_script_sources_nvm_when_mentioned() {
    let commands = vec!["nvm use 16".to_string(), "npm start".to_string()];
    let (_, args) = prepare_unix_multi_command(&commands, None, HostOs::Linux).unwrap();
    assert!(args[1].contains("# Initialize nvm if available"));
    assert!(!args[1].contains("# Initialize rbenv if available"));
}

#[test]
fn posix_script_embeds_working_directory() {
    let commands = vec!["a".to_string(), "b".to_string()];
    let (_, args) = prepare_unix_multi_command(&commands, Some("/srv/app"), HostOs::Linux).unwrap();
    assert!(args[1].contains("cd '/srv/app'"));
}

#[test]
fn windows_batch_script_propagates_failures() {
    let commands = vec!["build.bat".to_string(), "run.bat".to_string()];
    let (prog, args) =
        prepare_windows_multi_command(&commands, Some("C:\\x"), HostOs::Windows).unwrap();
    assert_eq!(prog, "cmd.exe");
    assert_eq!(args[0], "/c");
    let script = &args[1];
    assert!(script.starts_with("@echo off\nsetlocal enabledelayedexpansion"));
    assert!(script.contains("cd /d \"C:\\x\""));
    assert_eq!(
        script.matches("if !errorlevel! neq 0 exit /b !errorlevel!").count(),
        2
    );
}

#[test]
fn windows_wsl_script_sanitizes_path_and_changes_directory() {
    let commands = vec!["npm start".to_string()];
    let (prog, args) =
        prepare_windows_multi_command(&commands, Some("/home/u/app"), HostOs::Windows).unwrap();
    assert_eq!(prog, "wsl.exe");
    assert_eq!(args[0], "bash");
    assert_eq!(args[1], "-c");
    let script = &args[2];
    assert!(script.contains("set -e"));
    assert!(script.contains("grep -v '^/mnt/c'"));
    assert!(script.contains("cd '/home/u/app'"));
    assert!(script.contains("npm start"));
}

#[test]
fn multi_dispatch_uses_terminal_strategy_first() {
    let (prog, args) = prepare_multi_command_execution(
        "echo hi",
        Some("C:\\x"),
        Some("powershell"),
        HostOs::Windows,
    )
    .unwrap();
    assert_eq!(prog, "powershell.exe");
    assert_eq!(args[0], "-Command");
    assert_eq!(args[1], "Set-Location -Path 'C:\\x'; echo hi");
}

#[test]
fn multi_dispatch_rejects_empty_input() {
    let e = prepare_multi_command_execution("  \n ", None, None, HostOs::Linux).unwrap_err();
    assert_eq!(e, "No valid commands found");
}

#[test]
fn multi_dispatch_single_line_uses_plain_tokenizer() {
    let (prog, args) =
        prepare_multi_command_execution("cargo run --release\n", None, None, HostOs::Linux)
            .unwrap();
    assert_eq!(prog, "cargo");
    assert_eq!(args, vec!["run".to_string(), "--release".to_string()]);
}

#[test]
fn multi_dispatch_many_lines_generate_script_on_posix() {
    let (prog, args) =
        prepare_multi_command_execution("a\nb", None, None, HostOs::Linux).unwrap();
    assert_eq!(prog, "bash");
    assert_eq!(args[0], "-c");
    assert!(args[1].contains("set -e"));
}

#[test]
fn invalid_wsl_directory_fails_composition() {
    let e = prepare_unix_multi_command(
        &vec!["a".to_string(), "b".to_string()],
        Some("\\\\wsl.localhost\\only"),
        HostOs::Linux,
    )
    .unwrap_err();
    assert_eq!(e, "Invalid WSL path format: \\\\wsl.localhost\\only");
}

#[test]
fn extra_whitespace_is_ignored_when_tokenizing() {
    let (prog, args) = prepare_command("  npm \t  start  ", None, HostOs::Linux).unwrap();
    assert_eq!(prog, "npm");
    assert_eq!(args, vec!["start".to_string()]);
}

#[test]
fn windows_wsl_script_traces_commands_in_order() {
    let commands = vec!["npm install".to_string(), "npm start".to_string()];
    let (_, args) =
        prepare_windows_multi_command(&commands, Some("/home/u"), HostOs::Windows).unwrap();
    let script = &args[2];
    let t1 = script
        .find("echo \"OddLauncher: Executing command 1: npm install\"")
        .unwrap();
    let c1 = script.find("\nnpm install").unwrap();
    let t2 = script
        .find("echo \"OddLauncher: Executing command 2: npm start\"")
        .unwrap();
    let c2 = script.find("\nnpm start").unwrap();
    assert!(t1 < c1 && c1 < t2 && t2 < c2);
}

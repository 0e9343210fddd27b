use oddlauncher::paths::{
    convert_path_for_windows, convert_to_unix_path, convert_to_wsl_path, convert_wsl_network_path,
    looks_like_windows_drive_path, normalize_path, should_use_wsl, validate_directory,
};
use oddlauncher::HostOs;

#[test]
fn wsl_network_path_converts_to_posix() {
    let r = convert_wsl_network_path("\\\\wsl.localhost\\Ubuntu\\home\\u\\proj").unwrap();
    assert_eq!(r, "/home/u/proj");
}

#[test]
fn wsl_network_path_forward_slash_form_converts() {
    let r = normalize_path("//wsl.localhost/Ubuntu/home/u/proj", HostOs::Linux).unwrap();
    assert_eq!(r, "/home/u/proj");
}

#[test]
fn wsl_network_path_single_segment_is_invalid() {
    let e = convert_wsl_network_path("\\\\wsl.localhost\\Ubuntu").unwrap_err();
    assert_eq!(e, "Invalid WSL path format: \\\\wsl.localhost\\Ubuntu");
}

#[test]
fn normalize_backslashes_on_posix_host() {
    let r = normalize_path("C:\\Users\\me", HostOs::Linux).unwrap();
    assert_eq!(r, "C:/Users/me");
}

#[test]
fn normalize_forward_slashes_on_windows_host() {
    let r = normalize_path("src/main/app", HostOs::Windows).unwrap();
    assert_eq!(r, "src\\main\\app");
}

#[test]
fn normalize_keeps_absolute_posix_path_on_windows_host() {
    let r = normalize_path("/home/u/proj", HostOs::Windows).unwrap();
    assert_eq!(r, "/home/u/proj");
}

#[test]
fn normalize_is_idempotent_on_samples() {
    let samples = [
        "C:\\Users\\me",
        "src/main/app",
        "/home/u/proj",
        "\\\\wsl.localhost\\Ubuntu\\home\\u",
        "plain",
        "",
        "a\\b/c",
    ];
    for host in [HostOs::Windows, HostOs::MacOs, HostOs::Linux] {
        for s in samples {
            if let Ok(once) = normalize_path(s, host) {
                let twice = normalize_path(&once, host).unwrap();
                assert_eq!(twice, once, "not idempotent for {:?} on {:?}", s, host);
            }
        }
    }
}

#[test]
fn drive_path_converts_to_git_bash_form() {
    assert_eq!(convert_to_unix_path("C:\\Users\\me"), "/c/Users/me");
}

#[test]
fn drive_path_converts_to_wsl_form() {
    assert_eq!(convert_to_wsl_path("C:\\Users\\me"), "/mnt/c/Users/me");
}

#[test]
fn non_drive_path_conversions_only_rewrite_separators() {
    assert_eq!(convert_to_unix_path("rel\\path"), "rel/path");
    assert_eq!(convert_to_wsl_path("rel\\path"), "rel/path");
}

#[test]
fn mnt_c_path_converts_back_to_windows() {
    assert_eq!(convert_path_for_windows("/mnt/c/Users/me"), "C:\\Users\\me");
}

#[test]
fn other_mount_converts_back_to_windows_drive() {
    assert_eq!(convert_path_for_windows("/mnt/d/work"), "D:\\\\work");
}

#[test]
fn windows_path_with_slashes_is_normalized() {
    assert_eq!(convert_path_for_windows("C:/Users/me"), "C:\\Users\\me");
}

#[test]
fn plain_posix_path_stays_as_is_for_windows() {
    assert_eq!(convert_path_for_windows("/home/u"), "/home/u");
}

#[test]
fn drive_letter_classifier_recognizes_drive_forms() {
    assert!(looks_like_windows_drive_path("C:/Users"));
    assert!(looks_like_windows_drive_path("/C:/Users"));
    assert!(!looks_like_windows_drive_path("/home/u"));
    assert!(!looks_like_windows_drive_path("C:"));
}

#[test]
fn wsl_usage_follows_working_directory() {
    assert!(should_use_wsl("npm", Some("/home/u")));
    assert!(should_use_wsl("npm", Some("\\\\wsl.localhost\\U\\x")));
    assert!(!should_use_wsl("npm", Some("C:\\x")));
    assert!(!should_use_wsl("npm", None));
}

#[test]
fn validate_directory_accepts_root_on_posix() {
    let r = validate_directory("/", HostOs::Linux).unwrap();
    assert_eq!(r, "/");
}

#[test]
fn validate_directory_rejects_missing_directory() {
    let e = validate_directory("/surely_not_an_existing_dir_0x5f3759df", HostOs::Linux)
        .unwrap_err();
    assert_eq!(
        e,
        "Directory does not exist: /surely_not_an_existing_dir_0x5f3759df"
    );
}

#[test]
fn validate_directory_trusts_wsl_paths_on_windows_host() {
    let r = validate_directory("/home/u/project", HostOs::Windows).unwrap();
    assert_eq!(r, "/home/u/project");
}

#[test]
fn validate_directory_rejects_file_as_directory() {
    let e = validate_directory("/etc/passwd", HostOs::Linux).unwrap_err();
    assert_eq!(e, "Path is not a directory: /etc/passwd");
}

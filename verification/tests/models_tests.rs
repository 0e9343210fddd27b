use oddlauncher::config_ops::{add_app_to_config, remove_app_from_config, update_app_in_config};
use oddlauncher::models::{
    AppConfig, AppError, AppStatus, AppType, GlobalConfig, GlobalSettings, TerminalSettings,
};

fn app(id: &str, commands: Option<&str>, url: Option<&str>) -> AppConfig {
    AppConfig {
        id: id.to_string(),
        name: format!("App {}", id),
        launch_commands: commands.map(|c| c.to_string()),
        working_directory: None,
        url: url.map(|u| u.to_string()),
        environment_variables: None,
        auto_launch_browser: None,
        browser_delay: None,
        port_to_check: None,
        port_check_timeout: None,
        tags: None,
        terminal_type: None,
        app_type: None,
        last_used_at: None,
        use_count: None,
        created_at: "2024-01-01T00:00:00+00:00".to_string(),
        updated_at: "2024-01-01T00:00:00+00:00".to_string(),
    }
}

fn config_with(apps: Vec<AppConfig>) -> GlobalConfig {
    GlobalConfig {
        version: "1.0.0".to_string(),
        apps,
        settings: GlobalSettings::default(),
        last_modified: "2024-01-01T00:00:00+00:00".to_string(),
    }
}

#[test]
fn app_type_follows_commands_and_url() {
    assert_eq!(app("a", Some("npm start"), Some("http://x")).get_app_type(), AppType::Both);
    assert_eq!(app("a", Some("npm start"), None).get_app_type(), AppType::Process);
    assert_eq!(app("a", None, Some("http://x")).get_app_type(), AppType::Bookmark);
    assert_eq!(app("a", Some("   "), Some("http://x")).get_app_type(), AppType::Bookmark);
    assert_eq!(app("a", None, None).get_app_type(), AppType::Bookmark);
}

#[test]
fn explicit_app_type_wins_over_classification() {
    let mut a = app("a", Some("npm start"), Some("http://x"));
    a.app_type = Some(AppType::Bookmark);
    assert_eq!(a.get_app_type(), AppType::Bookmark);
    assert!(a.is_bookmark_app());
    assert!(!a.is_process_app());
}

#[test]
fn process_classification_covers_both() {
    assert!(app("a", Some("x"), Some("http://y")).is_process_app());
    assert!(app("a", Some("x"), None).is_process_app());
    assert!(!app("a", None, Some("http://y")).is_process_app());
    assert!(app("a", None, Some("http://y")).is_bookmark_app());
}

#[test]
fn default_status_is_stopped() {
    assert_eq!(AppStatus::default(), AppStatus::Stopped);
}

#[test]
fn default_settings_match_the_design() {
    let t = TerminalSettings::default();
    assert_eq!(t.default_shell, "zsh");
    assert!(t.use_login_shell);
    assert!(t.inherit_environment);
    assert_eq!(t.default_source_files, vec!["~/.zshrc".to_string(), "~/.profile".to_string()]);
    assert!(t.default_environment_variables.is_empty());
    let g = GlobalSettings::default();
    assert_eq!(g.theme, "dark");
    assert_eq!(g.max_terminal_lines, 1000);
    assert!(g.auto_save);
    assert!(g.default_browser.is_none());
    let c = GlobalConfig::default();
    assert_eq!(c.version, "1.0.0");
    assert!(c.apps.is_empty());
}

#[test]
fn app_error_carries_code_message_and_details() {
    let e = AppError::new("SOME_CODE", "something went wrong");
    assert_eq!(e.code, "SOME_CODE");
    assert_eq!(e.message, "something went wrong");
    assert!(e.details.is_none());
    let e2 = e.with_details(vec![("k".to_string(), "v".to_string())]);
    assert_eq!(e2.code, "SOME_CODE");
    assert_eq!(e2.details.unwrap(), vec![("k".to_string(), "v".to_string())]);
}

#[test]
fn adding_an_app_appends_it() {
    let c = config_with(vec![app("a", None, Some("http://x"))]);
    let c2 = add_app_to_config(c, app("b", Some("npm start"), None)).unwrap();
    assert_eq!(c2.apps.len(), 2);
    assert_eq!(c2.apps[1].id, "b");
}

#[test]
fn adding_a_duplicate_id_is_rejected() {
    let c = config_with(vec![app("a", None, Some("http://x"))]);
    let e = add_app_to_config(c, app("a", None, None)).unwrap_err();
    assert_eq!(e.code, "APP_EXISTS_ERROR");
    assert_eq!(e.message, "App with ID 'a' already exists");
}

#[test]
fn updating_replaces_the_matching_app() {
    let c = config_with(vec![app("a", None, None), app("b", None, None)]);
    let mut replacement = app("b", Some("cargo run"), None);
    replacement.name = "New name".to_string();
    let c2 = update_app_in_config(c, replacement).unwrap();
    assert_eq!(c2.apps.len(), 2);
    assert_eq!(c2.apps[1].name, "New name");
    assert_eq!(c2.apps[1].launch_commands.as_deref(), Some("cargo run"));
}

#[test]
fn updating_an_unknown_id_is_rejected() {
    let c = config_with(vec![app("a", None, None)]);
    let e = update_app_in_config(c, app("zz", None, None)).unwrap_err();
    assert_eq!(e.code, "APP_NOT_FOUND_ERROR");
    assert_eq!(e.message, "App with ID 'zz' not found");
}

#[test]
fn removing_deletes_the_matching_app() {
    let c = config_with(vec![app("a", None, None), app("b", None, None), app("c", None, None)]);
    let c2 = remove_app_from_config(c, "b").unwrap();
    assert_eq!(c2.apps.len(), 2);
    assert_eq!(c2.apps[0].id, "a");
    assert_eq!(c2.apps[1].id, "c");
}

#[test]
fn removing_an_unknown_id_is_rejected() {
    let c = config_with(vec![app("a", None, None)]);
    let e = remove_app_from_config(c, "zz").unwrap_err();
    assert_eq!(e.code, "APP_NOT_FOUND_ERROR");
}

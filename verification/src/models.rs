//! The data model: app configuration, runtime process snapshots,
//! settings, terminal descriptors and the error value.

use crate::outside::now_rfc3339;
use crate::text::{trim, trim_spec, views};
use vstd::prelude::*;
use vstd::string::StrSliceExecFns;
use vstd::string::StringExecFns;

verus! {

/// Status of an application process.
#[derive(Clone, Copy, PartialEq, Eq, Structural, Debug)]
pub enum AppStatus {
    Stopped,
    Starting,
    Running,
    Stopping,
    Error,
}

impl Default for AppStatus {
    fn default() -> (r: Self)
        ensures
            r is Stopped,
    {
        AppStatus::Stopped
    }
}

/// Type of application: a supervised process, a plain bookmark, or both.
#[derive(Clone, Copy, PartialEq, Eq, Structural, Debug)]
pub enum AppType {
    Process,
    Bookmark,
    Both,
}

/// Configuration for an individual app.
#[derive(Clone, Debug)]
pub struct AppConfig {
    /// Unique identifier for the app.
    pub id: String,
    /// Display name of the app.
    pub name: String,
    /// Shell commands to execute sequentially, one per line; absent for
    /// bookmark apps.
    pub launch_commands: Option<String>,
    /// Working directory for the commands.
    pub working_directory: Option<String>,
    /// URL to open in a browser when the app starts.
    pub url: Option<String>,
    /// Environment variables to set; names are unique.
    pub environment_variables: Option<Vec<(String, String)>>,
    /// Auto-launch the browser when the app starts.
    pub auto_launch_browser: Option<bool>,
    /// Delay in seconds before opening the browser.
    pub browser_delay: Option<u32>,
    /// Port to poll for readiness before opening the browser.
    pub port_to_check: Option<u16>,
    /// Maximum time to wait for the port, in seconds.
    pub port_check_timeout: Option<u32>,
    /// Tags for organization and filtering.
    pub tags: Option<Vec<String>>,
    /// Terminal or shell selector for executing the commands.
    pub terminal_type: Option<String>,
    /// Explicit app type, overriding classification.
    pub app_type: Option<AppType>,
    /// Last time the app was used.
    pub last_used_at: Option<String>,
    /// Total times the app has been used.
    pub use_count: Option<u64>,
    /// Creation timestamp.
    pub created_at: String,
    /// Last modification timestamp.
    pub updated_at: String,
}

impl AppConfig {
    /// The app has command lines that are non-empty after trimming.
    pub open spec fn has_commands(self) -> bool {
        match self.launch_commands {
            Some(c) => trim_spec(c@).len() > 0,
            None => false,
        }
    }

    /// The app has a URL that is non-empty after trimming.
    pub open spec fn has_url(self) -> bool {
        match self.url {
            Some(u) => trim_spec(u@).len() > 0,
            None => false,
        }
    }

    /// The classification `get_app_type` returns.
    pub open spec fn app_type_spec(self) -> AppType {
        match self.app_type {
            Some(t) => t,
            None => if self.has_commands() && self.has_url() {
                AppType::Both
            } else if self.has_commands() {
                AppType::Process
            } else {
                AppType::Bookmark
            },
        }
    }

    /// Determine the type of app: an explicit type wins, otherwise the
    /// presence of command lines and of a URL decides.
    pub fn get_app_type(&self) -> (r: AppType)
        ensures
            r == self.app_type_spec(),
    {
        match &self.app_type {
            Some(t) => *t,
            None => {
                let has_cmd: bool = match &self.launch_commands {
                    Some(c) => trim(c.as_str()).as_str().unicode_len() > 0,
                    None => false,
                };
                let has_url: bool = match &self.url {
                    Some(u) => trim(u.as_str()).as_str().unicode_len() > 0,
                    None => false,
                };
                if has_cmd && has_url {
                    AppType::Both
                } else if has_cmd {
                    AppType::Process
                } else {
                    AppType::Bookmark
                }
            },
        }
    }

    /// Whether this is a bookmark app (URL-only).
    pub fn is_bookmark_app(&self) -> (r: bool)
        ensures
            r == (self.app_type_spec() is Bookmark),
    {
        let t: AppType = self.get_app_type();
        match t {
            AppType::Bookmark => true,
            _ => false,
        }
    }

    /// Whether this app runs a supervised process.
    pub fn is_process_app(&self) -> (r: bool)
        ensures
            r == (self.app_type_spec() is Process || self.app_type_spec() is Both),
    {
        let t: AppType = self.get_app_type();
        match t {
            AppType::Process => true,
            AppType::Both => true,
            _ => false,
        }
    }
}

/// Runtime information about a running app.
#[derive(Clone, Debug)]
pub struct AppProcess {
    /// App configuration id.
    pub app_id: String,
    /// Process id, when running.
    pub pid: Option<u32>,
    /// Current status.
    pub status: AppStatus,
    /// Start time, when running.
    pub started_at: Option<String>,
    /// Last error message, when the status is an error.
    pub error_message: Option<String>,
    /// Terminal output buffer; output is streamed, so this stays empty.
    pub output: Vec<String>,
    /// Whether the process is detached.
    pub is_background: Option<bool>,
}

/// Complete app state combining configuration and runtime information.
#[derive(Clone, Debug)]
pub struct AppState {
    /// App configuration.
    pub config: AppConfig,
    /// Runtime process information.
    pub process: Option<AppProcess>,
}

/// Terminal configuration settings.
#[derive(Clone, Debug)]
pub struct TerminalSettings {
    /// Default shell to use.
    pub default_shell: String,
    /// Whether to run as a login shell by default.
    pub use_login_shell: bool,
    /// Whether to inherit the current environment.
    pub inherit_environment: bool,
    /// Default source files to load for all apps.
    pub default_source_files: Vec<String>,
    /// Default environment variables for all apps.
    pub default_environment_variables: Vec<(String, String)>,
}

impl Default for TerminalSettings {
    fn default() -> (r: Self)
        ensures
            r.default_shell@ == "zsh"@,
            r.use_login_shell,
            r.inherit_environment,
            views(r.default_source_files@) == seq!["~/.zshrc"@, "~/.profile"@],
            r.default_environment_variables@.len() == 0,
    {
        let mut files: Vec<String> = Vec::new();
        files.push(String::from_str("~/.zshrc"));
        files.push(String::from_str("~/.profile"));
        proof {
            assert(views(files@) =~= seq!["~/.zshrc"@, "~/.profile"@]);
        }
        TerminalSettings {
            default_shell: String::from_str("zsh"),
            use_login_shell: true,
            inherit_environment: true,
            default_source_files: files,
            default_environment_variables: Vec::new(),
        }
    }
}

/// Global application settings.
#[derive(Clone, Debug)]
pub struct GlobalSettings {
    /// Theme preference.
    pub theme: String,
    /// Default working directory for new apps.
    pub default_working_directory: Option<String>,
    /// Maximum lines to keep in a terminal output buffer.
    pub max_terminal_lines: u32,
    /// Default browser command; the system default when absent.
    pub default_browser: Option<String>,
    /// Auto-save configuration changes.
    pub auto_save: bool,
    /// Terminal configuration settings.
    pub terminal: TerminalSettings,
}

impl Default for GlobalSettings {
    fn default() -> (r: Self)
        ensures
            r.theme@ == "dark"@,
            r.default_working_directory is None,
            r.max_terminal_lines == 1000,
            r.default_browser is None,
            r.auto_save,
            r.terminal.default_shell@ == "zsh"@,
    {
        GlobalSettings {
            theme: String::from_str("dark"),
            default_working_directory: None,
            max_terminal_lines: 1000,
            default_browser: None,
            auto_save: true,
            terminal: TerminalSettings::default(),
        }
    }
}

/// Global application configuration.
#[derive(Clone, Debug)]
pub struct GlobalConfig {
    /// Version of the configuration format.
    pub version: String,
    /// Applications configuration.
    pub apps: Vec<AppConfig>,
    /// Global settings.
    pub settings: GlobalSettings,
    /// Last modification timestamp.
    pub last_modified: String,
}

impl Default for GlobalConfig {
    fn default() -> (r: Self)
        ensures
            r.version@ == "1.0.0"@,
            r.apps@.len() == 0,
            r.settings.theme@ == "dark"@,
            r.settings.auto_save,
    {
        GlobalConfig {
            version: String::from_str("1.0.0"),
            apps: Vec::new(),
            settings: GlobalSettings::default(),
            last_modified: now_rfc3339(),
        }
    }
}

/// An error value for app operations.
#[derive(Clone, Debug)]
pub struct AppError {
    /// Error code.
    pub code: String,
    /// Human-readable error message.
    pub message: String,
    /// Additional context.
    pub details: Option<Vec<(String, String)>>,
    /// When the error occurred.
    pub timestamp: String,
}

impl AppError {
    /// A fresh error with the given code and message.
    pub fn new(code: &str, message: &str) -> (r: Self)
        ensures
            r.code@ == code@,
            r.message@ == message@,
            r.details is None,
    {
        AppError {
            code: String::from_str(code),
            message: String::from_str(message),
            details: None,
            timestamp: now_rfc3339(),
        }
    }

    /// The same error carrying extra context.
    pub fn with_details(self, details: Vec<(String, String)>) -> (r: Self)
        ensures
            r.code == self.code,
            r.message == self.message,
            r.timestamp == self.timestamp,
            r.details matches Some(d) && d@ == details@,
    {
        AppError { details: Some(details), ..self }
    }
}

/// Information about an available terminal or shell.
#[derive(Clone, Debug)]
pub struct TerminalInfo {
    /// Unique identifier for the terminal type.
    pub id: String,
    /// Display name.
    pub name: String,
    /// Executable path or command.
    pub executable: String,
    /// Whether the terminal is available on this system.
    pub available: bool,
    /// Platform the terminal belongs to.
    pub platform: String,
}

} // verus!

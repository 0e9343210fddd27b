//! The process supervisor's decision core: planning a launch,
//! classifying spawn failures, the termination escalation ladder, the
//! bulk kill tally, and registry status snapshots.
//!
//! The supervisor decides; the surrounding runtime performs the spawn,
//! the signalling and the waits, and hands the observed outcomes back.

use crate::compose::{
    batch_lines, command_lines, dir_indicates_wsl, opt_view, prepare_multi_command_execution,
    unix_script_lines, win_wsl_lines, ws_tokens, wsl_cd_args,
};
use crate::models::{AppProcess, AppStatus};
use crate::outside::now_rfc3339;
use crate::paths::{invalid_wsl_message, normalize_spec, validate_directory};
use crate::registry::{ProcessInfo, ProcessManager};
use crate::terminal::terminal_command_spec;
use crate::text::{append_dec, dec_rep, dec_rep_signed, i64_to_dec, join_with, trim, trim_spec, u64_to_dec, views};
use crate::HostOs;
use vstd::prelude::*;
use vstd::string::StrSliceExecFns;
use vstd::string::StringExecFns;

verus! {

// ---------------------------------------------------------------------------
// Results
// ---------------------------------------------------------------------------

/// The result value every supervisor operation returns to its caller.
#[derive(Clone, Debug)]
pub struct ProcessResult {
    pub success: bool,
    pub message: String,
    pub pid: Option<u32>,
    pub error: Option<String>,
}

/// The result reported after a successful spawn.
pub fn started_result(pid: u32) -> (r: ProcessResult)
    ensures
        r.success,
        r.message@ == "Process started successfully"@,
        r.pid == Some(pid),
        r.error is None,
{
    ProcessResult {
        success: true,
        message: String::from_str("Process started successfully"),
        pid: Some(pid),
        error: None,
    }
}

/// The rejection reported when a record already exists for the app id.
pub fn already_running_result() -> (r: ProcessResult)
    ensures
        !r.success,
        r.message@ == "Process is already running"@,
        r.pid is None,
        r.error matches Some(e) && e@ == "Process already exists"@,
{
    ProcessResult {
        success: false,
        message: String::from_str("Process is already running"),
        pid: None,
        error: Some(String::from_str("Process already exists")),
    }
}

/// The result reported after a bookmark app's URL was opened.
pub fn bookmark_opened_result(url: &str) -> (r: ProcessResult)
    ensures
        r.success,
        r.message@ == "Opened URL: "@ + url@,
        r.pid is None,
        r.error is None,
{
    let mut m: String = String::from_str("Opened URL: ");
    m.append(url);
    ProcessResult { success: true, message: m, pid: None, error: None }
}

/// The rejection reported for a bookmark app without a URL.
pub fn bookmark_missing_url_result() -> (r: ProcessResult)
    ensures
        !r.success,
        r.message@ == "Bookmark apps require a URL"@,
        r.pid is None,
        r.error matches Some(e) && e@ == "No URL provided for bookmark app"@,
{
    ProcessResult {
        success: false,
        message: String::from_str("Bookmark apps require a URL"),
        pid: None,
        error: Some(String::from_str("No URL provided for bookmark app")),
    }
}

/// A failure result carrying the same text as message and error.
pub fn failure_result(message: String) -> (r: ProcessResult)
    ensures
        !r.success,
        r.message == message,
        r.pid is None,
        r.error matches Some(e) && e == message,
{
    let copy: String = message.clone();
    ProcessResult { success: false, message, pid: None, error: Some(copy) }
}

/// The non-error result for stopping an app that is not running.
pub fn not_found_result() -> (r: ProcessResult)
    ensures
        !r.success,
        r.message@ == "Process not found or not running"@,
        r.pid is None,
        r.error matches Some(e) && e@ == "Process not found"@,
{
    ProcessResult {
        success: false,
        message: String::from_str("Process not found or not running"),
        pid: None,
        error: Some(String::from_str("Process not found")),
    }
}

// ---------------------------------------------------------------------------
// Spawn-failure classification and exit hints
// ---------------------------------------------------------------------------

/// The cause of a failed spawn, as the OS reported it.
#[derive(Clone, Copy, PartialEq, Eq, Structural, Debug)]
pub enum SpawnErrorKind {
    NotFound,
    PermissionDenied,
    Other,
}

/// The message reported for each class of spawn failure.
pub open spec fn spawn_error_spec(kind: SpawnErrorKind, program: Seq<char>, raw: Seq<char>) -> Seq<
    char,
> {
    match kind {
        SpawnErrorKind::NotFound => "Command not found: '"@ + program
            + "'. Make sure the command exists and is in your PATH."@,
        SpawnErrorKind::PermissionDenied => "Permission denied when trying to execute: '"@ + program
            + "'"@,
        SpawnErrorKind::Other => "Failed to start process: "@ + raw,
    }
}

/// Translate a spawn failure into the message shown to the operator;
/// `raw` is the OS error's own text.
pub fn spawn_error_message(kind: SpawnErrorKind, program: &str, raw: &str) -> (r: String)
    ensures
        r@ == spawn_error_spec(kind, program@, raw@),
{
    match kind {
        SpawnErrorKind::NotFound => {
            let mut m: String = String::from_str("Command not found: '");
            m.append(program);
            m.append("'. Make sure the command exists and is in your PATH.");
            m
        },
        SpawnErrorKind::PermissionDenied => {
            let mut m: String = String::from_str("Permission denied when trying to execute: '");
            m.append(program);
            m.append("'");
            m
        },
        SpawnErrorKind::Other => {
            let mut m: String = String::from_str("Failed to start process: ");
            m.append(raw);
            m
        },
    }
}

/// The operator hint appended when a child exits with a well-known code.
pub open spec fn exit_message_spec(code: Option<i32>) -> Seq<char> {
    match code {
        Some(c) => if c == 127 {
            "OddLauncher: Process exited with code 127 (Command not found - check if executable exists in PATH)"@
        } else if c == 126 {
            "OddLauncher: Process exited with code 126 (Permission denied - executable not permitted to run)"@
        } else if c == 1 {
            "OddLauncher: Process exited with code 1 (General error - check command syntax and arguments)"@
        } else if c == 2 {
            "OddLauncher: Process exited with code 2 (Misuse of shell builtins - check command usage)"@
        } else if c == 130 {
            "OddLauncher: Process exited with code 130 (Process terminated by Ctrl+C)"@
        } else {
            "OddLauncher: Process exited with code "@ + dec_rep_signed(c as int)
        },
        None => "OddLauncher: Process exited (no exit code available)"@,
    }
}

/// The synthetic output line describing a child's exit code.
pub fn exit_code_message(code: Option<i32>) -> (r: String)
    ensures
        r@ == exit_message_spec(code),
{
    match code {
        Some(c) => {
            if c == 127 {
                String::from_str(
                    "OddLauncher: Process exited with code 127 (Command not found - check if executable exists in PATH)",
                )
            } else if c == 126 {
                String::from_str(
                    "OddLauncher: Process exited with code 126 (Permission denied - executable not permitted to run)",
                )
            } else if c == 1 {
                String::from_str(
                    "OddLauncher: Process exited with code 1 (General error - check command syntax and arguments)",
                )
            } else if c == 2 {
                String::from_str(
                    "OddLauncher: Process exited with code 2 (Misuse of shell builtins - check command usage)",
                )
            } else if c == 130 {
                String::from_str(
                    "OddLauncher: Process exited with code 130 (Process terminated by Ctrl+C)",
                )
            } else {
                let mut m: String = String::from_str("OddLauncher: Process exited with code ");
                let v: String = i64_to_dec(c as i64);
                m.append(v.as_str());
                m
            }
        },
        None => String::from_str("OddLauncher: Process exited (no exit code available)"),
    }
}

/// The synthetic output line describing a failed wait on the child.
pub fn wait_failed_message(raw: &str) -> (r: String)
    ensures
        r@ == "OddLauncher: Process wait failed: "@ + raw@,
{
    let mut m: String = String::from_str("OddLauncher: Process wait failed: ");
    m.append(raw);
    m
}

/// The synthetic output line emitted after every stop attempt.
pub fn stopped_output_line() -> (r: String)
    ensures
        r@ == "OddLauncher: Process stopped"@,
{
    String::from_str("OddLauncher: Process stopped")
}

// ---------------------------------------------------------------------------
// Launch planning
// ---------------------------------------------------------------------------

/// A launch request with no command lines is a bookmark request.
pub open spec fn is_bookmark_request(lc: Option<Seq<char>>) -> bool {
    match lc {
        Some(c) => trim_spec(c).len() == 0,
        None => true,
    }
}

/// What a launch request resolves to: a rejection, a bookmark open, or
/// a concrete command to spawn.
pub enum LaunchDecision {
    /// A record already exists for this app id; nothing is spawned.
    AlreadyRunning,
    /// A bookmark request: open the URL, never spawn.
    BookmarkOpen { url: String },
    /// A bookmark request without a URL: rejected.
    BookmarkMissingUrl,
    /// Spawn this program with these arguments, in this directory, with
    /// these environment variables.
    Spawn { program: String, args: Vec<String>, cwd: Option<String>, env: Vec<(String, String)> },
    /// The request could not be turned into a command.
    PrepareFailed { message: String },
}

/// The normalized working directory a request resolves to.
pub open spec fn resolved_dir(wd: Option<&str>, host: HostOs) -> Option<Seq<char>> {
    match wd {
        Some(d) => Some(normalize_spec(d@, host)),
        None => None,
    }
}

fn clone_pairs(src: Option<&Vec<(String, String)>>) -> (r: Vec<(String, String)>)
    ensures
        r@ == match src {
            Some(v) => v@,
            None => Seq::<(String, String)>::empty(),
        },
{
    let mut out: Vec<(String, String)> = Vec::new();
    match src {
        Some(v) => {
            let mut i: usize = 0;
            while i < v.len()
                invariant
                    i <= v@.len(),
                    out@ == v@.take(i as int),
                decreases v@.len() - i,
            {
                let ghost pre = out@;
                out.push((v[i].0.clone(), v[i].1.clone()));
                proof {
                    assert(out@ =~= v@.take(i + 1));
                }
                i = i + 1;
            }
            proof {
                assert(v@.take(v@.len() as int) =~= v@);
            }
            out
        },
        None => out,
    }
}

/// Decide what a launch request does, without performing it.  The
/// registry is read, never written: a bookmark request never spawns and
/// never creates a record, and a request for a registered id is
/// rejected without side effects.
pub fn plan_start(
    pm: &ProcessManager,
    app_id: &str,
    launch_commands: Option<&str>,
    working_directory: Option<&str>,
    environment_variables: Option<&Vec<(String, String)>>,
    terminal_type: Option<&str>,
    url: Option<&str>,
    host: HostOs,
) -> (r: LaunchDecision)
    requires
        pm.wf(),
    ensures
        is_bookmark_request(opt_view(launch_commands)) ==> (url matches Some(u) ==> (r matches
            LaunchDecision::BookmarkOpen { url: u2 } && u2@ == u@)),
        is_bookmark_request(opt_view(launch_commands)) && url is None ==> r is BookmarkMissingUrl,
        !is_bookmark_request(opt_view(launch_commands)) && pm.contains_id(app_id@) ==> r is
            AlreadyRunning,
        !is_bookmark_request(opt_view(launch_commands)) && !pm.contains_id(app_id@) ==> (r is Spawn
            || r is PrepareFailed),
        !is_bookmark_request(opt_view(launch_commands)) && !pm.contains_id(app_id@)
            && working_directory is None ==> r is Spawn,
        r matches LaunchDecision::Spawn { program, args, cwd, env } ==> program@.len() > 0,
        r matches LaunchDecision::Spawn { program, args, cwd, env } ==> {
            let lc = launch_commands->0@;
            let nd = resolved_dir(working_directory, host);
            &&& env@ == (match environment_variables {
                Some(v) => v@,
                None => Seq::<(String, String)>::empty(),
            })
            &&& (terminal_type matches Some(t) ==> program@ == terminal_command_spec(t@, lc, nd)[0]
                && views(args@) == terminal_command_spec(t@, lc, nd).skip(1))
            &&& (terminal_type is None && command_lines(lc).len() == 1 && !(host is Windows
                && dir_indicates_wsl(nd)) ==> program@ == ws_tokens(command_lines(lc)[0])[0]
                && views(args@) == ws_tokens(command_lines(lc)[0]).skip(1))
            &&& (terminal_type is None && command_lines(lc).len() == 1 && host is Windows
                && dir_indicates_wsl(nd) ==> program@ == "wsl.exe"@ && views(args@) == wsl_cd_args(
                nd,
                host,
            ) + seq![ws_tokens(command_lines(lc)[0])[0]] + ws_tokens(command_lines(lc)[0]).skip(1))
            &&& (terminal_type is None && command_lines(lc).len() > 1 && host is Windows
                && dir_indicates_wsl(nd) ==> program@ == "wsl.exe"@ && views(args@) =~= seq![
                "bash"@,
                "-c"@,
                join_with(win_wsl_lines(command_lines(lc), nd, host), seq!['\n']),
            ])
            &&& (terminal_type is None && command_lines(lc).len() > 1 && host is Windows
                && !dir_indicates_wsl(nd) ==> program@ == "cmd.exe"@ && views(args@) =~= seq![
                "/c"@,
                join_with(batch_lines(command_lines(lc), nd, host), seq!['\n']),
            ])
            &&& (terminal_type is None && command_lines(lc).len() > 1 && !(host is Windows)
                ==> program@ == "bash"@ && views(args@) =~= seq![
                "-c"@,
                join_with(unix_script_lines(command_lines(lc), nd, host), seq!['\n']),
            ])
            &&& (cwd matches Some(c) ==> working_directory matches Some(w) && c@ == normalize_spec(
                w@,
                host,
            ) && !(host is Windows && program@ == "wsl.exe"@))
            &&& (working_directory is None ==> cwd is None)
        },
        r matches LaunchDecision::PrepareFailed { message } ==> ((working_directory matches Some(w)
            && message@ == "Failed to normalize working directory: "@ + invalid_wsl_message(w@))
            || "Failed to prepare launch commands: "@.is_prefix_of(message@) || (
        working_directory matches Some(w) && message@ == "Working directory does not exist: "@
            + normalize_spec(w@, host))),
{
    let is_bookmark: bool = match launch_commands {
        Some(c) => trim(c).as_str().unicode_len() == 0,
        None => true,
    };
    if is_bookmark {
        return match url {
            Some(u) => LaunchDecision::BookmarkOpen { url: String::from_str(u) },
            None => LaunchDecision::BookmarkMissingUrl,
        };
    }
    if pm.contains(app_id) {
        return LaunchDecision::AlreadyRunning;
    }
    let normalized_dir: Option<String> = match working_directory {
        Some(dir) => {
            match validate_directory(dir, host) {
                Ok(n) => Some(n),
                Err(_) => {
                    match crate::paths::normalize_path(dir, host) {
                        Ok(n) => Some(n),
                        Err(e) => {
                            let mut m: String = String::from_str(
                                "Failed to normalize working directory: ",
                            );
                            m.append(e.as_str());
                            return LaunchDecision::PrepareFailed { message: m };
                        },
                    }
                },
            }
        },
        None => None,
    };
    let lc: &str = match launch_commands {
        Some(c) => c,
        None => "",
    };
    let nd_ref: Option<&str> = match &normalized_dir {
        Some(d) => Some(d.as_str()),
        None => None,
    };
    let composed: (String, Vec<String>) = match prepare_multi_command_execution(
        lc,
        nd_ref,
        terminal_type,
        host,
    ) {
        Ok(pa) => pa,
        Err(e) => {
            proof {
                // With no working directory there is nothing to
                // normalize, and a non-bookmark request always has a
                // non-empty first command line, so composition cannot
                // have failed.
                if working_directory is None {
                    crate::compose::lemma_command_lines_exist(lc@);
                    assert(false);
                }
            }
            let mut m: String = String::from_str("Failed to prepare launch commands: ");
            m.append(e.as_str());
            proof {
                assert("Failed to prepare launch commands: "@.is_prefix_of(m@)) by {
                    assert(m@.subrange(0, "Failed to prepare launch commands: "@.len() as int)
                        =~= "Failed to prepare launch commands: "@);
                }
            }
            return LaunchDecision::PrepareFailed { message: m };
        },
    };
    let program: String = composed.0;
    let args: Vec<String> = composed.1;
    let cwd: Option<String> = match normalized_dir {
        Some(dir) => {
            let is_wsl_exe: bool = host.is_windows() && crate::text::str_eq(
                program.as_str(),
                "wsl.exe",
            );
            if is_wsl_exe {
                None
            } else {
                let trusted_wsl_path: bool = host.is_windows() && dir.as_str().unicode_len() > 0
                    && dir.as_str().get_char(0) == '/';
                let exists: bool = trusted_wsl_path || crate::outside::path_exists(dir.as_str());
                if !exists {
                    let mut m: String = String::from_str("Working directory does not exist: ");
                    m.append(dir.as_str());
                    return LaunchDecision::PrepareFailed { message: m };
                }
                Some(dir)
            }
        },
        None => None,
    };
    let env: Vec<(String, String)> = clone_pairs(environment_variables);
    LaunchDecision::Spawn { program, args, cwd, env }
}

/// The process-group bookkeeping recorded at a successful spawn: on a
/// POSIX host the child is its own process group, on Windows there is
/// none.
pub fn make_process_info(pid: u32, host: HostOs) -> (r: ProcessInfo)
    ensures
        r.pid == pid,
        host is Windows ==> r.pgid is None,
        !(host is Windows) ==> r.pgid == Some(pid as i32),
{
    let pgid: Option<i32> = if host.is_windows() {
        None
    } else {
        Some(#[verifier::truncate] (pid as i32))
    };
    ProcessInfo { pid, started_at: now_rfc3339(), pgid }
}

// ---------------------------------------------------------------------------
// Status snapshots
// ---------------------------------------------------------------------------

/// The read-only snapshot of one registered process: always running,
/// with an empty output buffer, since output is streamed as it arrives.
pub fn status_snapshot(pm: &ProcessManager, app_id: &str) -> (r: Option<AppProcess>)
    requires
        pm.wf(),
    ensures
        r is Some <==> pm.contains_id(app_id@),
        r matches Some(p) ==> {
            &&& p.app_id@ == app_id@
            &&& p.pid == Some(pm.info_of(app_id@).pid)
            &&& p.status is Running
            &&& (p.started_at matches Some(s) && s@ == pm.info_of(app_id@).started_at@)
            &&& p.error_message is None
            &&& p.output@.len() == 0
            &&& p.is_background == Some(false)
        },
{
    match pm.get(app_id) {
        Some(info) => Some(
            AppProcess {
                app_id: String::from_str(app_id),
                pid: Some(info.pid),
                status: AppStatus::Running,
                started_at: Some(info.started_at.clone()),
                error_message: None,
                output: Vec::new(),
                is_background: Some(false),
            },
        ),
        None => None,
    }
}

/// Snapshots of every registered process, in registration order.
pub fn status_all(pm: &ProcessManager) -> (r: Vec<AppProcess>)
    requires
        pm.wf(),
    ensures
        r@.len() == pm.entries().len(),
        forall|i: int|
            0 <= i < r@.len() ==> {
                &&& (#[trigger] r@[i]).app_id@ == pm.ids()[i]
                &&& r@[i].pid == Some(pm.entries()[i].1.pid)
                &&& r@[i].status is Running
                &&& (r@[i].started_at matches Some(s) && s@ == pm.entries()[i].1.started_at@)
                &&& r@[i].error_message is None
                &&& r@[i].output@.len() == 0
                &&& r@[i].is_background == Some(false)
            },
{
    let items: Vec<(String, ProcessInfo)> = pm.snapshot();
    let mut out: Vec<AppProcess> = Vec::new();
    let mut i: usize = 0;
    while i < items.len()
        invariant
            i <= items@.len(),
            items@ == pm.entries(),
            out@.len() == i,
            forall|j: int|
                0 <= j < i ==> {
                    &&& (#[trigger] out@[j]).app_id@ == pm.ids()[j]
                    &&& out@[j].pid == Some(pm.entries()[j].1.pid)
                    &&& out@[j].status is Running
                    &&& (out@[j].started_at matches Some(s) && s@ == pm.entries()[j].1.started_at@)
                    &&& out@[j].error_message is None
                    &&& out@[j].output@.len() == 0
                    &&& out@[j].is_background == Some(false)
                },
        decreases items@.len() - i,
    {
        out.push(
            AppProcess {
                app_id: items[i].0.clone(),
                pid: Some(items[i].1.pid),
                status: AppStatus::Running,
                started_at: Some(items[i].1.started_at.clone()),
                error_message: None,
                output: Vec::new(),
                is_background: Some(false),
            },
        );
        i = i + 1;
    }
    out
}

// ---------------------------------------------------------------------------
// The termination ladder
// ---------------------------------------------------------------------------

/// One rung of the escalation ladder.
#[derive(Clone, Copy, PartialEq, Eq, Structural, Debug)]
pub enum StopMethod {
    /// Interrupt-equivalent: SIGINT to the group, or a plain tree-kill.
    Interrupt,
    /// Terminate-equivalent: SIGTERM to the group.
    Terminate,
    /// Kill-equivalent: SIGKILL to the group, or a forced tree-kill.
    Kill,
}

/// A rung together with the bounded wait that follows it.
#[derive(Clone, Copy, PartialEq, Eq, Structural, Debug)]
pub struct LadderStep {
    pub method: StopMethod,
    pub wait_ms: u64,
}

/// The escalation ladder `stop` walks: interrupt, then terminate, then
/// kill, each with its bounded wait.  Windows has no distinct
/// terminate step.
pub fn stop_ladder(host: HostOs) -> (r: Vec<LadderStep>)
    ensures
        host is Windows ==> r@ =~= seq![
            LadderStep { method: StopMethod::Interrupt, wait_ms: 2000 },
            LadderStep { method: StopMethod::Kill, wait_ms: 1000 },
        ],
        !(host is Windows) ==> r@ =~= seq![
            LadderStep { method: StopMethod::Interrupt, wait_ms: 2000 },
            LadderStep { method: StopMethod::Terminate, wait_ms: 2000 },
            LadderStep { method: StopMethod::Kill, wait_ms: 1000 },
        ],
{
    let mut v: Vec<LadderStep> = Vec::new();
    v.push(LadderStep { method: StopMethod::Interrupt, wait_ms: 2000 });
    if !host.is_windows() {
        v.push(LadderStep { method: StopMethod::Terminate, wait_ms: 2000 });
    }
    v.push(LadderStep { method: StopMethod::Kill, wait_ms: 1000 });
    v
}

/// The shorter ladder `kill_all` applies to each drained record:
/// terminate, then kill, with no interrupt step.
pub fn kill_all_ladder(host: HostOs) -> (r: Vec<LadderStep>)
    ensures
        host is Windows ==> r@ =~= seq![
            LadderStep { method: StopMethod::Terminate, wait_ms: 1500 },
            LadderStep { method: StopMethod::Kill, wait_ms: 800 },
        ],
        !(host is Windows) ==> r@ =~= seq![
            LadderStep { method: StopMethod::Terminate, wait_ms: 1500 },
            LadderStep { method: StopMethod::Kill, wait_ms: 1000 },
        ],
{
    let mut v: Vec<LadderStep> = Vec::new();
    v.push(LadderStep { method: StopMethod::Terminate, wait_ms: 1500 });
    if host.is_windows() {
        v.push(LadderStep { method: StopMethod::Kill, wait_ms: 800 });
    } else {
        v.push(LadderStep { method: StopMethod::Kill, wait_ms: 1000 });
    }
    v
}

/// What a termination attempt came to: whether the process went away,
/// by which rung, after how many attempts.
#[derive(Clone, Copy, PartialEq, Eq, Structural, Debug)]
pub struct TerminationOutcome {
    pub success: bool,
    pub method: Option<StopMethod>,
    pub attempts: usize,
}

/// The position of the first `true` in a sequence of observations.
pub open spec fn first_true(s: Seq<bool>) -> int
    decreases s.len(),
{
    if s.len() == 0 {
        0
    } else if s[0] {
        0
    } else {
        1 + first_true(s.skip(1))
    }
}

proof fn lemma_first_true(s: Seq<bool>, i: int)
    requires
        0 <= i <= s.len(),
        forall|j: int| 0 <= j < i ==> !s[j],
        i < s.len() ==> s[i],
    ensures
        first_true(s) == i,
    decreases i,
{
    if i == 0 {
    } else {
        lemma_first_true(s.skip(1), i - 1);
    }
}

/// Fold the per-rung liveness observations into the outcome: the
/// ladder stops at the first rung whose wait saw the process gone; if
/// no rung did, the attempt failed after all observations.
pub fn ladder_outcome(ladder: &Vec<LadderStep>, observed_gone: &Vec<bool>) -> (r:
    TerminationOutcome)
    requires
        observed_gone@.len() <= ladder@.len(),
    ensures
        r.success == observed_gone@.contains(true),
        r.success ==> first_true(observed_gone@) < observed_gone@.len() && r.method == Some(
            ladder@[first_true(observed_gone@)].method,
        ) && r.attempts == first_true(observed_gone@) + 1,
        !r.success ==> r.method is None && r.attempts == observed_gone@.len(),
{
    let mut i: usize = 0;
    while i < observed_gone.len()
        invariant
            i <= observed_gone@.len(),
            observed_gone@.len() <= ladder@.len(),
            forall|j: int| 0 <= j < i ==> !observed_gone@[j],
        decreases observed_gone@.len() - i,
    {
        if observed_gone[i] {
            proof {
                lemma_first_true(observed_gone@, i as int);
                assert(observed_gone@.contains(true));
            }
            return TerminationOutcome {
                success: true,
                method: Some(ladder[i].method),
                attempts: i + 1,
            };
        }
        i = i + 1;
    }
    proof {
        if observed_gone@.contains(true) {
            let w = choose|w: int|
                0 <= w < observed_gone@.len() && observed_gone@[w] == true;
            assert(!observed_gone@[w]);
        }
    }
    TerminationOutcome { success: false, method: None, attempts: observed_gone.len() }
}

/// The result `stop` reports for a termination outcome; `last_error`
/// is the OS error text of the last failed signal, if any.
pub fn stop_result(outcome: &TerminationOutcome, pid: u32, last_error: Option<String>) -> (r:
    ProcessResult)
    ensures
        r.success == outcome.success,
        outcome.success ==> r.message@ == "Process stopped successfully"@ && r.error is None,
        !outcome.success ==> (match last_error {
            Some(e) => r.message@ == e@,
            None => r.message@ == "Failed to stop process within timeout"@,
        }),
        !outcome.success ==> (r.error matches Some(e2) && e2@ == r.message@),
        r.pid == Some(pid),
{
    if outcome.success {
        ProcessResult {
            success: true,
            message: String::from_str("Process stopped successfully"),
            pid: Some(pid),
            error: None,
        }
    } else {
        let msg: String = match last_error {
            Some(e) => e,
            None => String::from_str("Failed to stop process within timeout"),
        };
        let copy: String = msg.clone();
        ProcessResult { success: false, message: msg, pid: Some(pid), error: Some(copy) }
    }
}

// ---------------------------------------------------------------------------
// The bulk kill tally
// ---------------------------------------------------------------------------

/// How many observations are `true`.
pub open spec fn count_true(s: Seq<bool>) -> int
    decreases s.len(),
{
    if s.len() == 0 {
        0
    } else {
        (if s[0] {
            1int
        } else {
            0int
        }) + count_true(s.skip(1))
    }
}

pub proof fn lemma_count_true_bounds(s: Seq<bool>)
    ensures
        0 <= count_true(s) <= s.len(),
    decreases s.len(),
{
    if s.len() > 0 {
        lemma_count_true_bounds(s.skip(1));
    }
}

proof fn lemma_count_true_take(s: Seq<bool>, i: int)
    requires
        0 <= i < s.len(),
    ensures
        count_true(s.take(i + 1)) == count_true(s.take(i)) + (if s[i] {
            1int
        } else {
            0int
        }),
    decreases i,
{
    if i == 0 {
        assert(s.take(1)[0] == s[0]);
        assert(s.take(1).skip(1) =~= Seq::<bool>::empty());
        assert(s.take(0) =~= Seq::<bool>::empty());
        assert(count_true(Seq::<bool>::empty()) == 0);
        assert(s.take(1).len() == 1);
    } else {
        lemma_count_true_take(s.skip(1), i - 1);
        assert(s.take(i + 1)[0] == s[0]);
        assert(s.take(i)[0] == s[0]);
        assert(s.take(i + 1).skip(1) =~= s.skip(1).take(i));
        assert(s.take(i).skip(1) =~= s.skip(1).take(i - 1));
        assert(s.skip(1)[i - 1] == s[i]);
    }
}

/// The tally `kill_all` reports: with `N` drained records of which
/// `M` failed to die, success holds exactly when `M` is zero, and the
/// reported counts always sum to `N`.  The registry itself was drained
/// before the kills, so no entry remains whatever the outcomes.
pub fn kill_all_result(outcomes: &Vec<bool>) -> (r: ProcessResult)
    ensures
        r.success == (count_true(outcomes@) == outcomes@.len()),
        r.message@ == "Killed "@ + dec_rep(count_true(outcomes@)) + " processes, "@ + dec_rep(
            outcomes@.len() - count_true(outcomes@),
        ) + " failed"@,
        r.pid is None,
        count_true(outcomes@) == outcomes@.len() ==> r.error is None,
        count_true(outcomes@) < outcomes@.len() ==> (r.error matches Some(e) && e@ == dec_rep(
            outcomes@.len() - count_true(outcomes@),
        ) + " processes failed to stop"@),
{
    proof {
        lemma_count_true_bounds(outcomes@);
        assert(outcomes@.take(0) =~= Seq::<bool>::empty());
    }
    let mut killed: u64 = 0;
    let mut i: usize = 0;
    while i < outcomes.len()
        invariant
            i <= outcomes@.len(),
            killed == count_true(outcomes@.take(i as int)),
            killed <= i,
        decreases outcomes@.len() - i,
    {
        proof {
            lemma_count_true_take(outcomes@, i as int);
        }
        if outcomes[i] {
            killed = killed + 1;
        }
        i = i + 1;
    }
    proof {
        assert(outcomes@.take(outcomes@.len() as int) =~= outcomes@);
    }
    let total: u64 = outcomes.len() as u64;
    let failed: u64 = total - killed;
    let mut m: String = String::from_str("Killed ");
    append_dec(&mut m, killed);
    m.append(" processes, ");
    append_dec(&mut m, failed);
    m.append(" failed");
    proof {
        assert(m@ =~= "Killed "@ + dec_rep(count_true(outcomes@)) + " processes, "@ + dec_rep(
            outcomes@.len() - count_true(outcomes@),
        ) + " failed"@);
    }
    if failed == 0 {
        ProcessResult { success: true, message: m, pid: None, error: None }
    } else {
        let mut e: String = u64_to_dec(failed);
        e.append(" processes failed to stop");
        ProcessResult { success: false, message: m, pid: None, error: Some(e) }
    }
}

} // verus!

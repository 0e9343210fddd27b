//! The browser launcher: validate a URL, percent-decode `file://`
//! targets, and resolve the ordered list of OS "open" commands to try
//! for the effective execution environment.
//!
//! The runtime runs the attempts in order until one succeeds and hands
//! the final outcome back for the result message.

use crate::outside::percent_decode_str;
use crate::paths::{convert_path_for_windows, is_drive_path, looks_like_windows_drive_path, windows_path_spec};
use crate::text::{
    append_char_of, contains_sub, contains_sub_lower, dec_rep_signed, i64_to_dec, lower_ascii,
    push_line, str_starts_with, views,
};
use crate::HostOs;
use vstd::prelude::*;
use vstd::string::StrSliceExecFns;
use vstd::string::StringExecFns;

verus! {

// ---------------------------------------------------------------------------
// Environment classification
// ---------------------------------------------------------------------------

/// The effective execution environment for opening a target.
#[derive(Clone, Copy, PartialEq, Eq, Structural, Debug)]
pub enum ExecEnv {
    /// A Linux environment running under Windows interop.
    Wsl,
    Windows,
    MacOs,
    Linux,
}

/// WSL is detected by environment markers or by the kernel version
/// string mentioning Microsoft.
pub open spec fn wsl_detected(has_wsl_env: bool, proc_version: Option<Seq<char>>) -> bool {
    has_wsl_env || (proc_version matches Some(v) && contains_sub(lower_ascii(v), "microsoft"@))
}

/// Resolve the effective environment from the WSL markers, the kernel
/// version text when readable, and the host platform.
pub fn classify_environment(has_wsl_env: bool, proc_version: Option<&str>, host: HostOs) -> (r:
    ExecEnv)
    ensures
        wsl_detected(
            has_wsl_env,
            match proc_version {
                Some(v) => Some(v@),
                None => None,
            },
        ) ==> r is Wsl,
        !wsl_detected(
            has_wsl_env,
            match proc_version {
                Some(v) => Some(v@),
                None => None,
            },
        ) ==> r == match host {
            HostOs::Windows => ExecEnv::Windows,
            HostOs::MacOs => ExecEnv::MacOs,
            HostOs::Linux => ExecEnv::Linux,
        },
{
    let wsl: bool = has_wsl_env || match proc_version {
        Some(v) => contains_sub_lower(v, "microsoft"),
        None => false,
    };
    if wsl {
        ExecEnv::Wsl
    } else {
        match host {
            HostOs::Windows => ExecEnv::Windows,
            HostOs::MacOs => ExecEnv::MacOs,
            HostOs::Linux => ExecEnv::Linux,
        }
    }
}

// ---------------------------------------------------------------------------
// Percent decoding (model of the trusted decoder)
// ---------------------------------------------------------------------------

/// The numeric value of a hexadecimal digit byte.
pub open spec fn hex_val(b: u8) -> Option<u8> {
    if 0x30 <= b && b <= 0x39 {
        Some((b - 0x30) as u8)
    } else if 0x41 <= b && b <= 0x46 {
        Some((b - 0x41 + 10) as u8)
    } else if 0x61 <= b && b <= 0x66 {
        Some((b - 0x61 + 10) as u8)
    } else {
        None
    }
}

/// Percent-decoding of a byte string: `%` followed by two hex digits
/// becomes one byte; malformed escapes stay literal; a trailing short
/// escape is kept as it stands.
pub open spec fn percent_decode(s: Seq<u8>) -> Seq<u8>
    decreases s.len(),
{
    if s.len() == 0 {
        Seq::empty()
    } else if s[0] == 0x25 {
        if s.len() >= 3 {
            match hex_val(s[1]) {
                Some(hi) => match hex_val(s[2]) {
                    Some(lo) => seq![((hi * 16 + lo) as u8)] + percent_decode(s.skip(3)),
                    None => seq![0x25u8, s[1]] + percent_decode(s.skip(2)),
                },
                None => seq![0x25u8] + percent_decode(s.skip(1)),
            }
        } else {
            s
        }
    } else {
        seq![s[0]] + percent_decode(s.skip(1))
    }
}

// ---------------------------------------------------------------------------
// URL forms
// ---------------------------------------------------------------------------

/// The schemes the launcher accepts.
pub open spec fn valid_url_scheme(u: Seq<char>) -> bool {
    "http://"@.is_prefix_of(u) || "https://"@.is_prefix_of(u) || "file://"@.is_prefix_of(u)
}

/// Whether a URL is accepted before any process is spawned.
pub fn check_url_scheme(url: &str) -> (r: bool)
    ensures
        r == valid_url_scheme(url@),
{
    str_starts_with(url, "http://") || str_starts_with(url, "https://") || str_starts_with(
        url,
        "file://",
    )
}

/// The path of a `file://` URL, with a doubled scheme also stripped.
pub open spec fn stripped_file_path(u: Seq<char>) -> Seq<char> {
    if "file://"@.is_prefix_of(u) {
        if "file://"@.is_prefix_of(u.skip(7)) {
            u.skip(14)
        } else {
            u.skip(7)
        }
    } else {
        u
    }
}

fn strip_file_scheme(url: &str) -> (r: &str)
    ensures
        r@ == stripped_file_path(url@),
{
    proof {
        reveal_strlit("file://");
    }
    let n: usize = url.unicode_len();
    if str_starts_with(url, "file://") {
        let rest: &str = url.substring_char(7, n);
        proof {
            assert(rest@ =~= url@.skip(7));
        }
        if str_starts_with(rest, "file://") {
            let rest2: &str = rest.substring_char(7, n - 7);
            proof {
                assert(rest2@ =~= url@.skip(14));
            }
            rest2
        } else {
            rest
        }
    } else {
        url
    }
}

/// Single quotes doubled, as PowerShell single-quoted strings need.
pub open spec fn esc_rec(s: Seq<char>, acc: Seq<char>) -> Seq<char>
    decreases s.len(),
{
    if s.len() == 0 {
        acc
    } else {
        esc_rec(s.skip(1), acc + (if s[0] == '\'' {
            seq!['\'', '\'']
        } else {
            seq![s[0]]
        }))
    }
}

pub open spec fn escaped_squotes(s: Seq<char>) -> Seq<char> {
    esc_rec(s, Seq::empty())
}

fn escape_squotes(s: &str) -> (r: String)
    ensures
        r@ == escaped_squotes(s@),
{
    proof {
        reveal_strlit("'");
        assert("'"@ =~= seq!['\'']);
    }
    let n: usize = s.unicode_len();
    let mut out: String = String::new();
    proof {
        assert(s@.skip(0) =~= s@);
        assert(out@ =~= Seq::<char>::empty());
    }
    let mut i: usize = 0;
    while i < n
        invariant
            n == s@.len(),
            i <= n,
            esc_rec(s@.skip(i as int), out@) == escaped_squotes(s@),
        decreases n - i,
    {
        let ghost pre_s = s@.skip(i as int);
        let ghost pre_out = out@;
        proof {
            assert(pre_s[0] == s@[i as int]);
            assert(pre_s.skip(1) =~= s@.skip(i + 1));
        }
        let c: char = s.get_char(i);
        if c == '\'' {
            out.append("'");
            out.append("'");
            proof {
                reveal_strlit("'");
                assert("'"@ =~= seq!['\'']);
                assert(out@ =~= pre_out + seq!['\'', '\'']);
            }
        } else {
            append_char_of(&mut out, s, i);
            proof {
                assert(out@ =~= pre_out + seq![s@[i as int]]);
            }
        }
        i = i + 1;
    }
    proof {
        assert(s@.skip(n as int).len() == 0);
    }
    out
}

// ---------------------------------------------------------------------------
// Open commands
// ---------------------------------------------------------------------------

/// A concrete program plus argument vector, ready to execute.
#[derive(Debug)]
pub struct ResolvedCommand {
    pub program: String,
    pub args: Vec<String>,
}

impl ResolvedCommand {
    /// The program of a resolved command is never empty.
    pub open spec fn wf(self) -> bool {
        self.program@.len() > 0
    }

    pub open spec fn view_pair(self) -> (Seq<char>, Seq<Seq<char>>) {
        (self.program@, views(self.args@))
    }
}

/// The views of a list of resolved commands.
pub open spec fn cmds_views(v: Seq<ResolvedCommand>) -> Seq<(Seq<char>, Seq<Seq<char>>)> {
    v.map_values(|c: ResolvedCommand| c.view_pair())
}

pub open spec fn wslview_cmd(t: Seq<char>) -> (Seq<char>, Seq<Seq<char>>) {
    ("wslview"@, seq![t])
}

pub open spec fn xdg_open_cmd(t: Seq<char>) -> (Seq<char>, Seq<Seq<char>>) {
    ("xdg-open"@, seq![t])
}

pub open spec fn mac_open_cmd(t: Seq<char>) -> (Seq<char>, Seq<Seq<char>>) {
    ("open"@, seq![t])
}

/// The hidden `start` invocation used on native Windows.
pub open spec fn win_start_cmd(t: Seq<char>) -> (Seq<char>, Seq<Seq<char>>) {
    ("cmd"@, seq!["/C"@, "start"@, ""@, t])
}

/// The hidden PowerShell `Start-Process` invocation used from WSL,
/// chosen over a bare `start` to avoid UNC working-directory failures.
pub open spec fn ps_start_cmd(t: Seq<char>) -> (Seq<char>, Seq<Seq<char>>) {
    (
        "powershell.exe"@,
        seq![
            "-NoProfile"@,
            "-WindowStyle"@,
            "Hidden"@,
            "-Command"@,
            "Start-Process -FilePath '"@ + escaped_squotes(t) + "'"@,
        ],
    )
}

/// A decoded file path that points into Windows: a drive mount or a
/// drive-letter form.
pub open spec fn is_windows_file_path(p: Seq<char>) -> bool {
    "/mnt/"@.is_prefix_of(p) || is_drive_path(p)
}

/// The ordered open attempts for a decoded local file path.
pub open spec fn file_attempts_spec(p: Seq<char>, env: ExecEnv) -> Seq<
    (Seq<char>, Seq<Seq<char>>),
> {
    match env {
        ExecEnv::Wsl => if is_windows_file_path(p) {
            seq![wslview_cmd(p), ps_start_cmd(windows_path_spec(p))]
        } else {
            seq![wslview_cmd(p), xdg_open_cmd(p), wslview_cmd(p)]
        },
        ExecEnv::Windows => seq![win_start_cmd(windows_path_spec(p))],
        ExecEnv::MacOs => seq![mac_open_cmd(p)],
        ExecEnv::Linux => seq![xdg_open_cmd(p)],
    }
}

/// The ordered open attempts for an `http(s)` URL.
pub open spec fn url_attempts_spec(u: Seq<char>, env: ExecEnv) -> Seq<(Seq<char>, Seq<Seq<char>>)> {
    match env {
        ExecEnv::Wsl => seq![wslview_cmd(u), ps_start_cmd(u)],
        ExecEnv::Windows => seq![win_start_cmd(u)],
        ExecEnv::MacOs => seq![mac_open_cmd(u)],
        ExecEnv::Linux => seq![xdg_open_cmd(u)],
    }
}

fn one_arg_cmd(program: &str, arg: &str) -> (r: ResolvedCommand)
    requires
        program@.len() > 0,
    ensures
        r.view_pair() == (program@, seq![arg@]),
        r.wf(),
{
    let mut args: Vec<String> = Vec::new();
    push_line(&mut args, String::from_str(arg));
    proof {
        assert(views(args@) =~= seq![arg@]);
    }
    ResolvedCommand { program: String::from_str(program), args }
}

fn ps_start_exec(target: &str) -> (r: ResolvedCommand)
    ensures
        r.view_pair() == ps_start_cmd(target@),
        r.wf(),
{
    proof {
        reveal_strlit("powershell.exe");
    }
    let mut args: Vec<String> = Vec::new();
    push_line(&mut args, String::from_str("-NoProfile"));
    push_line(&mut args, String::from_str("-WindowStyle"));
    push_line(&mut args, String::from_str("Hidden"));
    push_line(&mut args, String::from_str("-Command"));
    let mut script: String = String::from_str("Start-Process -FilePath '");
    let esc: String = escape_squotes(target);
    script.append(esc.as_str());
    script.append("'");
    push_line(&mut args, script);
    proof {
        assert(views(args@) =~= ps_start_cmd(target@).1);
    }
    ResolvedCommand { program: String::from_str("powershell.exe"), args }
}

fn win_start_exec(target: &str) -> (r: ResolvedCommand)
    ensures
        r.view_pair() == win_start_cmd(target@),
        r.wf(),
{
    proof {
        reveal_strlit("cmd");
    }
    let mut args: Vec<String> = Vec::new();
    push_line(&mut args, String::from_str("/C"));
    push_line(&mut args, String::from_str("start"));
    push_line(&mut args, String::from_str(""));
    push_line(&mut args, String::from_str(target));
    proof {
        assert(views(args@) =~= win_start_cmd(target@).1);
    }
    ResolvedCommand { program: String::from_str("cmd"), args }
}

/// The ordered open attempts for an already-decoded local file path.
pub fn file_open_attempts(decoded: &str, env: ExecEnv) -> (r: Vec<ResolvedCommand>)
    ensures
        cmds_views(r@) == file_attempts_spec(decoded@, env),
        r@.len() >= 1,
        forall|i: int| 0 <= i < r@.len() ==> (#[trigger] r@[i]).wf(),
{
    proof {
        reveal_strlit("wslview");
        reveal_strlit("xdg-open");
        reveal_strlit("open");
    }
    let mut out: Vec<ResolvedCommand> = Vec::new();
    match env {
        ExecEnv::Wsl => {
            out.push(one_arg_cmd("wslview", decoded));
            if looks_like_windows_drive_path(decoded) || str_starts_with(decoded, "/mnt/") {
                let converted: String = convert_path_for_windows(decoded);
                out.push(ps_start_exec(converted.as_str()));
            } else {
                out.push(one_arg_cmd("xdg-open", decoded));
                out.push(one_arg_cmd("wslview", decoded));
            }
        },
        ExecEnv::Windows => {
            let converted: String = convert_path_for_windows(decoded);
            out.push(win_start_exec(converted.as_str()));
        },
        ExecEnv::MacOs => {
            out.push(one_arg_cmd("open", decoded));
        },
        ExecEnv::Linux => {
            out.push(one_arg_cmd("xdg-open", decoded));
        },
    }
    proof {
        assert(cmds_views(out@) =~= file_attempts_spec(decoded@, env));
    }
    out
}

/// The ordered open attempts for an `http(s)` URL.
pub fn url_open_attempts(url: &str, env: ExecEnv) -> (r: Vec<ResolvedCommand>)
    ensures
        cmds_views(r@) == url_attempts_spec(url@, env),
        r@.len() >= 1,
        forall|i: int| 0 <= i < r@.len() ==> (#[trigger] r@[i]).wf(),
{
    proof {
        reveal_strlit("wslview");
        reveal_strlit("xdg-open");
        reveal_strlit("open");
    }
    let mut out: Vec<ResolvedCommand> = Vec::new();
    match env {
        ExecEnv::Wsl => {
            out.push(one_arg_cmd("wslview", url));
            out.push(ps_start_exec(url));
        },
        ExecEnv::Windows => {
            out.push(win_start_exec(url));
        },
        ExecEnv::MacOs => {
            out.push(one_arg_cmd("open", url));
        },
        ExecEnv::Linux => {
            out.push(one_arg_cmd("xdg-open", url));
        },
    }
    proof {
        assert(cmds_views(out@) =~= url_attempts_spec(url@, env));
    }
    out
}

/// Validate a target and resolve the ordered open attempts for it: a
/// URL must carry an accepted scheme before any process is spawned,
/// and a `file://` target is percent-decoded first.
pub fn open_url_attempts(url: &str, env: ExecEnv) -> (r: Result<Vec<ResolvedCommand>, String>)
    ensures
        !valid_url_scheme(url@) ==> (r matches Err(e) && e@
            == "Invalid URL format. Must start with http://, https://, or file://"@),
        valid_url_scheme(url@) && !"file://"@.is_prefix_of(url@) ==> (r matches Ok(v)
            && cmds_views(v@) == url_attempts_spec(url@, env)),
        valid_url_scheme(url@) && "file://"@.is_prefix_of(url@) ==> {
            &&& (r is Ok <==> vstd::utf8::valid_utf8(
                percent_decode(vstd::utf8::encode_utf8(stripped_file_path(url@))),
            ))
            &&& (r matches Ok(v) ==> exists|p: Seq<char>|
                vstd::utf8::encode_utf8(p) == percent_decode(
                    vstd::utf8::encode_utf8(stripped_file_path(url@)),
                ) && cmds_views(v@) == #[trigger] file_attempts_spec(p, env))
            &&& (r matches Err(e) ==> e@ == "Failed to decode file path"@)
        },
        r matches Ok(v) ==> forall|i: int| 0 <= i < v@.len() ==> (#[trigger] v@[i]).wf(),
{
    if !check_url_scheme(url) {
        return Err(
            String::from_str("Invalid URL format. Must start with http://, https://, or file://"),
        );
    }
    if str_starts_with(url, "file://") {
        let file_path: &str = strip_file_scheme(url);
        match percent_decode_str(file_path) {
            Some(decoded) => {
                let attempts: Vec<ResolvedCommand> = file_open_attempts(decoded.as_str(), env);
                proof {
                    let p = decoded@;
                    assert(vstd::utf8::encode_utf8(p) == percent_decode(
                        vstd::utf8::encode_utf8(stripped_file_path(url@)),
                    ) && cmds_views(attempts@) == file_attempts_spec(p, env));
                }
                Ok(attempts)
            },
            None => Err(String::from_str("Failed to decode file path")),
        }
    } else {
        Ok(url_open_attempts(url, env))
    }
}

// ---------------------------------------------------------------------------
// Result messages
// ---------------------------------------------------------------------------

/// How the attempt sequence ended.
pub enum AttemptEnd {
    /// Some attempt's process exited successfully.
    Succeeded,
    /// The last attempt's process exited with this status code.
    ExitedWith { code: Option<i32> },
    /// The last attempt could not be launched; the OS error's text.
    LaunchFailed { error: String },
}

/// The debug rendering of an optional status code.
pub open spec fn opt_code_text(code: Option<i32>) -> Seq<char> {
    match code {
        Some(c) => "Some("@ + dec_rep_signed(c as int) + ")"@,
        None => "None"@,
    }
}

/// The message reported for an open attempt's final outcome.
pub fn open_result(url: &str, end: &AttemptEnd) -> (r: Result<String, String>)
    ensures
        end is Succeeded <==> r is Ok,
        r matches Ok(m) ==> m@ == "Successfully opened "@ + url@,
        end matches AttemptEnd::ExitedWith { code } ==> (r matches Err(e) && e@
            == "Failed to open URL "@ + url@ + ": process exited with code "@ + opt_code_text(
            *code,
        )),
        end matches AttemptEnd::LaunchFailed { error } ==> (r matches Err(e) && e@
            == "Failed to open URL "@ + url@ + ": "@ + error@),
{
    match end {
        AttemptEnd::Succeeded => {
            let mut m: String = String::from_str("Successfully opened ");
            m.append(url);
            Ok(m)
        },
        AttemptEnd::ExitedWith { code } => {
            let mut e: String = String::from_str("Failed to open URL ");
            e.append(url);
            e.append(": process exited with code ");
            match code {
                Some(c) => {
                    e.append("Some(");
                    let v: String = i64_to_dec(*c as i64);
                    e.append(v.as_str());
                    e.append(")");
                },
                None => {
                    e.append("None");
                },
            }
            proof {
                assert(e@ =~= "Failed to open URL "@ + url@ + ": process exited with code "@
                    + opt_code_text(*code));
            }
            Err(e)
        },
        AttemptEnd::LaunchFailed { error } => {
            let mut e: String = String::from_str("Failed to open URL ");
            e.append(url);
            e.append(": ");
            e.append(error.as_str());
            proof {
                assert(e@ =~= "Failed to open URL "@ + url@ + ": "@ + error@);
            }
            Err(e)
        },
    }
}

} // verus!

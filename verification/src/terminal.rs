//! The per-shell strategy table: for each supported terminal selector,
//! the concrete program and argument vector that runs the user's
//! command text, with the working-directory change embedded.

use crate::models::TerminalInfo;
use crate::paths::{convert_to_unix_path, convert_to_wsl_path, unix_path_spec, wsl_path_spec};
use crate::text::{
    contains_sub, contains_sub_lower, join_strings, join_with, lower_ascii, push_line, str_eq,
    views,
};
use vstd::prelude::*;
use vstd::string::StrSliceExecFns;
use vstd::string::StringExecFns;

verus! {

// ---------------------------------------------------------------------------
// Specifications
// ---------------------------------------------------------------------------

/// The PowerShell invocation script: set the location, then run.
pub open spec fn ps_script(c: Seq<char>, d: Option<Seq<char>>) -> Seq<char> {
    match d {
        Some(dir) => "Set-Location -Path '"@ + dir + "'; "@ + c,
        None => c,
    }
}

/// A plain `cd '<dir>' && <commands>` POSIX shell script.
pub open spec fn cd_and_script(c: Seq<char>, d: Option<Seq<char>>) -> Seq<char> {
    match d {
        Some(dir) => "cd '"@ + dir + "' && "@ + c,
        None => c,
    }
}

/// The fall-through shell binary for an unrecognized selector.
pub open spec fn shell_name(t: Seq<char>) -> Seq<char> {
    if t == "zsh"@ {
        "zsh"@
    } else if t == "fish"@ {
        "fish"@
    } else if t == "sh"@ {
        "sh"@
    } else {
        "bash"@
    }
}

/// The fixed bootstrap of the WSL bridge script: PATH sanitizing,
/// shell-init files and version managers.
pub open spec fn wsl_term_preamble() -> Seq<Seq<char>> {
    seq![
        "#!/bin/bash"@,
        "set -e"@,
        ""@,
        "# Clean PATH to avoid Windows executable conflicts"@,
        "export PATH=\"$(echo $PATH | tr ':' '\\n' | grep -v '^/mnt/c' | tr '\\n' ':' | sed 's/:$//')\""@,
        ""@,
        "# Add standard Linux paths"@,
        "export PATH=\"/usr/local/bin:/usr/bin:/bin:/usr/local/sbin:/usr/sbin:/sbin:$PATH\""@,
        ""@,
        "# Add user bin directories"@,
        "[ -d \"$HOME/.local/bin\" ] && export PATH=\"$HOME/.local/bin:$PATH\""@,
        "[ -d \"$HOME/bin\" ] && export PATH=\"$HOME/bin:$PATH\""@,
        ""@,
        "# Initialize shell environment"@,
        "source /etc/profile 2>/dev/null || true"@,
        "source ~/.profile 2>/dev/null || true"@,
        "source ~/.bashrc 2>/dev/null || true"@,
        ""@,
        "# Initialize version managers"@,
        "if [ -f ~/.nvm/nvm.sh ]; then source ~/.nvm/nvm.sh; fi"@,
        "if command -v rbenv >/dev/null 2>&1; then eval \"$(rbenv init -)\"; fi"@,
        ""@,
    ]
}

/// Every line of the WSL bridge script, in order.
pub open spec fn wsl_term_lines(c: Seq<char>, d: Option<Seq<char>>) -> Seq<Seq<char>> {
    wsl_term_preamble() + (match d {
        Some(dir) => seq!["cd '"@ + wsl_path_spec(dir) + "'"@, ""@],
        None => Seq::empty(),
    }) + seq![c]
}

/// The whole WSL bridge script.
pub open spec fn wsl_term_script(c: Seq<char>, d: Option<Seq<char>>) -> Seq<char> {
    join_with(wsl_term_lines(c, d), seq!['\n'])
}

/// The program and argument vector a terminal selector stands for.
pub open spec fn terminal_command_spec(t: Seq<char>, c: Seq<char>, d: Option<Seq<char>>) -> Seq<
    Seq<char>,
> {
    if t == "cmd"@ {
        seq![
            "cmd.exe"@,
            "/c"@,
            match d {
                Some(dir) => "cd /d \""@ + dir + "\" && "@ + c,
                None => c,
            },
        ]
    } else if t == "powershell"@ {
        seq!["powershell.exe"@, "-Command"@, ps_script(c, d)]
    } else if t == "pwsh"@ {
        seq!["pwsh.exe"@, "-Command"@, ps_script(c, d)]
    } else if t == "gitbash"@ {
        seq![
            "bash.exe"@,
            "-c"@,
            match d {
                Some(dir) => "cd '"@ + unix_path_spec(dir) + "' && "@ + c,
                None => c,
            },
        ]
    } else if t == "wsl"@ {
        seq!["wsl.exe"@, "bash"@, "-c"@, wsl_term_script(c, d)]
    } else {
        seq![shell_name(t), "-c"@, cd_and_script(c, d)]
    }
}

/// Every selector names a non-empty program.
pub proof fn lemma_terminal_program_nonempty(t: Seq<char>, c: Seq<char>, d: Option<Seq<char>>)
    ensures
        terminal_command_spec(t, c, d)[0].len() > 0,
{
    reveal_strlit("cmd.exe");
    reveal_strlit("powershell.exe");
    reveal_strlit("pwsh.exe");
    reveal_strlit("bash.exe");
    reveal_strlit("wsl.exe");
    reveal_strlit("zsh");
    reveal_strlit("fish");
    reveal_strlit("sh");
    reveal_strlit("bash");
}

// ---------------------------------------------------------------------------
// Execution
// ---------------------------------------------------------------------------

fn ps_script_exec(user_commands: &str, working_dir: Option<&str>) -> (r: String)
    ensures
        r@ == ps_script(
            user_commands@,
            match working_dir {
                Some(d) => Some(d@),
                None => None,
            },
        ),
{
    let mut script: String = String::new();
    match working_dir {
        Some(dir) => {
            script.append("Set-Location -Path '");
            script.append(dir);
            script.append("'; ");
        },
        None => {},
    }
    script.append(user_commands);
    proof {
        assert(script@ =~= ps_script(
            user_commands@,
            match working_dir {
                Some(d) => Some(d@),
                None => None,
            },
        ));
    }
    script
}

/// Build the program and argument vector for a terminal selector; an
/// unrecognized selector falls back to the bash strategy.
pub fn get_terminal_command(terminal_type: &str, user_commands: &str, working_dir: Option<&str>) -> (r: Vec<
    String,
>)
    ensures
        views(r@) == terminal_command_spec(
            terminal_type@,
            user_commands@,
            match working_dir {
                Some(d) => Some(d@),
                None => None,
            },
        ),
        r@.len() >= 3,
{
    let ghost dv: Option<Seq<char>> = match working_dir {
        Some(d) => Some(d@),
        None => None,
    };
    let mut out: Vec<String> = Vec::new();
    if str_eq(terminal_type, "cmd") {
        push_line(&mut out, String::from_str("cmd.exe"));
        push_line(&mut out, String::from_str("/c"));
        let mut script: String = String::new();
        match working_dir {
            Some(dir) => {
                script.append("cd /d \"");
                script.append(dir);
                script.append("\" && ");
                script.append(user_commands);
            },
            None => {
                script.append(user_commands);
            },
        }
        push_line(&mut out, script);
        proof {
            assert(views(out@) =~= terminal_command_spec(terminal_type@, user_commands@, dv));
        }
    } else if str_eq(terminal_type, "powershell") {
        push_line(&mut out, String::from_str("powershell.exe"));
        push_line(&mut out, String::from_str("-Command"));
        push_line(&mut out, ps_script_exec(user_commands, working_dir));
        proof {
            assert(views(out@) =~= terminal_command_spec(terminal_type@, user_commands@, dv));
        }
    } else if str_eq(terminal_type, "pwsh") {
        push_line(&mut out, String::from_str("pwsh.exe"));
        push_line(&mut out, String::from_str("-Command"));
        push_line(&mut out, ps_script_exec(user_commands, working_dir));
        proof {
            assert(views(out@) =~= terminal_command_spec(terminal_type@, user_commands@, dv));
        }
    } else if str_eq(terminal_type, "gitbash") {
        push_line(&mut out, String::from_str("bash.exe"));
        push_line(&mut out, String::from_str("-c"));
        let mut script: String = String::new();
        match working_dir {
            Some(dir) => {
                let unix_dir: String = convert_to_unix_path(dir);
                script.append("cd '");
                script.append(unix_dir.as_str());
                script.append("' && ");
                script.append(user_commands);
            },
            None => {
                script.append(user_commands);
            },
        }
        push_line(&mut out, script);
        proof {
            assert(views(out@) =~= terminal_command_spec(terminal_type@, user_commands@, dv));
        }
    } else if str_eq(terminal_type, "wsl") {
        let mut lines: Vec<String> = Vec::new();
        push_line(&mut lines, String::from_str("#!/bin/bash"));
        push_line(&mut lines, String::from_str("set -e"));
        push_line(&mut lines, String::from_str(""));
        push_line(&mut lines, String::from_str("# Clean PATH to avoid Windows executable conflicts"));
        push_line(
            &mut lines,
            String::from_str(
                "export PATH=\"$(echo $PATH | tr ':' '\\n' | grep -v '^/mnt/c' | tr '\\n' ':' | sed 's/:$//')\"",
            ),
        );
        push_line(&mut lines, String::from_str(""));
        push_line(&mut lines, String::from_str("# Add standard Linux paths"));
        push_line(
            &mut lines,
            String::from_str(
                "export PATH=\"/usr/local/bin:/usr/bin:/bin:/usr/local/sbin:/usr/sbin:/sbin:$PATH\"",
            ),
        );
        push_line(&mut lines, String::from_str(""));
        push_line(&mut lines, String::from_str("# Add user bin directories"));
        push_line(
            &mut lines,
            String::from_str("[ -d \"$HOME/.local/bin\" ] && export PATH=\"$HOME/.local/bin:$PATH\""),
        );
        push_line(
            &mut lines,
            String::from_str("[ -d \"$HOME/bin\" ] && export PATH=\"$HOME/bin:$PATH\""),
        );
        push_line(&mut lines, String::from_str(""));
        push_line(&mut lines, String::from_str("# Initialize shell environment"));
        push_line(&mut lines, String::from_str("source /etc/profile 2>/dev/null || true"));
        push_line(&mut lines, String::from_str("source ~/.profile 2>/dev/null || true"));
        push_line(&mut lines, String::from_str("source ~/.bashrc 2>/dev/null || true"));
        push_line(&mut lines, String::from_str(""));
        push_line(&mut lines, String::from_str("# Initialize version managers"));
        push_line(
            &mut lines,
            String::from_str("if [ -f ~/.nvm/nvm.sh ]; then source ~/.nvm/nvm.sh; fi"),
        );
        push_line(
            &mut lines,
            String::from_str(
                "if command -v rbenv >/dev/null 2>&1; then eval \"$(rbenv init -)\"; fi",
            ),
        );
        push_line(&mut lines, String::from_str(""));
        proof {
            assert(views(lines@) =~= wsl_term_preamble());
        }
        match working_dir {
            Some(dir) => {
                let wsl_dir: String = convert_to_wsl_path(dir);
                let mut cd_line: String = String::from_str("cd '");
                cd_line.append(wsl_dir.as_str());
                cd_line.append("'");
                push_line(&mut lines, cd_line);
                push_line(&mut lines, String::from_str(""));
            },
            None => {},
        }
        push_line(&mut lines, String::from_str(user_commands));
        proof {
            assert(views(lines@) =~= wsl_term_lines(user_commands@, dv));
        }
        let script: String = join_strings(&lines, "\n");
        proof {
            reveal_strlit("\n");
            assert("\n"@ =~= seq!['\n']);
        }
        push_line(&mut out, String::from_str("wsl.exe"));
        push_line(&mut out, String::from_str("bash"));
        push_line(&mut out, String::from_str("-c"));
        push_line(&mut out, script);
        proof {
            assert(views(out@) =~= terminal_command_spec(terminal_type@, user_commands@, dv));
        }
    } else {
        let shell: String = if str_eq(terminal_type, "zsh") {
            String::from_str("zsh")
        } else if str_eq(terminal_type, "fish") {
            String::from_str("fish")
        } else if str_eq(terminal_type, "sh") {
            String::from_str("sh")
        } else {
            String::from_str("bash")
        };
        push_line(&mut out, shell);
        push_line(&mut out, String::from_str("-c"));
        let mut script: String = String::new();
        match working_dir {
            Some(dir) => {
                script.append("cd '");
                script.append(dir);
                script.append("' && ");
                script.append(user_commands);
            },
            None => {
                script.append(user_commands);
            },
        }
        push_line(&mut out, script);
        proof {
            assert(views(out@) =~= terminal_command_spec(terminal_type@, user_commands@, dv));
        }
    }
    out
}

// ---------------------------------------------------------------------------
// Terminal detection
// ---------------------------------------------------------------------------

/// Availability of each probe-able terminal, as the PATH probes found
/// them.
pub struct TerminalProbes {
    pub powershell: bool,
    pub pwsh: bool,
    pub git_bash: bool,
    pub wsl: bool,
    pub bash: bool,
    pub zsh: bool,
    pub fish: bool,
    pub sh: bool,
}

/// One descriptor's fixed fields: everything but availability.
pub open spec fn term_named(
    t: TerminalInfo,
    id: Seq<char>,
    name: Seq<char>,
    exe: Seq<char>,
    platform: Seq<char>,
) -> bool {
    t.id@ == id && t.name@ == name && t.executable@ == exe && t.platform@ == platform
}

/// One descriptor's fields, spelled out.
pub open spec fn term_fields(
    t: TerminalInfo,
    id: Seq<char>,
    name: Seq<char>,
    exe: Seq<char>,
    avail: bool,
    platform: Seq<char>,
) -> bool {
    t.id@ == id && t.name@ == name && t.executable@ == exe && t.available == avail && t.platform@
        == platform
}

fn make_term(id: &str, name: &str, exe: &str, avail: bool, platform: &str) -> (r: TerminalInfo)
    ensures
        term_fields(r, id@, name@, exe@, avail, platform@),
{
    TerminalInfo {
        id: String::from_str(id),
        name: String::from_str(name),
        executable: String::from_str(exe),
        available: avail,
        platform: String::from_str(platform),
    }
}

/// The five Windows terminal descriptors: the command prompt is always
/// available, the others as probed.
pub fn detect_windows_terminals(p: &TerminalProbes) -> (r: Vec<TerminalInfo>)
    ensures
        r@.len() == 5,
        term_fields(r@[0], "cmd"@, "Command Prompt"@, "cmd.exe"@, true, "windows"@),
        term_fields(r@[1], "powershell"@, "PowerShell"@, "powershell.exe"@, p.powershell, "windows"@),
        term_fields(r@[2], "pwsh"@, "PowerShell Core"@, "pwsh.exe"@, p.pwsh, "windows"@),
        term_fields(r@[3], "gitbash"@, "Git Bash"@, "bash.exe"@, p.git_bash, "windows"@),
        term_fields(
            r@[4],
            "wsl"@,
            "Windows Subsystem for Linux"@,
            "wsl.exe"@,
            p.wsl,
            "windows"@,
        ),
{
    let mut v: Vec<TerminalInfo> = Vec::new();
    v.push(make_term("cmd", "Command Prompt", "cmd.exe", true, "windows"));
    v.push(make_term("powershell", "PowerShell", "powershell.exe", p.powershell, "windows"));
    v.push(make_term("pwsh", "PowerShell Core", "pwsh.exe", p.pwsh, "windows"));
    v.push(make_term("gitbash", "Git Bash", "bash.exe", p.git_bash, "windows"));
    v.push(make_term("wsl", "Windows Subsystem for Linux", "wsl.exe", p.wsl, "windows"));
    v
}

/// The platform tag reported for POSIX terminals.
pub open spec fn unix_platform(host: crate::HostOs) -> Seq<char> {
    if host is MacOs {
        "macos"@
    } else {
        "linux"@
    }
}

/// The four POSIX shell descriptors, as probed.
pub fn detect_unix_terminals(p: &TerminalProbes, host: crate::HostOs) -> (r: Vec<TerminalInfo>)
    ensures
        r@.len() == 4,
        term_fields(r@[0], "bash"@, "Bash"@, "bash"@, p.bash, unix_platform(host)),
        term_fields(r@[1], "zsh"@, "Zsh"@, "zsh"@, p.zsh, unix_platform(host)),
        term_fields(r@[2], "fish"@, "Fish"@, "fish"@, p.fish, unix_platform(host)),
        term_fields(r@[3], "sh"@, "Sh"@, "sh"@, p.sh, unix_platform(host)),
{
    let platform: &str = match host {
        crate::HostOs::MacOs => "macos",
        _ => "linux",
    };
    let mut v: Vec<TerminalInfo> = Vec::new();
    v.push(make_term("bash", "Bash", "bash", p.bash, platform));
    v.push(make_term("zsh", "Zsh", "zsh", p.zsh, platform));
    v.push(make_term("fish", "Fish", "fish", p.fish, platform));
    v.push(make_term("sh", "Sh", "sh", p.sh, platform));
    v
}

/// The Git-Bash heuristic: a bash on the PATH counts as Git Bash when
/// its path mentions git, or failing that when its version banner does.
pub fn git_bash_heuristic(bash_path: Option<&str>, version_output: Option<&str>) -> (r: bool)
    ensures
        bash_path is None ==> !r,
        bash_path matches Some(p) ==> {
            &&& contains_sub(lower_ascii(p@), "git"@) ==> r
            &&& !contains_sub(lower_ascii(p@), "git"@) ==> r == (version_output matches Some(v)
                && contains_sub(lower_ascii(v@), "git"@))
        },
{
    match bash_path {
        Some(p) => {
            if contains_sub_lower(p, "git") {
                true
            } else {
                match version_output {
                    Some(v) => contains_sub_lower(v, "git"),
                    None => false,
                }
            }
        },
        None => false,
    }
}

/// Probe the PATH and list the terminals of the current host; Git-Bash
/// availability needs a version probe, so the caller supplies it.
pub fn detect_available_terminals(host: crate::HostOs, git_bash_available: bool) -> (r: Vec<
    TerminalInfo,
>)
    ensures
        host is Windows ==> r@.len() == 5,
        !(host is Windows) ==> r@.len() == 4,
        host is Windows ==> {
            &&& term_named(r@[0], "cmd"@, "Command Prompt"@, "cmd.exe"@, "windows"@)
            &&& term_named(r@[1], "powershell"@, "PowerShell"@, "powershell.exe"@, "windows"@)
            &&& term_named(r@[2], "pwsh"@, "PowerShell Core"@, "pwsh.exe"@, "windows"@)
            &&& term_named(r@[3], "gitbash"@, "Git Bash"@, "bash.exe"@, "windows"@)
            &&& term_named(
                r@[4],
                "wsl"@,
                "Windows Subsystem for Linux"@,
                "wsl.exe"@,
                "windows"@,
            )
        },
        host is Windows ==> r@[0].available && r@[3].available == git_bash_available,
        !(host is Windows) ==> {
            &&& term_named(r@[0], "bash"@, "Bash"@, "bash"@, unix_platform(host))
            &&& term_named(r@[1], "zsh"@, "Zsh"@, "zsh"@, unix_platform(host))
            &&& term_named(r@[2], "fish"@, "Fish"@, "fish"@, unix_platform(host))
            &&& term_named(r@[3], "sh"@, "Sh"@, "sh"@, unix_platform(host))
        },
{
    if host.is_windows() {
        let probes: TerminalProbes = TerminalProbes {
            powershell: crate::outside::find_on_path("powershell").is_some(),
            pwsh: crate::outside::find_on_path("pwsh").is_some(),
            git_bash: git_bash_available,
            wsl: crate::outside::find_on_path("wsl").is_some(),
            bash: false,
            zsh: false,
            fish: false,
            sh: false,
        };
        detect_windows_terminals(&probes)
    } else {
        let probes: TerminalProbes = TerminalProbes {
            powershell: false,
            pwsh: false,
            git_bash: false,
            wsl: false,
            bash: crate::outside::find_on_path("bash").is_some(),
            zsh: crate::outside::find_on_path("zsh").is_some(),
            fish: crate::outside::find_on_path("fish").is_some(),
            sh: crate::outside::find_on_path("sh").is_some(),
        };
        detect_unix_terminals(&probes, host)
    }
}

} // verus!

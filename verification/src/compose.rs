//! The command composer: turns a raw multi-line command string plus an
//! optional working directory into a concrete program and argument
//! vector, generating an inline shell or batch script when more than
//! one command line is present.

use crate::paths::{invalid_wsl_message, normalize_ok, normalize_path, normalize_spec, should_use_wsl, starts_slash};
use crate::text::{
    append_dec, contains_sub, dec_rep, extend_lines, is_space, join_strings, join_with,
    lemma_leading_spaces_stop, lemma_split_nonempty_good, lemma_trim_keeps_content, parts_have,
    push_line, seg_has, sep_pred, skip_first, split_nonempty, split_str, str_contains_sub, str_eq,
    trim, trim_spec, views, SepKind,
};
use crate::terminal::terminal_command_spec;
use crate::HostOs;
use vstd::prelude::*;
use vstd::seq_lib::*;
use vstd::string::StrSliceExecFns;
use vstd::string::StringExecFns;

verus! {

// ---------------------------------------------------------------------------
// Tokenization
// ---------------------------------------------------------------------------

/// The whitespace-separated tokens of a single command line.
pub open spec fn ws_tokens(c: Seq<char>) -> Seq<Seq<char>> {
    split_nonempty(c, sep_pred(SepKind::Whitespace))
}

/// The first whitespace token of a command line, or empty.
pub open spec fn first_ws_token(c: Seq<char>) -> Seq<char> {
    if ws_tokens(c).len() > 0 {
        ws_tokens(c)[0]
    } else {
        Seq::empty()
    }
}

/// The option of a borrowed string, viewed.
pub open spec fn opt_view(o: Option<&str>) -> Option<Seq<char>> {
    match o {
        Some(s) => Some(s@),
        None => None,
    }
}

/// The trimmed, non-empty lines of a raw multi-line command string.
pub open spec fn command_lines(s: Seq<char>) -> Seq<Seq<char>> {
    split_nonempty(s, sep_pred(SepKind::Newline)).map_values(|l: Seq<char>| trim_spec(l)).filter(
        |l: Seq<char>| l.len() > 0,
    )
}

/// Split a raw command string into its trimmed, non-empty lines.
pub fn split_command_lines(s: &str) -> (r: Vec<String>)
    ensures
        views(r@) == command_lines(s@),
{
    proof {
        reveal(Seq::filter);
    }
    let raw: Vec<String> = split_str(s, SepKind::Newline);
    let ghost mapped = views(raw@).map_values(|l: Seq<char>| trim_spec(l));
    let ghost keep = |l: Seq<char>| l.len() > 0;
    let mut out: Vec<String> = Vec::new();
    let mut i: usize = 0;
    proof {
        assert(mapped.take(0) =~= Seq::<Seq<char>>::empty());
        assert(views(out@) =~= mapped.take(0).filter(keep));
    }
    while i < raw.len()
        invariant
            i <= raw@.len(),
            mapped == views(raw@).map_values(|l: Seq<char>| trim_spec(l)),
            keep == (|l: Seq<char>| l.len() > 0),
            views(out@) == mapped.take(i as int).filter(keep),
        decreases raw@.len() - i,
    {
        proof {
            reveal(Seq::filter);
            assert(mapped.take(i + 1).drop_last() =~= mapped.take(i as int));
            assert(mapped.take(i + 1).last() == trim_spec(raw@[i as int]@));
        }
        let t: String = trim(raw[i].as_str());
        if t.unicode_len() > 0 {
            push_line(&mut out, t);
        }
        i = i + 1;
    }
    proof {
        assert(mapped.take(raw@.len() as int) =~= mapped);
    }
    out
}

/// A command string that is non-empty after trimming always yields at
/// least one command line, and when it yields exactly one, that line
/// always has a first token: such a request can never be rejected as
/// empty.
pub proof fn lemma_command_lines_exist(lc: Seq<char>)
    requires
        trim_spec(lc).len() > 0,
    ensures
        command_lines(lc).len() >= 1,
        command_lines(lc).len() == 1 ==> ws_tokens(command_lines(lc)[0]).len() > 0,
{
    let nl = sep_pred(SepKind::Newline);
    let ws = sep_pred(SepKind::Whitespace);
    let good = |c: char| !is_space(c);
    // The trimmed string is non-empty, so some character is not a space.
    lemma_leading_spaces_stop(lc);
    let i0 = crate::text::leading_spaces(lc);
    assert(i0 < lc.len());
    assert(good(lc[i0]));
    assert(seg_has(lc, good));
    assert(forall|c: char| #[trigger] good(c) ==> !nl(c));
    lemma_split_nonempty_good(lc, nl, good);
    let fields = split_nonempty(lc, nl);
    let j = choose|j: int| 0 <= j < fields.len() && seg_has(fields[j], good);
    let k = choose|k: int| 0 <= k < fields[j].len() && good(fields[j][k]);
    // That field trims non-empty, so the filter keeps its trimmed form.
    lemma_trim_keeps_content(fields[j], k);
    let mapped = fields.map_values(|l: Seq<char>| trim_spec(l));
    let keep = |l: Seq<char>| l.len() > 0;
    assert(mapped[j] == trim_spec(fields[j]));
    assert(keep(mapped[j]));
    mapped.lemma_filter_contains(keep, j);
    let cl = command_lines(lc);
    assert(cl == mapped.filter(keep));
    assert(cl.contains(mapped[j]));
    let w = choose|w: int| 0 <= w < cl.len() && cl[w] == mapped[j];
    assert(cl.len() >= 1);
    if cl.len() == 1 {
        assert(w == 0);
        assert(cl[0] == trim_spec(fields[j]));
        assert(good(cl[0][0]));
        assert(seg_has(cl[0], good));
        assert(forall|c: char| #[trigger] good(c) ==> !ws(c));
        lemma_split_nonempty_good(cl[0], ws, good);
    }
}

// ---------------------------------------------------------------------------
// Single commands and the WSL bridge
// ---------------------------------------------------------------------------

/// The `--cd` arguments the WSL bridge receives for a working directory.
pub open spec fn wsl_cd_args(dir: Option<Seq<char>>, host: HostOs) -> Seq<Seq<char>> {
    match dir {
        Some(d) => if starts_slash(normalize_spec(d, host)) {
            seq!["--cd"@, normalize_spec(d, host)]
        } else {
            Seq::empty()
        },
        None => Seq::empty(),
    }
}

/// A working directory that explicitly indicates WSL execution.
pub open spec fn dir_indicates_wsl(dir: Option<Seq<char>>) -> bool {
    match dir {
        Some(d) => starts_slash(d) || contains_sub(d, "wsl.localhost"@),
        None => false,
    }
}

/// Route a tokenized command through `wsl.exe`, embedding the working
/// directory as a `--cd` argument when it is an absolute POSIX path.
pub fn prepare_wsl_command(program: &str, args: &Vec<String>, working_dir: Option<&str>, host: HostOs) -> (r: Result<
    (String, Vec<String>),
    String,
>)
    ensures
        r is Err <==> (working_dir matches Some(d) && !normalize_ok(d@)),
        r matches Err(e) ==> (working_dir matches Some(d) && e@ == invalid_wsl_message(d@)),
        r matches Ok(pa) ==> pa.0@ == "wsl.exe"@ && pa.0@.len() > 0 && views(pa.1@) == wsl_cd_args(
            opt_view(working_dir),
            host,
        ) + seq![program@] + views(args@),
{
    proof {
        reveal_strlit("wsl.exe");
    }
    let mut wsl_args: Vec<String> = Vec::new();
    match working_dir {
        Some(dir) => {
            match normalize_path(dir, host) {
                Ok(nd) => {
                    let starts: bool = nd.as_str().unicode_len() > 0 && nd.as_str().get_char(0)
                        == '/';
                    if starts {
                        push_line(&mut wsl_args, String::from_str("--cd"));
                        push_line(&mut wsl_args, nd);
                    }
                },
                Err(e) => {
                    return Err(e);
                },
            }
        },
        None => {},
    }
    proof {
        assert(views(wsl_args@) =~= wsl_cd_args(opt_view(working_dir), host));
    }
    let ghost cd_part = views(wsl_args@);
    push_line(&mut wsl_args, String::from_str(program));
    extend_lines(&mut wsl_args, args);
    proof {
        assert(views(wsl_args@) =~= cd_part + seq![program@] + views(args@));
    }
    Ok((String::from_str("wsl.exe"), wsl_args))
}

/// Tokenize a single command line into a program and its arguments; on
/// a Windows host a command whose working directory indicates WSL is
/// routed through the WSL bridge.
pub fn prepare_command(command: &str, working_dir: Option<&str>, host: HostOs) -> (r: Result<
    (String, Vec<String>),
    String,
>)
    ensures
        r matches Ok(pa) ==> pa.0@.len() > 0,
        ws_tokens(command@).len() == 0 ==> (r matches Err(e) && e@ == "Command cannot be empty"@),
        ws_tokens(command@).len() > 0 && !(host is Windows && dir_indicates_wsl(
            opt_view(working_dir),
        )) ==> (r matches Ok(pa) && pa.0@ == ws_tokens(command@)[0] && views(pa.1@) == ws_tokens(
            command@,
        ).skip(1)),
        ws_tokens(command@).len() > 0 && host is Windows && dir_indicates_wsl(
            opt_view(working_dir),
        ) ==> {
            &&& (r is Err <==> (working_dir matches Some(d) && !normalize_ok(d@)))
            &&& (r matches Err(e) ==> (working_dir matches Some(d) && e@ == invalid_wsl_message(
                d@,
            )))
            &&& (r matches Ok(pa) ==> pa.0@ == "wsl.exe"@ && views(pa.1@) == wsl_cd_args(
                opt_view(working_dir),
                host,
            ) + seq![ws_tokens(command@)[0]] + ws_tokens(command@).skip(1))
        },
{
    let tokens: Vec<String> = split_str(command, SepKind::Whitespace);
    if tokens.len() == 0 {
        return Err(String::from_str("Command cannot be empty"));
    }
    proof {
        crate::text::lemma_split_nonempty_ok(command@, sep_pred(SepKind::Whitespace));
        assert(crate::text::seg_ok(ws_tokens(command@)[0], sep_pred(SepKind::Whitespace)));
        reveal_strlit("wsl.exe");
    }
    let args: Vec<String> = skip_first(&tokens);
    let program: &String = &tokens[0];
    if host.is_windows() && should_use_wsl(program.as_str(), working_dir) {
        prepare_wsl_command(program.as_str(), &args, working_dir, host)
    } else {
        Ok((program.clone(), args))
    }
}

// ---------------------------------------------------------------------------
// Traced command lines
// ---------------------------------------------------------------------------

/// The trace line announced before the `k`-th command.
pub open spec fn trace_line(k: int, c: Seq<char>) -> Seq<char> {
    "echo \"OddLauncher: Executing command "@ + dec_rep(k) + ": "@ + c + "\""@
}

/// Each command preceded by its trace line, numbering from `k`.
pub open spec fn trace_pairs(cmds: Seq<Seq<char>>, k: int) -> Seq<Seq<char>>
    decreases cmds.len(),
{
    if cmds.len() == 0 {
        Seq::empty()
    } else {
        seq![trace_line(k, cmds[0]), cmds[0]] + trace_pairs(cmds.skip(1), k + 1)
    }
}

pub proof fn lemma_trace_pairs_len(cmds: Seq<Seq<char>>, k: int)
    ensures
        trace_pairs(cmds, k).len() == 2 * cmds.len(),
    decreases cmds.len(),
{
    if cmds.len() > 0 {
        lemma_trace_pairs_len(cmds.skip(1), k + 1);
    }
}

pub proof fn lemma_trace_pairs_index(cmds: Seq<Seq<char>>, k: int, i: int)
    requires
        0 <= i < cmds.len(),
    ensures
        trace_pairs(cmds, k).len() == 2 * cmds.len(),
        trace_pairs(cmds, k)[2 * i] == trace_line(k + i, cmds[i]),
        trace_pairs(cmds, k)[2 * i + 1] == cmds[i],
    decreases i,
{
    lemma_trace_pairs_len(cmds, k);
    lemma_trace_pairs_len(cmds.skip(1), k + 1);
    if i == 0 {
    } else {
        lemma_trace_pairs_index(cmds.skip(1), k + 1, i - 1);
    }
}

pub proof fn lemma_trace_pairs_take(cmds: Seq<Seq<char>>, k: int, i: int)
    requires
        0 <= i < cmds.len(),
    ensures
        trace_pairs(cmds.take(i + 1), k) == trace_pairs(cmds.take(i), k) + seq![
            trace_line(k + i, cmds[i]),
            cmds[i],
        ],
    decreases i,
{
    if i == 0 {
        assert(cmds.take(1)[0] == cmds[0]);
        assert(cmds.take(1).skip(1) =~= Seq::<Seq<char>>::empty());
        assert(cmds.take(0) =~= Seq::<Seq<char>>::empty());
        assert(trace_pairs(Seq::<Seq<char>>::empty(), k) == Seq::<Seq<char>>::empty());
        assert(trace_pairs(Seq::<Seq<char>>::empty(), k + 1) == Seq::<Seq<char>>::empty());
        assert(cmds.take(1).len() == 1);
        assert(trace_pairs(cmds.take(1), k) =~= trace_pairs(cmds.take(0), k) + seq![
            trace_line(k, cmds[0]),
            cmds[0],
        ]);
    } else {
        lemma_trace_pairs_take(cmds.skip(1), k + 1, i - 1);
        assert(cmds.take(i + 1)[0] == cmds[0]);
        assert(cmds.take(i)[0] == cmds[0]);
        assert(cmds.take(i + 1).skip(1) =~= cmds.skip(1).take(i));
        assert(cmds.take(i).skip(1) =~= cmds.skip(1).take(i - 1));
        assert(cmds.skip(1)[i - 1] == cmds[i]);
        assert(trace_pairs(cmds.take(i + 1), k) == seq![trace_line(k, cmds[0]), cmds[0]]
            + trace_pairs(cmds.skip(1).take(i), k + 1));
        assert(trace_pairs(cmds.take(i), k) == seq![trace_line(k, cmds[0]), cmds[0]] + trace_pairs(
            cmds.skip(1).take(i - 1),
            k + 1,
        ));
        assert(seq![trace_line(k, cmds[0]), cmds[0]] + (trace_pairs(cmds.skip(1).take(i - 1), k + 1)
            + seq![trace_line(k + i, cmds[i]), cmds[i]]) =~= (seq![trace_line(k, cmds[0]), cmds[0]]
            + trace_pairs(cmds.skip(1).take(i - 1), k + 1)) + seq![
            trace_line(k + i, cmds[i]),
            cmds[i],
        ]);
    }
}

/// Build the trace line for the `k`-th command.
fn trace_line_exec(k: u64, cmd: &str) -> (r: String)
    ensures
        r@ == trace_line(k as int, cmd@),
{
    let mut out: String = String::from_str("echo \"OddLauncher: Executing command ");
    append_dec(&mut out, k);
    out.append(": ");
    out.append(cmd);
    out.append("\"");
    proof {
        assert(out@ =~= trace_line(k as int, cmd@));
    }
    out
}

// ---------------------------------------------------------------------------
// Version-manager detection
// ---------------------------------------------------------------------------

/// A command mentions a tool when its first token is the tool or the
/// tool's name followed by a space occurs anywhere in it.
pub open spec fn mentions_tool(c: Seq<char>, tool: Seq<char>, tool_sp: Seq<char>) -> bool {
    first_ws_token(c) == tool || contains_sub(c, tool_sp)
}

pub open spec fn any_mentions(cmds: Seq<Seq<char>>, tool: Seq<char>, tool_sp: Seq<char>) -> bool {
    exists|i: int| 0 <= i < cmds.len() && mentions_tool(#[trigger] cmds[i], tool, tool_sp)
}

fn mentions_tool_exec(cmd: &str, tool: &str, tool_sp: &str) -> (r: bool)
    ensures
        r == mentions_tool(cmd@, tool@, tool_sp@),
{
    let toks: Vec<String> = split_str(cmd, SepKind::Whitespace);
    let ft: bool = if toks.len() > 0 {
        str_eq(toks[0].as_str(), tool)
    } else {
        proof {
            if first_ws_token(cmd@) == tool@ {
                assert(tool@.len() == 0);
            }
            if tool@.len() == 0 {
                assert(first_ws_token(cmd@) =~= tool@);
            }
        }
        tool.unicode_len() == 0
    };
    ft || str_contains_sub(cmd, tool_sp)
}

fn any_mentions_exec(cmds: &Vec<String>, tool: &str, tool_sp: &str) -> (r: bool)
    ensures
        r == any_mentions(views(cmds@), tool@, tool_sp@),
{
    let mut i: usize = 0;
    while i < cmds.len()
        invariant
            i <= cmds@.len(),
            forall|j: int| 0 <= j < i ==> !mentions_tool(#[trigger] views(cmds@)[j], tool@, tool_sp@),
        decreases cmds@.len() - i,
    {
        if mentions_tool_exec(cmds[i].as_str(), tool, tool_sp) {
            proof {
                assert(mentions_tool(views(cmds@)[i as int], tool@, tool_sp@));
            }
            return true;
        }
        i = i + 1;
    }
    false
}

// ---------------------------------------------------------------------------
// POSIX multi-command scripts
// ---------------------------------------------------------------------------

pub open spec fn needs_nvm(cmds: Seq<Seq<char>>) -> bool {
    any_mentions(cmds, "nvm"@, "nvm "@)
}

pub open spec fn needs_rbenv(cmds: Seq<Seq<char>>) -> bool {
    any_mentions(cmds, "rbenv"@, "rbenv "@)
}

pub open spec fn unix_preamble() -> Seq<Seq<char>> {
    seq!["#!/bin/bash"@, "set -e"@, "echo \"OddLauncher: Starting app process...\""@]
}

pub open spec fn nvm_lines() -> Seq<Seq<char>> {
    seq![
        "# Initialize nvm if available"@,
        "if [ -f ~/.nvm/nvm.sh ]; then"@,
        "  source ~/.nvm/nvm.sh"@,
        "elif [ -f /usr/local/share/nvm/nvm.sh ]; then"@,
        "  source /usr/local/share/nvm/nvm.sh"@,
        "elif [ -f /opt/homebrew/opt/nvm/nvm.sh ]; then"@,
        "  source /opt/homebrew/opt/nvm/nvm.sh"@,
        "fi"@,
    ]
}

pub open spec fn rbenv_lines() -> Seq<Seq<char>> {
    seq![
        "# Initialize rbenv if available"@,
        "if command -v rbenv >/dev/null 2>&1; then"@,
        "  eval \"$(rbenv init -)\""@,
        "fi"@,
    ]
}

/// The two lines that announce and perform the directory change.
pub open spec fn dir_lines(d: Seq<char>) -> Seq<Seq<char>> {
    seq!["echo \"OddLauncher: Changing to working directory: "@ + d + "\""@, "cd '"@ + d + "'"@]
}

/// Every line of the generated POSIX script, in order.
pub open spec fn unix_script_lines(cmds: Seq<Seq<char>>, dir: Option<Seq<char>>, host: HostOs) -> Seq<
    Seq<char>,
> {
    unix_preamble() + (if needs_nvm(cmds) {
        nvm_lines()
    } else {
        Seq::empty()
    }) + (if needs_rbenv(cmds) {
        rbenv_lines()
    } else {
        Seq::empty()
    }) + (match dir {
        Some(d) => dir_lines(normalize_spec(d, host)),
        None => Seq::empty(),
    }) + trace_pairs(cmds, 1)
}

/// Generate the inline bash script that runs several commands in
/// sequence on a POSIX host.
pub fn prepare_unix_multi_command(commands: &Vec<String>, working_dir: Option<&str>, host: HostOs) -> (r: Result<
    (String, Vec<String>),
    String,
>)
    ensures
        r is Err <==> (working_dir matches Some(d) && !normalize_ok(d@)),
        r matches Err(e) ==> (working_dir matches Some(d) && e@ == invalid_wsl_message(d@)),
        r matches Ok(pa) ==> pa.0@ == "bash"@ && pa.0@.len() > 0 && views(pa.1@) =~= seq![
            "-c"@,
            join_with(unix_script_lines(views(commands@), opt_view(working_dir), host), seq!['\n']),
        ],
{
    proof {
        reveal_strlit("bash");
    }
    let ghost cviews = views(commands@);
    let mut lines: Vec<String> = Vec::new();
    push_line(&mut lines, String::from_str("#!/bin/bash"));
    push_line(&mut lines, String::from_str("set -e"));
    push_line(&mut lines, String::from_str("echo \"OddLauncher: Starting app process...\""));
    proof {
        assert(views(lines@) =~= unix_preamble());
    }
    if any_mentions_exec(commands, "nvm", "nvm ") {
        push_line(&mut lines, String::from_str("# Initialize nvm if available"));
        push_line(&mut lines, String::from_str("if [ -f ~/.nvm/nvm.sh ]; then"));
        push_line(&mut lines, String::from_str("  source ~/.nvm/nvm.sh"));
        push_line(&mut lines, String::from_str("elif [ -f /usr/local/share/nvm/nvm.sh ]; then"));
        push_line(&mut lines, String::from_str("  source /usr/local/share/nvm/nvm.sh"));
        push_line(&mut lines, String::from_str("elif [ -f /opt/homebrew/opt/nvm/nvm.sh ]; then"));
        push_line(&mut lines, String::from_str("  source /opt/homebrew/opt/nvm/nvm.sh"));
        push_line(&mut lines, String::from_str("fi"));
    }
    proof {
        assert(views(lines@) =~= unix_preamble() + (if needs_nvm(cviews) {
            nvm_lines()
        } else {
            Seq::<Seq<char>>::empty()
        }));
    }
    if any_mentions_exec(commands, "rbenv", "rbenv ") {
        push_line(&mut lines, String::from_str("# Initialize rbenv if available"));
        push_line(&mut lines, String::from_str("if command -v rbenv >/dev/null 2>&1; then"));
        push_line(&mut lines, String::from_str("  eval \"$(rbenv init -)\""));
        push_line(&mut lines, String::from_str("fi"));
    }
    proof {
        assert(views(lines@) =~= unix_preamble() + (if needs_nvm(cviews) {
            nvm_lines()
        } else {
            Seq::<Seq<char>>::empty()
        }) + (if needs_rbenv(cviews) {
            rbenv_lines()
        } else {
            Seq::<Seq<char>>::empty()
        }));
    }
    match working_dir {
        Some(dir) => {
            match normalize_path(dir, host) {
                Ok(nd) => {
                    let mut e1: String = String::from_str(
                        "echo \"OddLauncher: Changing to working directory: ",
                    );
                    e1.append(nd.as_str());
                    e1.append("\"");
                    push_line(&mut lines, e1);
                    let mut c1: String = String::from_str("cd '");
                    c1.append(nd.as_str());
                    c1.append("'");
                    push_line(&mut lines, c1);
                },
                Err(e) => {
                    return Err(e);
                },
            }
        },
        None => {},
    }
    let ghost base = unix_preamble() + (if needs_nvm(cviews) {
        nvm_lines()
    } else {
        Seq::<Seq<char>>::empty()
    }) + (if needs_rbenv(cviews) {
        rbenv_lines()
    } else {
        Seq::<Seq<char>>::empty()
    }) + (match opt_view(working_dir) {
        Some(d) => dir_lines(normalize_spec(d, host)),
        None => Seq::<Seq<char>>::empty(),
    });
    proof {
        assert(views(lines@) =~= base);
        assert(cviews.take(0) =~= Seq::<Seq<char>>::empty());
    }
    let mut i: usize = 0;
    while i < commands.len()
        invariant
            i <= commands@.len(),
            cviews == views(commands@),
            views(lines@) == base + trace_pairs(cviews.take(i as int), 1),
        decreases commands@.len() - i,
    {
        let ghost pre = views(lines@);
        let k: u64 = (i as u64) + 1;
        push_line(&mut lines, trace_line_exec(k, commands[i].as_str()));
        push_line(&mut lines, commands[i].clone());
        proof {
            lemma_trace_pairs_take(cviews, 1, i as int);
            assert(views(lines@) =~= base + trace_pairs(cviews.take(i + 1), 1));
        }
        i = i + 1;
    }
    proof {
        assert(cviews.take(commands@.len() as int) =~= cviews);
        assert(views(lines@) =~= unix_script_lines(cviews, opt_view(working_dir), host));
    }
    let script: String = join_strings(&lines, "\n");
    proof {
        reveal_strlit("\n");
        assert("\n"@ =~= seq!['\n']);
    }
    let mut argv: Vec<String> = Vec::new();
    push_line(&mut argv, String::from_str("-c"));
    push_line(&mut argv, script);
    Ok((String::from_str("bash"), argv))
}

// ---------------------------------------------------------------------------
// Windows multi-command scripts
// ---------------------------------------------------------------------------

/// The fixed bootstrap of the WSL script generated on a Windows host.
pub open spec fn win_wsl_preamble() -> Seq<Seq<char>> {
    seq![
        "#!/bin/bash"@,
        "set -e"@,
        ""@,
        "# Clean PATH to avoid Windows executable conflicts"@,
        "# Remove Windows paths (/mnt/c/...) that cause WSL to use Windows tools instead of Linux versions"@,
        "export PATH=\"$(echo $PATH | tr ':' '\\n' | grep -v '^/mnt/c' | tr '\\n' ':' | sed 's/:$//')\""@,
        ""@,
        "# Add standard Linux paths to ensure we have essential tools"@,
        "export PATH=\"/usr/local/bin:/usr/bin:/bin:/usr/local/sbin:/usr/sbin:/sbin:$PATH\""@,
        ""@,
        "# Add user bin directories if they exist"@,
        "[ -d \"$HOME/.local/bin\" ] && export PATH=\"$HOME/.local/bin:$PATH\""@,
        "[ -d \"$HOME/bin\" ] && export PATH=\"$HOME/bin:$PATH\""@,
        ""@,
        "# Initialize shell environment"@,
        "source /etc/profile 2>/dev/null || true"@,
        "source ~/.profile 2>/dev/null || true"@,
        "source ~/.bashrc 2>/dev/null || true"@,
        ""@,
        "# Initialize common version managers"@,
        "# nvm"@,
        "if [ -f ~/.nvm/nvm.sh ]; then"@,
        "    source ~/.nvm/nvm.sh"@,
        "elif [ -f /usr/local/share/nvm/nvm.sh ]; then"@,
        "    source /usr/local/share/nvm/nvm.sh"@,
        "fi"@,
        ""@,
        "# rbenv"@,
        "if command -v rbenv >/dev/null 2>&1; then"@,
        "    eval \"$(rbenv init -)\""@,
        "fi"@,
        ""@,
        "# Debug: Show which executables we'll use"@,
        "echo \"OddLauncher: Using clean WSL environment\""@,
        "echo \"OddLauncher: PATH=$PATH\""@,
        "for tool in node npm yarn; do"@,
        "    if command -v $tool >/dev/null 2>&1; then"@,
        "        echo \"OddLauncher: Found $tool at $(which $tool)\""@,
        "    else"@,
        "        echo \"OddLauncher: Tool $tool not found in PATH\""@,
        "    fi"@,
        "done"@,
        ""@,
    ]
}

/// The directory-change chunk of the Windows-host WSL script; present
/// only when the normalized directory is an absolute POSIX path.
pub open spec fn win_wsl_dir_lines(d: Seq<char>) -> Seq<Seq<char>> {
    if starts_slash(d) {
        seq!["echo \"OddLauncher: Changing to directory: "@ + d + "\""@, "cd '"@ + d + "'"@, ""@]
    } else {
        Seq::empty()
    }
}

/// Each command preceded by its trace line and followed by a blank
/// line, numbering from `k`.
pub open spec fn blanked_pairs(cmds: Seq<Seq<char>>, k: int) -> Seq<Seq<char>>
    decreases cmds.len(),
{
    if cmds.len() == 0 {
        Seq::empty()
    } else {
        seq![trace_line(k, cmds[0]), cmds[0], ""@] + blanked_pairs(cmds.skip(1), k + 1)
    }
}

/// As `blanked_pairs`, but with no blank line after the last command.
pub open spec fn spaced_pairs(cmds: Seq<Seq<char>>, k: int) -> Seq<Seq<char>> {
    if cmds.len() == 0 {
        Seq::empty()
    } else {
        blanked_pairs(cmds.take(cmds.len() - 1), k) + seq![
            trace_line(k + cmds.len() - 1, cmds.last()),
            cmds.last(),
        ]
    }
}

pub proof fn lemma_blanked_pairs_take(cmds: Seq<Seq<char>>, k: int, i: int)
    requires
        0 <= i < cmds.len(),
    ensures
        blanked_pairs(cmds.take(i + 1), k) == blanked_pairs(cmds.take(i), k) + seq![
            trace_line(k + i, cmds[i]),
            cmds[i],
            ""@,
        ],
    decreases i,
{
    if i == 0 {
        assert(cmds.take(1)[0] == cmds[0]);
        assert(cmds.take(1).skip(1) =~= Seq::<Seq<char>>::empty());
        assert(cmds.take(0) =~= Seq::<Seq<char>>::empty());
        assert(blanked_pairs(Seq::<Seq<char>>::empty(), k) == Seq::<Seq<char>>::empty());
        assert(blanked_pairs(Seq::<Seq<char>>::empty(), k + 1) == Seq::<Seq<char>>::empty());
        assert(cmds.take(1).len() == 1);
        assert(blanked_pairs(cmds.take(1), k) =~= blanked_pairs(cmds.take(0), k) + seq![
            trace_line(k, cmds[0]),
            cmds[0],
            ""@,
        ]);
    } else {
        lemma_blanked_pairs_take(cmds.skip(1), k + 1, i - 1);
        assert(cmds.take(i + 1)[0] == cmds[0]);
        assert(cmds.take(i)[0] == cmds[0]);
        assert(cmds.take(i + 1).skip(1) =~= cmds.skip(1).take(i));
        assert(cmds.take(i).skip(1) =~= cmds.skip(1).take(i - 1));
        assert(cmds.skip(1)[i - 1] == cmds[i]);
        assert(blanked_pairs(cmds.take(i + 1), k) == seq![trace_line(k, cmds[0]), cmds[0], ""@]
            + blanked_pairs(cmds.skip(1).take(i), k + 1));
        assert(blanked_pairs(cmds.take(i), k) == seq![trace_line(k, cmds[0]), cmds[0], ""@]
            + blanked_pairs(cmds.skip(1).take(i - 1), k + 1));
        assert(seq![trace_line(k, cmds[0]), cmds[0], ""@] + (blanked_pairs(
            cmds.skip(1).take(i - 1),
            k + 1,
        ) + seq![trace_line(k + i, cmds[i]), cmds[i], ""@]) =~= (seq![
            trace_line(k, cmds[0]),
            cmds[0],
            ""@,
        ] + blanked_pairs(cmds.skip(1).take(i - 1), k + 1)) + seq![
            trace_line(k + i, cmds[i]),
            cmds[i],
            ""@,
        ]);
    }
}

pub proof fn lemma_blanked_pairs_len(cmds: Seq<Seq<char>>, k: int)
    ensures
        blanked_pairs(cmds, k).len() == 3 * cmds.len(),
    decreases cmds.len(),
{
    if cmds.len() > 0 {
        lemma_blanked_pairs_len(cmds.skip(1), k + 1);
    }
}

pub proof fn lemma_blanked_pairs_index(cmds: Seq<Seq<char>>, k: int, i: int)
    requires
        0 <= i < cmds.len(),
    ensures
        blanked_pairs(cmds, k).len() == 3 * cmds.len(),
        blanked_pairs(cmds, k)[3 * i] == trace_line(k + i, cmds[i]),
        blanked_pairs(cmds, k)[3 * i + 1] == cmds[i],
        blanked_pairs(cmds, k)[3 * i + 2] == ""@,
    decreases i,
{
    lemma_blanked_pairs_len(cmds, k);
    lemma_blanked_pairs_len(cmds.skip(1), k + 1);
    if i == 0 {
    } else {
        lemma_blanked_pairs_index(cmds.skip(1), k + 1, i - 1);
    }
}

/// Where the first traced command stands in the Windows-host WSL
/// script.
pub open spec fn win_wsl_cmd_base(dir: Option<Seq<char>>, host: HostOs) -> int {
    43 + (match dir {
        Some(d) => if starts_slash(normalize_spec(d, host)) {
            3int
        } else {
            0int
        },
        None => 0int,
    })
}

/// The WSL script generated on a Windows host is likewise a POSIX
/// script that aborts on the first failing command and traces every
/// input command, in input order: line 1 is `set -e`, and for each
/// input command the script holds its trace line immediately followed
/// by the command itself.
pub proof fn lemma_win_wsl_script_structure(
    cmds: Seq<Seq<char>>,
    dir: Option<Seq<char>>,
    host: HostOs,
)
    requires
        cmds.len() > 0,
    ensures
        win_wsl_lines(cmds, dir, host).len() == win_wsl_cmd_base(dir, host) + 3 * cmds.len() - 1,
        win_wsl_lines(cmds, dir, host)[1] == "set -e"@,
        forall|i: int|
            0 <= i < cmds.len() ==> win_wsl_lines(cmds, dir, host)[win_wsl_cmd_base(dir, host) + 3
                * i] == trace_line(i + 1, cmds[i]),
        forall|i: int|
            0 <= i < cmds.len() ==> win_wsl_lines(cmds, dir, host)[win_wsl_cmd_base(dir, host) + 3
                * i + 1] == cmds[i],
{
    let all = win_wsl_lines(cmds, dir, host);
    let b = win_wsl_cmd_base(dir, host);
    let front = cmds.take(cmds.len() - 1);
    let tail = spaced_pairs(cmds, 1);
    lemma_blanked_pairs_len(front, 1);
    assert(tail.len() == 3 * cmds.len() - 1);
    assert(all.len() == b + 3 * cmds.len() - 1);
    assert(all[1] == win_wsl_preamble()[1]);
    assert forall|i: int| 0 <= i < cmds.len() implies all[b + 3 * i] == trace_line(i + 1, cmds[i])
        && all[b + 3 * i + 1] == cmds[i] by {
        if i < cmds.len() - 1 {
            lemma_blanked_pairs_index(front, 1, i);
            assert(front[i] == cmds[i]);
            assert(tail[3 * i] == blanked_pairs(front, 1)[3 * i]);
            assert(tail[3 * i + 1] == blanked_pairs(front, 1)[3 * i + 1]);
        } else {
            assert(tail[3 * i] == trace_line(1 + cmds.len() - 1, cmds.last()));
            assert(tail[3 * i + 1] == cmds.last());
            assert(cmds.last() == cmds[i]);
        }
        assert(all[b + 3 * i] == tail[3 * i]);
        assert(all[b + 3 * i + 1] == tail[3 * i + 1]);
    }
}

/// Every line of the WSL script generated on a Windows host.
pub open spec fn win_wsl_lines(cmds: Seq<Seq<char>>, dir: Option<Seq<char>>, host: HostOs) -> Seq<
    Seq<char>,
> {
    win_wsl_preamble() + (match dir {
        Some(d) => win_wsl_dir_lines(normalize_spec(d, host)),
        None => Seq::empty(),
    }) + spaced_pairs(cmds, 1)
}

/// The failure-propagation line after every batch command.
pub open spec fn batch_check_line() -> Seq<char> {
    "if !errorlevel! neq 0 exit /b !errorlevel!"@
}

/// Each command followed by the batch error check.
pub open spec fn batch_pairs(cmds: Seq<Seq<char>>) -> Seq<Seq<char>>
    decreases cmds.len(),
{
    if cmds.len() == 0 {
        Seq::empty()
    } else {
        seq![cmds[0], batch_check_line()] + batch_pairs(cmds.skip(1))
    }
}

pub proof fn lemma_batch_pairs_take(cmds: Seq<Seq<char>>, i: int)
    requires
        0 <= i < cmds.len(),
    ensures
        batch_pairs(cmds.take(i + 1)) == batch_pairs(cmds.take(i)) + seq![
            cmds[i],
            batch_check_line(),
        ],
    decreases i,
{
    if i == 0 {
        assert(cmds.take(1)[0] == cmds[0]);
        assert(cmds.take(1).skip(1) =~= Seq::<Seq<char>>::empty());
        assert(cmds.take(0) =~= Seq::<Seq<char>>::empty());
        assert(batch_pairs(Seq::<Seq<char>>::empty()) == Seq::<Seq<char>>::empty());
        assert(cmds.take(1).len() == 1);
        assert(batch_pairs(cmds.take(1)) =~= batch_pairs(cmds.take(0)) + seq![
            cmds[0],
            batch_check_line(),
        ]);
    } else {
        lemma_batch_pairs_take(cmds.skip(1), i - 1);
        assert(cmds.take(i + 1)[0] == cmds[0]);
        assert(cmds.take(i)[0] == cmds[0]);
        assert(cmds.take(i + 1).skip(1) =~= cmds.skip(1).take(i));
        assert(cmds.take(i).skip(1) =~= cmds.skip(1).take(i - 1));
        assert(cmds.skip(1)[i - 1] == cmds[i]);
        assert(seq![cmds[0], batch_check_line()] + (batch_pairs(cmds.skip(1).take(i - 1)) + seq![
            cmds[i],
            batch_check_line(),
        ]) =~= (seq![cmds[0], batch_check_line()] + batch_pairs(cmds.skip(1).take(i - 1))) + seq![
            cmds[i],
            batch_check_line(),
        ]);
    }
}

/// Every line of the batch script generated on a native Windows host.
pub open spec fn batch_lines(cmds: Seq<Seq<char>>, dir: Option<Seq<char>>, host: HostOs) -> Seq<
    Seq<char>,
> {
    seq!["@echo off"@, "setlocal enabledelayedexpansion"@] + (match dir {
        Some(d) => seq!["cd /d \""@ + normalize_spec(d, host) + "\""@],
        None => Seq::empty(),
    }) + batch_pairs(cmds)
}

/// Generate the inline script that runs several commands on a Windows
/// host: a WSL bash script when the working directory indicates WSL,
/// else a batch script with per-line failure propagation.
#[verifier::rlimit(60)]
pub fn prepare_windows_multi_command(commands: &Vec<String>, working_dir: Option<&str>, host: HostOs) -> (r: Result<
    (String, Vec<String>),
    String,
>)
    ensures
        r is Err <==> (working_dir matches Some(d) && !normalize_ok(d@)),
        r matches Err(e) ==> (working_dir matches Some(d) && e@ == invalid_wsl_message(d@)),
        r matches Ok(pa) ==> pa.0@.len() > 0,
        r matches Ok(pa) ==> (dir_indicates_wsl(opt_view(working_dir)) ==> pa.0@ == "wsl.exe"@
            && views(pa.1@) =~= seq![
            "bash"@,
            "-c"@,
            join_with(win_wsl_lines(views(commands@), opt_view(working_dir), host), seq!['\n']),
        ]),
        r matches Ok(pa) ==> (!dir_indicates_wsl(opt_view(working_dir)) ==> pa.0@ == "cmd.exe"@
            && views(pa.1@) =~= seq![
            "/c"@,
            join_with(batch_lines(views(commands@), opt_view(working_dir), host), seq!['\n']),
        ]),
{
    proof {
        reveal_strlit("wsl.exe");
        reveal_strlit("cmd.exe");
    }
    let ghost cviews = views(commands@);
    let use_wsl: bool = match working_dir {
        Some(dir) => {
            let starts: bool = dir.unicode_len() > 0 && dir.get_char(0) == '/';
            starts || str_contains_sub(dir, "wsl.localhost")
        },
        None => false,
    };
    if use_wsl {
        let mut lines: Vec<String> = Vec::new();
        push_line(&mut lines, String::from_str("#!/bin/bash"));
        push_line(&mut lines, String::from_str("set -e"));
        push_line(&mut lines, String::from_str(""));
        push_line(&mut lines, String::from_str("# Clean PATH to avoid Windows executable conflicts"));
        push_line(
            &mut lines,
            String::from_str(
                "# Remove Windows paths (/mnt/c/...) that cause WSL to use Windows tools instead of Linux versions",
            ),
        );
        push_line(
            &mut lines,
            String::from_str(
                "export PATH=\"$(echo $PATH | tr ':' '\\n' | grep -v '^/mnt/c' | tr '\\n' ':' | sed 's/:$//')\"",
            ),
        );
        push_line(&mut lines, String::from_str(""));
        push_line(
            &mut lines,
            String::from_str("# Add standard Linux paths to ensure we have essential tools"),
        );
        push_line(
            &mut lines,
            String::from_str(
                "export PATH=\"/usr/local/bin:/usr/bin:/bin:/usr/local/sbin:/usr/sbin:/sbin:$PATH\"",
            ),
        );
        push_line(&mut lines, String::from_str(""));
        push_line(&mut lines, String::from_str("# Add user bin directories if they exist"));
        push_line(
            &mut lines,
            String::from_str("[ -d \"$HOME/.local/bin\" ] && export PATH=\"$HOME/.local/bin:$PATH\""),
        );
        push_line(
            &mut lines,
            String::from_str("[ -d \"$HOME/bin\" ] && export PATH=\"$HOME/bin:$PATH\""),
        );
        push_line(&mut lines, String::from_str(""));
        push_line(&mut lines, String::from_str("# Initialize shell environment"));
        push_line(&mut lines, String::from_str("source /etc/profile 2>/dev/null || true"));
        push_line(&mut lines, String::from_str("source ~/.profile 2>/dev/null || true"));
        push_line(&mut lines, String::from_str("source ~/.bashrc 2>/dev/null || true"));
        push_line(&mut lines, String::from_str(""));
        push_line(&mut lines, String::from_str("# Initialize common version managers"));
        push_line(&mut lines, String::from_str("# nvm"));
        push_line(&mut lines, String::from_str("if [ -f ~/.nvm/nvm.sh ]; then"));
        push_line(&mut lines, String::from_str("    source ~/.nvm/nvm.sh"));
        push_line(&mut lines, String::from_str("elif [ -f /usr/local/share/nvm/nvm.sh ]; then"));
        push_line(&mut lines, String::from_str("    source /usr/local/share/nvm/nvm.sh"));
        push_line(&mut lines, String::from_str("fi"));
        push_line(&mut lines, String::from_str(""));
        push_line(&mut lines, String::from_str("# rbenv"));
        push_line(&mut lines, String::from_str("if command -v rbenv >/dev/null 2>&1; then"));
        push_line(&mut lines, String::from_str("    eval \"$(rbenv init -)\""));
        push_line(&mut lines, String::from_str("fi"));
        push_line(&mut lines, String::from_str(""));
        push_line(&mut lines, String::from_str("# Debug: Show which executables we'll use"));
        push_line(&mut lines, String::from_str("echo \"OddLauncher: Using clean WSL environment\""));
        push_line(&mut lines, String::from_str("echo \"OddLauncher: PATH=$PATH\""));
        push_line(&mut lines, String::from_str("for tool in node npm yarn; do"));
        push_line(&mut lines, String::from_str("    if command -v $tool >/dev/null 2>&1; then"));
        push_line(
            &mut lines,
            String::from_str("        echo \"OddLauncher: Found $tool at $(which $tool)\""),
        );
        push_line(&mut lines, String::from_str("    else"));
        push_line(
            &mut lines,
            String::from_str("        echo \"OddLauncher: Tool $tool not found in PATH\""),
        );
        push_line(&mut lines, String::from_str("    fi"));
        push_line(&mut lines, String::from_str("done"));
        push_line(&mut lines, String::from_str(""));
        proof {
            assert(views(lines@) =~= win_wsl_preamble());
        }
        match working_dir {
            Some(dir) => {
                match normalize_path(dir, host) {
                    Ok(nd) => {
                        let starts: bool = nd.as_str().unicode_len() > 0 && nd.as_str().get_char(0)
                            == '/';
                        if starts {
                            let mut e1: String = String::from_str(
                                "echo \"OddLauncher: Changing to directory: ",
                            );
                            e1.append(nd.as_str());
                            e1.append("\"");
                            push_line(&mut lines, e1);
                            let mut c1: String = String::from_str("cd '");
                            c1.append(nd.as_str());
                            c1.append("'");
                            push_line(&mut lines, c1);
                            push_line(&mut lines, String::from_str(""));
                        }
                    },
                    Err(e) => {
                        return Err(e);
                    },
                }
            },
            None => {},
        }
        let ghost base = win_wsl_preamble() + (match opt_view(working_dir) {
            Some(d) => win_wsl_dir_lines(normalize_spec(d, host)),
            None => Seq::<Seq<char>>::empty(),
        });
        proof {
            assert(views(lines@) =~= base);
            assert(cviews.take(0) =~= Seq::<Seq<char>>::empty());
        }
        let n: usize = commands.len();
        let mut i: usize = 0;
        while i < n
            invariant
                i <= n,
                n == commands@.len(),
                cviews == views(commands@),
                i < n ==> views(lines@) == base + blanked_pairs(cviews.take(i as int), 1),
                i == n ==> views(lines@) == base + spaced_pairs(cviews, 1),
            decreases n - i,
        {
            let ghost pre = views(lines@);
            let k: u64 = (i as u64) + 1;
            push_line(&mut lines, trace_line_exec(k, commands[i].as_str()));
            push_line(&mut lines, commands[i].clone());
            if i + 1 < n {
                push_line(&mut lines, String::from_str(""));
                proof {
                    lemma_blanked_pairs_take(cviews, 1, i as int);
                    assert(views(lines@) =~= base + blanked_pairs(cviews.take(i + 1), 1));
                }
            } else {
                proof {
                    assert(cviews.take(i as int) =~= cviews.take(cviews.len() - 1));
                    assert(cviews[i as int] == cviews.last());
                    assert(views(lines@) =~= base + spaced_pairs(cviews, 1));
                }
            }
            i = i + 1;
        }
        proof {
            if n == 0 {
                assert(spaced_pairs(cviews, 1) == Seq::<Seq<char>>::empty());
                assert(views(lines@) =~= base + spaced_pairs(cviews, 1));
            }
            assert(views(lines@) =~= win_wsl_lines(cviews, opt_view(working_dir), host));
        }
        let script: String = join_strings(&lines, "\n");
        proof {
            reveal_strlit("\n");
            assert("\n"@ =~= seq!['\n']);
        }
        let mut argv: Vec<String> = Vec::new();
        push_line(&mut argv, String::from_str("bash"));
        push_line(&mut argv, String::from_str("-c"));
        push_line(&mut argv, script);
        Ok((String::from_str("wsl.exe"), argv))
    } else {
        let mut lines: Vec<String> = Vec::new();
        push_line(&mut lines, String::from_str("@echo off"));
        push_line(&mut lines, String::from_str("setlocal enabledelayedexpansion"));
        match working_dir {
            Some(dir) => {
                match normalize_path(dir, host) {
                    Ok(nd) => {
                        let mut c1: String = String::from_str("cd /d \"");
                        c1.append(nd.as_str());
                        c1.append("\"");
                        push_line(&mut lines, c1);
                    },
                    Err(e) => {
                        return Err(e);
                    },
                }
            },
            None => {},
        }
        let ghost base = seq!["@echo off"@, "setlocal enabledelayedexpansion"@] + (
        match opt_view(working_dir) {
            Some(d) => seq!["cd /d \""@ + normalize_spec(d, host) + "\""@],
            None => Seq::<Seq<char>>::empty(),
        });
        proof {
            assert(views(lines@) =~= base);
            assert(cviews.take(0) =~= Seq::<Seq<char>>::empty());
        }
        let mut i: usize = 0;
        while i < commands.len()
            invariant
                i <= commands@.len(),
                cviews == views(commands@),
                views(lines@) == base + batch_pairs(cviews.take(i as int)),
            decreases commands@.len() - i,
        {
            push_line(&mut lines, commands[i].clone());
            push_line(&mut lines, String::from_str("if !errorlevel! neq 0 exit /b !errorlevel!"));
            proof {
                lemma_batch_pairs_take(cviews, i as int);
                assert(views(lines@) =~= base + batch_pairs(cviews.take(i + 1)));
            }
            i = i + 1;
        }
        proof {
            assert(cviews.take(commands@.len() as int) =~= cviews);
            assert(views(lines@) =~= batch_lines(cviews, opt_view(working_dir), host));
        }
        let script: String = join_strings(&lines, "\n");
        proof {
            reveal_strlit("\n");
            assert("\n"@ =~= seq!['\n']);
        }
        let mut argv: Vec<String> = Vec::new();
        push_line(&mut argv, String::from_str("/c"));
        push_line(&mut argv, script);
        Ok((String::from_str("cmd.exe"), argv))
    }
}

// ---------------------------------------------------------------------------
// Dispatch
// ---------------------------------------------------------------------------

/// Turn a raw multi-line command string into a program and argument
/// vector: an explicit terminal selector delegates wholly to its
/// strategy; otherwise one line is tokenized directly and several lines
/// become a generated script for the host's shell.
pub fn prepare_multi_command_execution(
    launch_commands: &str,
    working_dir: Option<&str>,
    terminal_type: Option<&str>,
    host: HostOs,
) -> (r: Result<(String, Vec<String>), String>)
    ensures
        r matches Ok(pa) ==> pa.0@.len() > 0,
        terminal_type matches Some(t) ==> (r matches Ok(pa) && pa.0@ == terminal_command_spec(
            t@,
            launch_commands@,
            opt_view(working_dir),
        )[0] && views(pa.1@) == terminal_command_spec(
            t@,
            launch_commands@,
            opt_view(working_dir),
        ).skip(1)),
        terminal_type is None && command_lines(launch_commands@).len() == 0 ==> (r matches Err(e)
            && e@ == "No valid commands found"@),
        terminal_type is None && command_lines(launch_commands@).len() == 1 ==> {
            let c = command_lines(launch_commands@)[0];
            &&& ws_tokens(c).len() == 0 ==> (r matches Err(e) && e@ == "Command cannot be empty"@)
            &&& ws_tokens(c).len() > 0 && !(host is Windows && dir_indicates_wsl(
                opt_view(working_dir),
            )) ==> (r matches Ok(pa) && pa.0@ == ws_tokens(c)[0] && views(pa.1@) == ws_tokens(
                c,
            ).skip(1))
            &&& ws_tokens(c).len() > 0 && host is Windows && dir_indicates_wsl(
                opt_view(working_dir),
            ) ==> {
                &&& (r is Err <==> (working_dir matches Some(d) && !normalize_ok(d@)))
                &&& (r matches Err(e) ==> (working_dir matches Some(d) && e@ == invalid_wsl_message(
                    d@,
                )))
                &&& (r matches Ok(pa) ==> pa.0@ == "wsl.exe"@ && views(pa.1@) == wsl_cd_args(
                    opt_view(working_dir),
                    host,
                ) + seq![ws_tokens(c)[0]] + ws_tokens(c).skip(1))
            }
        },
        terminal_type is None && command_lines(launch_commands@).len() > 1 ==> {
            let cmds = command_lines(launch_commands@);
            &&& (r is Err <==> (working_dir matches Some(d) && !normalize_ok(d@)))
            &&& (r matches Err(e) ==> (working_dir matches Some(d) && e@ == invalid_wsl_message(
                d@,
            )))
            &&& (r matches Ok(pa) ==> (host is Windows && dir_indicates_wsl(opt_view(working_dir))
                ==> pa.0@ == "wsl.exe"@ && views(pa.1@) =~= seq![
                "bash"@,
                "-c"@,
                join_with(win_wsl_lines(cmds, opt_view(working_dir), host), seq!['\n']),
            ]))
            &&& (r matches Ok(pa) ==> (host is Windows && !dir_indicates_wsl(opt_view(working_dir))
                ==> pa.0@ == "cmd.exe"@ && views(pa.1@) =~= seq![
                "/c"@,
                join_with(batch_lines(cmds, opt_view(working_dir), host), seq!['\n']),
            ]))
            &&& (r matches Ok(pa) ==> (!(host is Windows) ==> pa.0@ == "bash"@ && views(pa.1@) =~= seq![
                "-c"@,
                join_with(unix_script_lines(cmds, opt_view(working_dir), host), seq!['\n']),
            ]))
        },
{
    match terminal_type {
        Some(term_type) => {
            let command_args: Vec<String> = crate::terminal::get_terminal_command(
                term_type,
                launch_commands,
                working_dir,
            );
            let rest: Vec<String> = skip_first(&command_args);
            let program: String = command_args[0].clone();
            proof {
                assert(program@ == views(command_args@)[0]);
                crate::terminal::lemma_terminal_program_nonempty(
                    term_type@,
                    launch_commands@,
                    opt_view(working_dir),
                );
            }
            Ok((program, rest))
        },
        None => {
            let commands: Vec<String> = split_command_lines(launch_commands);
            if commands.len() == 0 {
                return Err(String::from_str("No valid commands found"));
            }
            if commands.len() == 1 {
                proof {
                    assert(views(commands@)[0] == command_lines(launch_commands@)[0]);
                }
                return prepare_command(commands[0].as_str(), working_dir, host);
            }
            if host.is_windows() {
                prepare_windows_multi_command(&commands, working_dir, host)
            } else {
                prepare_unix_multi_command(&commands, working_dir, host)
            }
        },
    }
}

/// Where the first traced command stands in the generated POSIX script.
pub open spec fn unix_cmd_base(cmds: Seq<Seq<char>>, dir: Option<Seq<char>>) -> int {
    3 + (if needs_nvm(cmds) {
        8int
    } else {
        0int
    }) + (if needs_rbenv(cmds) {
        4int
    } else {
        0int
    }) + (match dir {
        Some(d) => 2int,
        None => 0int,
    })
}

/// The generated POSIX script aborts on the first failing command and
/// traces every input command, in input order: line 1 is `set -e`, and
/// for each input command the script holds its trace line immediately
/// followed by the command itself.
pub proof fn lemma_unix_script_structure(cmds: Seq<Seq<char>>, dir: Option<Seq<char>>, host: HostOs)
    ensures
        unix_script_lines(cmds, dir, host).len() == unix_cmd_base(cmds, dir) + 2 * cmds.len(),
        unix_script_lines(cmds, dir, host)[1] == "set -e"@,
        forall|i: int|
            0 <= i < cmds.len() ==> unix_script_lines(cmds, dir, host)[unix_cmd_base(cmds, dir) + 2
                * i] == trace_line(i + 1, cmds[i]),
        forall|i: int|
            0 <= i < cmds.len() ==> unix_script_lines(cmds, dir, host)[unix_cmd_base(cmds, dir) + 2
                * i + 1] == cmds[i],
{
    let all = unix_script_lines(cmds, dir, host);
    let b = unix_cmd_base(cmds, dir);
    lemma_trace_pairs_len(cmds, 1);
    assert(all.len() == b + 2 * cmds.len());
    assert(all[1] == "set -e"@);
    assert forall|i: int| 0 <= i < cmds.len() implies all[b + 2 * i] == trace_line(i + 1, cmds[i])
        && all[b + 2 * i + 1] == cmds[i] by {
        lemma_trace_pairs_index(cmds, 1, i);
        assert(all[b + 2 * i] == trace_pairs(cmds, 1)[2 * i]);
        assert(all[b + 2 * i + 1] == trace_pairs(cmds, 1)[2 * i + 1]);
    }
}

} // verus!

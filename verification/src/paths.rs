//! Path normalization between native-Windows, POSIX and WSL-network
//! path forms, and the drive-letter conversions used by the Git-Bash
//! and WSL shell bridges.

use crate::text::{
    contains_sub, join_with, lemma_join_absent, lemma_map_replace_absent, lemma_split_nonempty_ok,
    lower_c, lower_char, map_replace, replace_backslash_with_slash, replace_slash_with_backslash,
    seg_ok, sep_pred, skip_first, split_nonempty, split_str, str_contains_char, str_contains_sub,
    str_starts_with, join_strings, SepKind,
};
use crate::HostOs;
use vstd::prelude::*;
use vstd::string::StrSliceExecFns;
use vstd::string::StringExecFns;

verus! {

// ---------------------------------------------------------------------------
// Specifications
// ---------------------------------------------------------------------------

/// A path in WSL-network form: a UNC share under the `wsl.localhost`
/// host, written with either separator.
pub open spec fn is_wsl_network(s: Seq<char>) -> bool {
    "\\\\wsl.localhost\\"@.is_prefix_of(s) || "//wsl.localhost/"@.is_prefix_of(s)
}

/// The path segments after the 16-character network prefix.
pub open spec fn wsl_segments(s: Seq<char>) -> Seq<Seq<char>> {
    split_nonempty(s.skip(16), sep_pred(SepKind::PathSep))
}

/// A WSL-network path converts only when a distro segment and at least
/// one path segment remain after the prefix.
pub open spec fn wsl_convert_valid(s: Seq<char>) -> bool {
    wsl_segments(s).len() >= 2
}

/// The POSIX path a WSL-network path stands for: the segments past the
/// distro name, rooted at `/`.
pub open spec fn wsl_converted(s: Seq<char>) -> Seq<char> {
    seq!['/'] + join_with(wsl_segments(s).skip(1), seq!['/'])
}

pub open spec fn starts_slash(s: Seq<char>) -> bool {
    s.len() > 0 && s[0] == '/'
}

/// Separator rewriting for a non-network path on the given host.
pub open spec fn sep_normalized(s: Seq<char>, host: HostOs) -> Seq<char> {
    if host is Windows {
        if s.contains('/') && !s.contains('\\') && !starts_slash(s) {
            map_replace(s, '/', '\\')
        } else {
            s
        }
    } else {
        if s.contains('\\') {
            map_replace(s, '\\', '/')
        } else {
            s
        }
    }
}

/// Whether normalization succeeds on `s`.
pub open spec fn normalize_ok(s: Seq<char>) -> bool {
    !is_wsl_network(s) || wsl_convert_valid(s)
}

/// What normalization returns when it succeeds.
pub open spec fn normalize_spec(s: Seq<char>, host: HostOs) -> Seq<char> {
    if is_wsl_network(s) {
        wsl_converted(s)
    } else {
        sep_normalized(s, host)
    }
}

pub open spec fn invalid_wsl_message(s: Seq<char>) -> Seq<char> {
    "Invalid WSL path format: "@ + s
}

// ---------------------------------------------------------------------------
// WSL-network conversion
// ---------------------------------------------------------------------------

/// Convert a WSL-network path to the POSIX path it stands for.
pub fn convert_wsl_network_path(path: &str) -> (r: Result<String, String>)
    requires
        is_wsl_network(path@),
    ensures
        r is Ok <==> wsl_convert_valid(path@),
        r matches Ok(p) ==> p@ == wsl_converted(path@),
        r matches Err(e) ==> e@ == invalid_wsl_message(path@),
{
    proof {
        reveal_strlit("\\\\wsl.localhost\\");
        reveal_strlit("//wsl.localhost/");
    }
    let n: usize = path.unicode_len();
    let rest: &str = path.substring_char(16, n);
    let parts: Vec<String> = split_str(rest, SepKind::PathSep);
    proof {
        assert(rest@ =~= path@.skip(16));
    }
    if parts.len() < 2 {
        let mut e: String = String::from_str("Invalid WSL path format: ");
        e.append(path);
        proof {
            assert(parts@.map_values(|t: String| t@).len() == wsl_segments(path@).len());
        }
        Err(e)
    } else {
        let tail: Vec<String> = skip_first(&parts);
        let joined: String = join_strings(&tail, "/");
        let mut out: String = String::from_str("/");
        out.append(joined.as_str());
        proof {
            reveal_strlit("/");
            assert("/"@ =~= seq!['/']);
            assert(out@ =~= wsl_converted(path@));
        }
        Ok(out)
    }
}

// ---------------------------------------------------------------------------
// Normalization
// ---------------------------------------------------------------------------

/// Normalize a user-supplied path for the given host: WSL-network paths
/// become POSIX paths, and separators are rewritten to the host's
/// convention.
pub fn normalize_path(path: &str, host: HostOs) -> (r: Result<String, String>)
    ensures
        r is Ok <==> normalize_ok(path@),
        r matches Ok(p) ==> p@ == normalize_spec(path@, host),
        r matches Err(e) ==> e@ == invalid_wsl_message(path@),
{
    if str_starts_with(path, "\\\\wsl.localhost\\") || str_starts_with(path, "//wsl.localhost/") {
        return convert_wsl_network_path(path);
    }
    if host.is_windows() {
        let starts: bool = path.unicode_len() > 0 && path.get_char(0) == '/';
        if str_contains_char(path, '/') && !str_contains_char(path, '\\') && !starts {
            Ok(replace_slash_with_backslash(path))
        } else {
            Ok(String::from_str(path))
        }
    } else {
        if str_contains_char(path, '\\') {
            Ok(replace_backslash_with_slash(path))
        } else {
            Ok(String::from_str(path))
        }
    }
}

// ---------------------------------------------------------------------------
// Idempotence
// ---------------------------------------------------------------------------

/// A successfully converted WSL-network path is never itself in
/// WSL-network form, so re-normalizing it leaves it unchanged.
pub proof fn lemma_wsl_converted_not_network(s: Seq<char>)
    requires
        wsl_convert_valid(s),
    ensures
        !is_wsl_network(wsl_converted(s)),
        !wsl_converted(s).contains('\\'),
        starts_slash(wsl_converted(s)),
{
    reveal_strlit("\\\\wsl.localhost\\");
    reveal_strlit("//wsl.localhost/");
    let segs = wsl_segments(s);
    let sep = sep_pred(SepKind::PathSep);
    lemma_split_nonempty_ok(s.skip(16), sep);
    let tail = segs.skip(1);
    let t = wsl_converted(s);
    assert forall|j: int| 0 <= j < tail.len() implies !(#[trigger] tail[j]).contains('\\') by {
        assert(tail[j] == segs[j + 1]);
        assert(seg_ok(segs[j + 1], sep));
        if tail[j].contains('\\') {
            let k = choose|k: int| 0 <= k < tail[j].len() && tail[j][k] == '\\';
            assert(sep(tail[j][k]));
        }
    }
    assert(!seq!['/'].contains('\\'));
    lemma_join_absent(tail, seq!['/'], '\\');
    let joined = join_with(tail, seq!['/']);
    assert(t[0] == '/');
    // The second character comes from the first tail segment, which is
    // non-empty and separator-free, so the path cannot start `//`.
    assert(seg_ok(segs[1], sep));
    assert(tail[0] == segs[1]);
    assert(joined.len() >= tail[0].len()) by {
        if tail.len() == 1 {
        } else {
            assert(joined == tail[0] + seq!['/'] + join_with(tail.skip(1), seq!['/']));
        }
    }
    assert(joined[0] == tail[0][0]) by {
        if tail.len() == 1 {
        } else {
            assert(joined == tail[0] + seq!['/'] + join_with(tail.skip(1), seq!['/']));
        }
    }
    assert(t[1] == joined[0]);
    assert(t[1] != '/' && t[1] != '\\');
    assert(!"\\\\wsl.localhost\\"@.is_prefix_of(t)) by {
        assert("\\\\wsl.localhost\\"@[0] == '\\');
    }
    assert(!"//wsl.localhost/"@.is_prefix_of(t)) by {
        assert("//wsl.localhost/"@[1] == '/');
    }
    assert forall|k: int| 0 <= k < t.len() implies t[k] != '\\' by {
        if k == 0 {
        } else {
            assert(t[k] == joined[k - 1]);
            assert(!joined.contains('\\'));
        }
    }
}

/// Normalization is idempotent: normalizing an already-normalized path
/// changes nothing.  The one family of inputs excluded is those whose
/// normalized form is itself classified as a WSL-network path, which can
/// arise only from a mixed-separator spelling of the network prefix.
pub proof fn lemma_normalize_idempotent(s: Seq<char>, host: HostOs)
    requires
        normalize_ok(s),
        !is_wsl_network(normalize_spec(s, host)),
    ensures
        normalize_ok(normalize_spec(s, host)),
        normalize_spec(normalize_spec(s, host), host) == normalize_spec(s, host),
{
    let t = normalize_spec(s, host);
    if is_wsl_network(s) {
        lemma_wsl_converted_not_network(s);
        assert(starts_slash(t));
        assert(!t.contains('\\'));
        assert(sep_normalized(t, host) == t);
    } else {
        if host is Windows {
            if s.contains('/') && !s.contains('\\') && !starts_slash(s) {
                lemma_map_replace_absent(s, '/', '\\');
                assert(!t.contains('/'));
                assert(sep_normalized(t, host) == t);
            } else {
                assert(t == s);
            }
        } else {
            if s.contains('\\') {
                lemma_map_replace_absent(s, '\\', '/');
                assert(!t.contains('\\'));
                assert(sep_normalized(t, host) == t);
            } else {
                assert(t == s);
            }
        }
    }
}

// ---------------------------------------------------------------------------
// Directory validation
// ---------------------------------------------------------------------------

/// Normalize a working directory and verify that it exists and is a
/// directory.  A POSIX-style path on a Windows host is taken to be a
/// WSL path and trusted without an existence check.
pub fn validate_directory(path: &str, host: HostOs) -> (r: Result<String, String>)
    ensures
        !normalize_ok(path@) ==> (r matches Err(e) && e@ == invalid_wsl_message(path@)),
        normalize_ok(path@) && host is Windows && starts_slash(path@) ==> (r matches Ok(p) && p@
            == normalize_spec(path@, host)),
        r matches Ok(p) ==> normalize_ok(path@) && p@ == normalize_spec(path@, host),
        normalize_ok(path@) ==> (r matches Err(e) ==> (e@ == "Directory does not exist: "@
            + normalize_spec(path@, host) || e@ == "Path is not a directory: "@ + normalize_spec(
            path@,
            host,
        ))),
        r matches Err(e) ==> (e@ == invalid_wsl_message(path@) <==> !normalize_ok(path@)),
{
    let normalized: String = match normalize_path(path, host) {
        Ok(n) => n,
        Err(e) => {
            return Err(e);
        },
    };
    if host.is_windows() && path.unicode_len() > 0 && path.get_char(0) == '/' {
        return Ok(normalized);
    }
    if !crate::outside::path_exists(normalized.as_str()) {
        let mut e: String = String::from_str("Directory does not exist: ");
        e.append(normalized.as_str());
        proof {
            reveal_strlit("Directory does not exist: ");
            reveal_strlit("Invalid WSL path format: ");
            assert(e@[0] == 'D');
            assert(invalid_wsl_message(path@)[0] == 'I');
        }
        return Err(e);
    }
    if !crate::outside::path_is_dir(normalized.as_str()) {
        let mut e: String = String::from_str("Path is not a directory: ");
        e.append(normalized.as_str());
        proof {
            reveal_strlit("Path is not a directory: ");
            reveal_strlit("Invalid WSL path format: ");
            assert(e@[0] == 'P');
            assert(invalid_wsl_message(path@)[0] == 'I');
        }
        return Err(e);
    }
    Ok(normalized)
}

// ---------------------------------------------------------------------------
// Classifiers
// ---------------------------------------------------------------------------

/// `s` without its leading forward slashes.
pub open spec fn skip_slashes(s: Seq<char>) -> Seq<char>
    decreases s.len(),
{
    if s.len() > 0 && s[0] == '/' {
        skip_slashes(s.skip(1))
    } else {
        s
    }
}

proof fn lemma_skip_slashes(s: Seq<char>, i: int)
    requires
        0 <= i <= s.len(),
        forall|j: int| 0 <= j < i ==> s[j] == '/',
        i < s.len() ==> s[i] != '/',
    ensures
        skip_slashes(s) == s.skip(i),
    decreases i,
{
    if i == 0 {
        assert(s.skip(0) =~= s);
    } else {
        lemma_skip_slashes(s.skip(1), i - 1);
        assert(s.skip(1).skip(i - 1) =~= s.skip(i));
    }
}

/// A drive-letter path: after any leading slashes, the second character
/// is a colon, as in `C:\x` or `/C:/x`.
pub open spec fn is_drive_path(s: Seq<char>) -> bool {
    skip_slashes(s).len() > 2 && skip_slashes(s)[1] == ':'
}

/// Recognize `<letter>:` drive forms, with or without a leading slash,
/// to tell genuine Windows paths from POSIX paths.
pub fn looks_like_windows_drive_path(path: &str) -> (r: bool)
    ensures
        r == is_drive_path(path@),
{
    let n: usize = path.unicode_len();
    let mut i: usize = 0;
    while i < n && path.get_char(i) == '/'
        invariant
            n == path@.len(),
            i <= n,
            forall|j: int| 0 <= j < i ==> path@[j] == '/',
        decreases n - i,
    {
        i = i + 1;
    }
    proof {
        lemma_skip_slashes(path@, i as int);
    }
    if n - i > 2 {
        let c: char = path.get_char(i + 1);
        proof {
            assert(path@.skip(i as int)[1] == path@[i + 1]);
        }
        c == ':'
    } else {
        false
    }
}

/// Whether a command must be routed through the WSL bridge on a Windows
/// host: only when the working directory explicitly indicates WSL.
pub fn should_use_wsl(_program: &str, working_dir: Option<&str>) -> (r: bool)
    ensures
        r == match working_dir {
            Some(d) => starts_slash(d@) || contains_sub(d@, "wsl.localhost"@),
            None => false,
        },
{
    match working_dir {
        Some(d) => {
            let starts: bool = d.unicode_len() > 0 && d.get_char(0) == '/';
            starts || str_contains_sub(d, "wsl.localhost")
        },
        None => false,
    }
}

// ---------------------------------------------------------------------------
// Drive-letter conversions
// ---------------------------------------------------------------------------

/// A drive form such as `C:\x`, recognized by the drive conversions.
pub open spec fn has_drive_prefix(s: Seq<char>) -> bool {
    s.len() >= 3 && s[1] == ':'
}

/// Git-Bash form of a Windows drive path: `C:\x` becomes `/c/x`.
pub open spec fn unix_path_spec(s: Seq<char>) -> Seq<char> {
    if has_drive_prefix(s) {
        seq!['/', lower_char(s[0])] + map_replace(s.skip(2), '\\', '/')
    } else {
        map_replace(s, '\\', '/')
    }
}

/// WSL form of a Windows drive path: `C:\x` becomes `/mnt/c/x`.
pub open spec fn wsl_path_spec(s: Seq<char>) -> Seq<char> {
    if has_drive_prefix(s) {
        seq!['/', 'm', 'n', 't', '/', lower_char(s[0])] + map_replace(s.skip(2), '\\', '/')
    } else {
        map_replace(s, '\\', '/')
    }
}

/// Convert a Windows path to the Unix-style form Git Bash expects.
pub fn convert_to_unix_path(windows_path: &str) -> (r: String)
    ensures
        r@ == unix_path_spec(windows_path@),
{
    let n: usize = windows_path.unicode_len();
    if n >= 3 && windows_path.get_char(1) == ':' {
        let mut out: String = String::from_str("/");
        proof {
            reveal_strlit("/");
        }
        out.push(lower_c(windows_path.get_char(0)));
        let rest: &str = windows_path.substring_char(2, n);
        let mapped: String = replace_backslash_with_slash(rest);
        out.append(mapped.as_str());
        proof {
            assert(rest@ =~= windows_path@.skip(2));
            assert(out@ =~= unix_path_spec(windows_path@));
        }
        out
    } else {
        replace_backslash_with_slash(windows_path)
    }
}

/// Convert a Windows path to the mount form WSL expects.
pub fn convert_to_wsl_path(windows_path: &str) -> (r: String)
    ensures
        r@ == wsl_path_spec(windows_path@),
{
    let n: usize = windows_path.unicode_len();
    if n >= 3 && windows_path.get_char(1) == ':' {
        let mut out: String = String::from_str("/mnt/");
        proof {
            reveal_strlit("/mnt/");
        }
        out.push(lower_c(windows_path.get_char(0)));
        let rest: &str = windows_path.substring_char(2, n);
        let mapped: String = replace_backslash_with_slash(rest);
        out.append(mapped.as_str());
        proof {
            assert(rest@ =~= windows_path@.skip(2));
            assert(out@ =~= wsl_path_spec(windows_path@));
        }
        out
    } else {
        replace_backslash_with_slash(windows_path)
    }
}

/// Windows form of a path that may be in WSL mount form: `/mnt/c/x`
/// becomes `C:\x`; another mount `/mnt/d/x` becomes `D:\` followed by
/// the separator-mapped remainder `\x`, so a doubled backslash stands
/// between drive and path (Windows tooling accepts it); drive paths get
/// their separators normalized; anything else is returned as-is.
pub open spec fn windows_path_spec(s: Seq<char>) -> Seq<char> {
    if "/mnt/c/"@.is_prefix_of(s) {
        seq!['C', ':', '\\'] + map_replace(s.skip(7), '/', '\\')
    } else if "/mnt/"@.is_prefix_of(s) && s.len() > 5 {
        seq![upper_char(s[5]), ':', '\\'] + map_replace(s.skip(6), '/', '\\')
    } else if s.len() > 2 && s[1] == ':' {
        map_replace(s, '/', '\\')
    } else {
        s
    }
}

/// ASCII upper-casing of one character.
pub open spec fn upper_char(c: char) -> char {
    if 'a' <= c && c <= 'z' {
        (((c as u8) - 32) as char)
    } else {
        c
    }
}

fn upper_c(c: char) -> (r: char)
    ensures
        r == upper_char(c),
{
    if 'a' <= c && c <= 'z' {
        (((c as u8) - 32) as char)
    } else {
        c
    }
}

/// Convert a WSL or mixed path to native Windows form for handing to
/// Windows tooling.
pub fn convert_path_for_windows(path: &str) -> (r: String)
    ensures
        r@ == windows_path_spec(path@),
{
    proof {
        reveal_strlit("/mnt/c/");
        reveal_strlit("/mnt/");
        reveal_strlit("C:\\");
    }
    let n: usize = path.unicode_len();
    if str_starts_with(path, "/mnt/c/") {
        let mut out: String = String::from_str("C:\\");
        let rest: &str = path.substring_char(7, n);
        let mapped: String = replace_slash_with_backslash(rest);
        out.append(mapped.as_str());
        proof {
            assert(rest@ =~= path@.skip(7));
            assert("C:\\"@ =~= seq!['C', ':', '\\']);
            assert(out@ =~= windows_path_spec(path@));
        }
        out
    } else if str_starts_with(path, "/mnt/") && n > 5 {
        let drive: char = upper_c(path.get_char(5));
        let mut out: String = String::new();
        out.push(drive);
        out.push(':');
        out.push('\\');
        let rest: &str = path.substring_char(6, n);
        let mapped: String = replace_slash_with_backslash(rest);
        out.append(mapped.as_str());
        proof {
            assert(rest@ =~= path@.skip(6));
            assert(out@ =~= windows_path_spec(path@));
        }
        out
    } else if n > 2 && path.get_char(1) == ':' {
        replace_slash_with_backslash(path)
    } else {
        String::from_str(path)
    }
}

} // verus!

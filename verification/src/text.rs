//! Verified character-level utilities on `&str` and `String`.
//!
//! Everything in this module is executable code proved against
//! sequence-level specifications; nothing here is trusted.

use vstd::prelude::*;
use vstd::string::StrSliceExecFns;
use vstd::string::StringExecFns;

verus! {

// ---------------------------------------------------------------------------
// Specification helpers
// ---------------------------------------------------------------------------

/// A substring occurs somewhere in `s`.
pub open spec fn contains_sub(s: Seq<char>, p: Seq<char>) -> bool {
    exists|i: int| 0 <= i && i + p.len() <= s.len() && p =~= #[trigger] s.subrange(i, i + p.len())
}

/// `s` with every occurrence of `from` replaced by `to`.
pub open spec fn map_replace(s: Seq<char>, from: char, to: char) -> Seq<char> {
    s.map_values(|c: char| if c == from { to } else { c })
}

// ---------------------------------------------------------------------------
// Comparison and search
// ---------------------------------------------------------------------------

/// Character-for-character equality of two string slices.
pub fn str_eq(a: &str, b: &str) -> (r: bool)
    ensures
        r == (a@ == b@),
{
    let n: usize = a.unicode_len();
    let m: usize = b.unicode_len();
    if n != m {
        return false;
    }
    let mut i: usize = 0;
    while i < n
        invariant
            n == a@.len(),
            n == b@.len(),
            i <= n,
            forall|j: int| 0 <= j < i ==> a@[j] == b@[j],
        decreases n - i,
    {
        if a.get_char(i) != b.get_char(i) {
            return false;
        }
        i = i + 1;
    }
    proof {
        assert(a@ =~= b@);
    }
    true
}

/// Whether `p` is a prefix of `s`.
pub fn str_starts_with(s: &str, p: &str) -> (r: bool)
    ensures
        r == p@.is_prefix_of(s@),
{
    let n: usize = s.unicode_len();
    let m: usize = p.unicode_len();
    if m > n {
        return false;
    }
    let mut i: usize = 0;
    while i < m
        invariant
            n == s@.len(),
            m == p@.len(),
            m <= n,
            i <= m,
            forall|j: int| 0 <= j < i ==> s@[j] == p@[j],
        decreases m - i,
    {
        if s.get_char(i) != p.get_char(i) {
            proof {
                assert(!(p@ =~= s@.subrange(0, m as int)));
            }
            return false;
        }
        i = i + 1;
    }
    proof {
        assert(p@ =~= s@.subrange(0, m as int));
    }
    true
}

/// Whether `s` contains the character `c`.
pub fn str_contains_char(s: &str, c: char) -> (r: bool)
    ensures
        r == s@.contains(c),
{
    let n: usize = s.unicode_len();
    let mut i: usize = 0;
    while i < n
        invariant
            n == s@.len(),
            i <= n,
            forall|j: int| 0 <= j < i ==> s@[j] != c,
        decreases n - i,
    {
        if s.get_char(i) == c {
            return true;
        }
        i = i + 1;
    }
    false
}

/// Whether `p` occurs as a contiguous substring of `s`.
pub fn str_contains_sub(s: &str, p: &str) -> (r: bool)
    ensures
        r == contains_sub(s@, p@),
{
    let n: usize = s.unicode_len();
    let m: usize = p.unicode_len();
    if m > n {
        proof {
            assert forall|i: int| !(0 <= i && i + p@.len() <= s@.len() && p@ =~= #[trigger] s@.subrange(
                i,
                i + p@.len(),
            )) by {}
        }
        return false;
    }
    let mut i: usize = 0;
    while i <= n - m
        invariant
            n == s@.len(),
            m == p@.len(),
            m <= n,
            i <= n - m + 1,
            forall|q: int| 0 <= q < i ==> !(p@ =~= #[trigger] s@.subrange(q, q + p@.len())),
        decreases n + 1 - m - i,
    {
        let mut k: usize = 0;
        let mut here: bool = true;
        while k < m
            invariant
                n == s@.len(),
                m == p@.len(),
                m <= n,
                i <= n - m,
                k <= m,
                here ==> forall|j: int| 0 <= j < k ==> s@[i + j] == p@[j],
                !here ==> !(p@ =~= s@.subrange(i as int, i + p@.len())),
            decreases m - k,
        {
            if s.get_char(i + k) != p.get_char(k) {
                proof {
                    assert(s@.subrange(i as int, i + p@.len())[k as int] == s@[i + k]);
                }
                here = false;
                k = m;
            } else {
                k = k + 1;
            }
        }
        if here {
            proof {
                assert(p@ =~= s@.subrange(i as int, i + p@.len()));
            }
            return true;
        }
        i = i + 1;
    }
    proof {
        assert forall|q: int| 0 <= q && q + p@.len() <= s@.len() implies !(p@ =~= #[trigger] s@.subrange(
            q,
            q + p@.len(),
        )) by {
            assert(q < i);
        }
    }
    false
}

// ---------------------------------------------------------------------------
// Building strings
// ---------------------------------------------------------------------------

/// Append the single character `s[i]` to `out`.
pub fn append_char_of(out: &mut String, s: &str, i: usize)
    requires
        i < s@.len(),
        i < usize::MAX,
    ensures
        final(out)@ == old(out)@.push(s@[i as int]),
{
    let piece: &str = s.substring_char(i, i + 1);
    out.append(piece);
    proof {
        assert(old(out)@ + s@.subrange(i as int, i + 1) =~= old(out)@.push(s@[i as int]));
    }
}

/// `s` with every `from` replaced by `to`; the replacement pair is fixed
/// to the two path separators, the only replacement the library performs.
pub fn replace_backslash_with_slash(s: &str) -> (r: String)
    ensures
        r@ == map_replace(s@, '\\', '/'),
{
    proof {
        reveal_strlit("/");
    }
    let n: usize = s.unicode_len();
    let mut out: String = String::new();
    let mut i: usize = 0;
    while i < n
        invariant
            n == s@.len(),
            i <= n,
            out@ =~= map_replace(s@, '\\', '/').take(i as int),
            "/"@ =~= seq!['/'],
        decreases n - i,
    {
        let c: char = s.get_char(i);
        if c == '\\' {
            out.append("/");
        } else {
            append_char_of(&mut out, s, i);
        }
        proof {
            assert(out@ =~= map_replace(s@, '\\', '/').take(i + 1));
        }
        i = i + 1;
    }
    proof {
        assert(map_replace(s@, '\\', '/').take(n as int) =~= map_replace(s@, '\\', '/'));
    }
    out
}

/// `s` with every `/` replaced by `\`.
pub fn replace_slash_with_backslash(s: &str) -> (r: String)
    ensures
        r@ == map_replace(s@, '/', '\\'),
{
    proof {
        reveal_strlit("\\");
    }
    let n: usize = s.unicode_len();
    let mut out: String = String::new();
    let mut i: usize = 0;
    while i < n
        invariant
            n == s@.len(),
            i <= n,
            out@ =~= map_replace(s@, '/', '\\').take(i as int),
            "\\"@ =~= seq!['\\'],
        decreases n - i,
    {
        let c: char = s.get_char(i);
        if c == '/' {
            out.append("\\");
        } else {
            append_char_of(&mut out, s, i);
        }
        proof {
            assert(out@ =~= map_replace(s@, '/', '\\').take(i + 1));
        }
        i = i + 1;
    }
    proof {
        assert(map_replace(s@, '/', '\\').take(n as int) =~= map_replace(s@, '/', '\\'));
    }
    out
}

// ---------------------------------------------------------------------------
// Trimming
// ---------------------------------------------------------------------------

/// ASCII whitespace, the only whitespace the library recognises.
pub open spec fn is_space(c: char) -> bool {
    c == ' ' || c == '\t' || c == '\r' || c == '\n'
}

/// How many whitespace characters `s` begins with.
pub open spec fn leading_spaces(s: Seq<char>) -> int
    decreases s.len(),
{
    if s.len() > 0 && is_space(s[0]) {
        1 + leading_spaces(s.skip(1))
    } else {
        0
    }
}

/// How many whitespace characters `s` ends with.
pub open spec fn trailing_spaces(s: Seq<char>) -> int
    decreases s.len(),
{
    if s.len() > 0 && is_space(s[s.len() - 1]) {
        1 + trailing_spaces(s.drop_last())
    } else {
        0
    }
}

/// `s` without leading and trailing whitespace.
pub open spec fn trim_spec(s: Seq<char>) -> Seq<char> {
    if leading_spaces(s) == s.len() {
        Seq::empty()
    } else {
        s.subrange(leading_spaces(s), s.len() - trailing_spaces(s))
    }
}

pub proof fn lemma_leading_spaces(s: Seq<char>, i: int)
    requires
        0 <= i <= s.len(),
        forall|j: int| 0 <= j < i ==> is_space(s[j]),
        i < s.len() ==> !is_space(s[i]),
    ensures
        leading_spaces(s) == i,
    decreases i,
{
    if i == 0 {
    } else {
        lemma_leading_spaces(s.skip(1), i - 1);
    }
}

pub proof fn lemma_trailing_spaces(s: Seq<char>, t: int)
    requires
        0 <= t <= s.len(),
        forall|j: int| s.len() - t <= j < s.len() ==> is_space(s[j]),
        t < s.len() ==> !is_space(s[s.len() - t - 1]),
    ensures
        trailing_spaces(s) == t,
    decreases t,
{
    if t == 0 {
    } else {
        lemma_trailing_spaces(s.drop_last(), t - 1);
    }
}

/// The leading-space count stops at the first non-space character.
pub proof fn lemma_leading_spaces_stop(s: Seq<char>)
    ensures
        0 <= leading_spaces(s) <= s.len(),
        leading_spaces(s) < s.len() ==> !is_space(s[leading_spaces(s)]),
    decreases s.len(),
{
    if s.len() > 0 && is_space(s[0]) {
        lemma_leading_spaces_stop(s.skip(1));
        assert(leading_spaces(s) == 1 + leading_spaces(s.skip(1)));
        if leading_spaces(s) < s.len() {
            assert(s.skip(1)[leading_spaces(s.skip(1))] == s[leading_spaces(s)]);
        }
    }
}

/// No more spaces lead than stand before any non-space character.
pub proof fn lemma_leading_spaces_le(s: Seq<char>, i: int)
    requires
        0 <= i < s.len(),
        !is_space(s[i]),
    ensures
        leading_spaces(s) <= i,
    decreases i,
{
    if s.len() > 0 && is_space(s[0]) {
        assert(s.skip(1)[i - 1] == s[i]);
        lemma_leading_spaces_le(s.skip(1), i - 1);
    }
}

pub proof fn lemma_trailing_spaces_bounds(s: Seq<char>)
    ensures
        0 <= trailing_spaces(s) <= s.len(),
    decreases s.len(),
{
    if s.len() > 0 && is_space(s[s.len() - 1]) {
        lemma_trailing_spaces_bounds(s.drop_last());
    }
}

/// No more spaces trail than stand after any non-space character.
pub proof fn lemma_trailing_spaces_le(s: Seq<char>, i: int)
    requires
        0 <= i < s.len(),
        !is_space(s[i]),
    ensures
        trailing_spaces(s) <= s.len() - 1 - i,
    decreases s.len(),
{
    if s.len() > 0 && is_space(s[s.len() - 1]) {
        assert(s.drop_last()[i] == s[i]);
        lemma_trailing_spaces_le(s.drop_last(), i);
    }
}

/// A string with a non-space character trims to a non-empty string,
/// and a trimmed string never begins with a space.
pub proof fn lemma_trim_keeps_content(s: Seq<char>, i: int)
    requires
        0 <= i < s.len(),
        !is_space(s[i]),
    ensures
        trim_spec(s).len() > 0,
        !is_space(trim_spec(s)[0]),
{
    lemma_leading_spaces_stop(s);
    lemma_leading_spaces_le(s, i);
    let lead = leading_spaces(s);
    assert(lead < s.len());
    assert(!is_space(s[lead]));
    lemma_trailing_spaces_bounds(s);
    lemma_trailing_spaces_le(s, lead);
    let trail = trailing_spaces(s);
    assert(lead < s.len() - trail);
    assert(trim_spec(s) == s.subrange(lead, s.len() - trail));
    assert(trim_spec(s)[0] == s[lead]);
}

fn is_space_c(c: char) -> (r: bool)
    ensures
        r == is_space(c),
{
    c == ' ' || c == '\t' || c == '\r' || c == '\n'
}

/// A fresh string holding `s` without leading and trailing whitespace.
pub fn trim(s: &str) -> (r: String)
    ensures
        r@ == trim_spec(s@),
{
    let n: usize = s.unicode_len();
    let mut a: usize = 0;
    while a < n && is_space_c(s.get_char(a))
        invariant
            n == s@.len(),
            a <= n,
            forall|j: int| 0 <= j < a ==> is_space(s@[j]),
        decreases n - a,
    {
        a = a + 1;
    }
    if a == n {
        proof {
            lemma_leading_spaces(s@, n as int);
        }
        return String::new();
    }
    proof {
        lemma_leading_spaces(s@, a as int);
    }
    let mut b: usize = n;
    while b > a && is_space_c(s.get_char(b - 1))
        invariant
            n == s@.len(),
            a < n,
            !is_space(s@[a as int]),
            a < b <= n,
            forall|j: int| b <= j < n ==> is_space(s@[j]),
        decreases b,
    {
        b = b - 1;
    }
    proof {
        lemma_trailing_spaces(s@, n - b);
    }
    let piece: &str = s.substring_char(a, b);
    String::from_str(piece)
}

// ---------------------------------------------------------------------------
// Splitting and joining
// ---------------------------------------------------------------------------

/// The separator families the library splits on.
#[derive(Clone, Copy, PartialEq, Eq, Structural, Debug)]
pub enum SepKind {
    PathSep,
    Whitespace,
    Newline,
}

/// The predicate a separator kind stands for.
pub open spec fn sep_pred(kind: SepKind) -> spec_fn(char) -> bool {
    match kind {
        SepKind::PathSep => |c: char| c == '/' || c == '\\',
        SepKind::Whitespace => |c: char| is_space(c),
        SepKind::Newline => |c: char| c == '\n',
    }
}

fn is_sep_kind(kind: SepKind, c: char) -> (r: bool)
    ensures
        r == sep_pred(kind)(c),
{
    match kind {
        SepKind::PathSep => c == '/' || c == '\\',
        SepKind::Whitespace => is_space_c(c),
        SepKind::Newline => c == '\n',
    }
}

/// One step-at-a-time model of splitting `s` on `sep`, accumulating the
/// current field in `cur` and the finished fields in `acc`; empty fields
/// are dropped.
pub open spec fn split_rec(
    s: Seq<char>,
    sep: spec_fn(char) -> bool,
    cur: Seq<char>,
    acc: Seq<Seq<char>>,
) -> Seq<Seq<char>>
    decreases s.len(),
{
    if s.len() == 0 {
        if cur.len() > 0 {
            acc.push(cur)
        } else {
            acc
        }
    } else if sep(s[0]) {
        split_rec(s.skip(1), sep, Seq::empty(), if cur.len() > 0 {
            acc.push(cur)
        } else {
            acc
        })
    } else {
        split_rec(s.skip(1), sep, cur.push(s[0]), acc)
    }
}

/// The non-empty fields of `s` split on `sep`, in order.
pub open spec fn split_nonempty(s: Seq<char>, sep: spec_fn(char) -> bool) -> Seq<Seq<char>> {
    split_rec(s, sep, Seq::empty(), Seq::empty())
}

/// A well-formed field: non-empty and free of separators.
pub open spec fn seg_ok(seg: Seq<char>, sep: spec_fn(char) -> bool) -> bool {
    seg.len() > 0 && forall|k: int| 0 <= k < seg.len() ==> !sep(#[trigger] seg[k])
}

pub open spec fn segs_ok(parts: Seq<Seq<char>>, sep: spec_fn(char) -> bool) -> bool {
    forall|j: int| 0 <= j < parts.len() ==> seg_ok(#[trigger] parts[j], sep)
}

proof fn lemma_split_rec_ok(
    s: Seq<char>,
    sep: spec_fn(char) -> bool,
    cur: Seq<char>,
    acc: Seq<Seq<char>>,
)
    requires
        segs_ok(acc, sep),
        forall|k: int| 0 <= k < cur.len() ==> !sep(#[trigger] cur[k]),
    ensures
        segs_ok(split_rec(s, sep, cur, acc), sep),
    decreases s.len(),
{
    if s.len() == 0 {
        if cur.len() > 0 {
            assert forall|j: int| 0 <= j < acc.push(cur).len() implies seg_ok(
                #[trigger] acc.push(cur)[j],
                sep,
            ) by {}
        }
    } else if sep(s[0]) {
        if cur.len() > 0 {
            assert forall|j: int| 0 <= j < acc.push(cur).len() implies seg_ok(
                #[trigger] acc.push(cur)[j],
                sep,
            ) by {}
            lemma_split_rec_ok(s.skip(1), sep, Seq::empty(), acc.push(cur));
        } else {
            lemma_split_rec_ok(s.skip(1), sep, Seq::empty(), acc);
        }
    } else {
        lemma_split_rec_ok(s.skip(1), sep, cur.push(s[0]), acc);
    }
}

/// Every field of a split is non-empty and free of separators.
pub proof fn lemma_split_nonempty_ok(s: Seq<char>, sep: spec_fn(char) -> bool)
    ensures
        segs_ok(split_nonempty(s, sep), sep),
{
    lemma_split_rec_ok(s, sep, Seq::empty(), Seq::empty());
}

/// Some character of `seg` satisfies `good`.
pub open spec fn seg_has(seg: Seq<char>, good: spec_fn(char) -> bool) -> bool {
    exists|k: int| 0 <= k < seg.len() && good(#[trigger] seg[k])
}

/// Some field of `parts` holds a character satisfying `good`.
pub open spec fn parts_have(parts: Seq<Seq<char>>, good: spec_fn(char) -> bool) -> bool {
    exists|j: int| 0 <= j < parts.len() && seg_has(#[trigger] parts[j], good)
}

proof fn lemma_split_rec_good(
    s: Seq<char>,
    sep: spec_fn(char) -> bool,
    cur: Seq<char>,
    acc: Seq<Seq<char>>,
    good: spec_fn(char) -> bool,
)
    requires
        forall|c: char| #[trigger] good(c) ==> !sep(c),
        seg_has(cur, good) || seg_has(s, good) || parts_have(acc, good),
    ensures
        parts_have(split_rec(s, sep, cur, acc), good),
    decreases s.len(),
{
    if s.len() == 0 {
        if seg_has(cur, good) {
            assert(cur.len() > 0);
            let out = acc.push(cur);
            assert(out[acc.len() as int] == cur);
            assert(parts_have(out, good));
        } else {
            let j = choose|j: int| 0 <= j < acc.len() && seg_has(acc[j], good);
            if cur.len() > 0 {
                assert(acc.push(cur)[j] == acc[j]);
                assert(parts_have(acc.push(cur), good));
            }
        }
    } else if sep(s[0]) {
        let acc2 = if cur.len() > 0 {
            acc.push(cur)
        } else {
            acc
        };
        if seg_has(cur, good) {
            assert(cur.len() > 0);
            assert(acc2[acc.len() as int] == cur);
            assert(parts_have(acc2, good));
        } else if parts_have(acc, good) {
            let j = choose|j: int| 0 <= j < acc.len() && seg_has(acc[j], good);
            assert(acc2[j] == acc[j]);
            assert(parts_have(acc2, good));
        } else {
            let k = choose|k: int| 0 <= k < s.len() && good(s[k]);
            assert(k != 0);
            assert(s.skip(1)[k - 1] == s[k]);
            assert(seg_has(s.skip(1), good));
        }
        lemma_split_rec_good(s.skip(1), sep, Seq::empty(), acc2, good);
    } else {
        let cur2 = cur.push(s[0]);
        if seg_has(cur, good) {
            let k = choose|k: int| 0 <= k < cur.len() && good(cur[k]);
            assert(cur2[k] == cur[k]);
            assert(seg_has(cur2, good));
        } else if seg_has(s, good) {
            let k = choose|k: int| 0 <= k < s.len() && good(s[k]);
            if k == 0 {
                assert(cur2[cur.len() as int] == s[0]);
                assert(seg_has(cur2, good));
            } else {
                assert(s.skip(1)[k - 1] == s[k]);
                assert(seg_has(s.skip(1), good));
            }
        }
        lemma_split_rec_good(s.skip(1), sep, cur2, acc, good);
    }
}

/// A character that no separator matches survives the split: some
/// field holds it, so the split is non-empty.
pub proof fn lemma_split_nonempty_good(
    s: Seq<char>,
    sep: spec_fn(char) -> bool,
    good: spec_fn(char) -> bool,
)
    requires
        forall|c: char| #[trigger] good(c) ==> !sep(c),
        seg_has(s, good),
    ensures
        parts_have(split_nonempty(s, sep), good),
        split_nonempty(s, sep).len() >= 1,
{
    lemma_split_rec_good(s, sep, Seq::empty(), Seq::empty(), good);
    let parts = split_nonempty(s, sep);
    let j = choose|j: int| 0 <= j < parts.len() && seg_has(parts[j], good);
    assert(parts.len() >= 1);
}

/// Split `s` on the given separator family, dropping empty fields.
pub fn split_str(s: &str, kind: SepKind) -> (r: Vec<String>)
    ensures
        r@.map_values(|t: String| t@) == split_nonempty(s@, sep_pred(kind)),
{
    let ghost sep = sep_pred(kind);
    let n: usize = s.unicode_len();
    let mut acc: Vec<String> = Vec::new();
    let mut cur: String = String::new();
    let mut i: usize = 0;
    proof {
        assert(s@.skip(0) =~= s@);
        assert(acc@.map_values(|t: String| t@) =~= Seq::<Seq<char>>::empty());
    }
    while i < n
        invariant
            n == s@.len(),
            i <= n,
            split_rec(s@.skip(i as int), sep, cur@, acc@.map_values(|t: String| t@))
                == split_nonempty(s@, sep),
            sep == sep_pred(kind),
        decreases n - i,
    {
        let ghost pre_s = s@.skip(i as int);
        let ghost pre_cur = cur@;
        let ghost pre_acc = acc@.map_values(|t: String| t@);
        proof {
            assert(pre_s[0] == s@[i as int]);
            assert(pre_s.skip(1) =~= s@.skip(i + 1));
        }
        let c: char = s.get_char(i);
        if is_sep_kind(kind, c) {
            if cur.unicode_len() > 0 {
                acc.push(cur);
                cur = String::new();
                proof {
                    assert(acc@.map_values(|t: String| t@) =~= pre_acc.push(pre_cur));
                }
            }
        } else {
            append_char_of(&mut cur, s, i);
        }
        proof {
            if pre_cur.len() == 0 {
                assert(pre_cur =~= Seq::<char>::empty());
            }
            assert(split_rec(s@.skip(i + 1), sep, cur@, acc@.map_values(|t: String| t@))
                == split_rec(pre_s, sep, pre_cur, pre_acc));
        }
        i = i + 1;
    }
    proof {
        assert(s@.skip(n as int).len() == 0);
    }
    if cur.unicode_len() > 0 {
        let ghost pre_acc = acc@.map_values(|t: String| t@);
        let ghost pre_cur = cur@;
        acc.push(cur);
        proof {
            assert(acc@.map_values(|t: String| t@) =~= pre_acc.push(pre_cur));
        }
    }
    acc
}

/// The fields of `parts` joined with `sep` between consecutive fields.
pub open spec fn join_with(parts: Seq<Seq<char>>, sep: Seq<char>) -> Seq<char>
    decreases parts.len(),
{
    if parts.len() == 0 {
        Seq::empty()
    } else if parts.len() == 1 {
        parts[0]
    } else {
        parts[0] + sep + join_with(parts.skip(1), sep)
    }
}

pub proof fn lemma_join_take(parts: Seq<Seq<char>>, sep: Seq<char>, i: int)
    requires
        1 <= i < parts.len(),
    ensures
        join_with(parts.take(i + 1), sep) == join_with(parts.take(i), sep) + sep + parts[i],
    decreases i,
{
    if i == 1 {
        assert(parts.take(2).skip(1) =~= seq![parts[1]]);
        assert(parts.take(1) =~= seq![parts[0]]);
        assert(parts.take(2)[0] == parts[0]);
        assert(join_with(seq![parts[1]], sep) == parts[1]);
        assert(join_with(seq![parts[0]], sep) == parts[0]);
        assert(join_with(parts.take(2), sep) =~= parts[0] + sep + parts[1]);
        assert(join_with(parts.take(1), sep) + sep + parts[1] =~= parts[0] + sep + parts[1]);
    } else {
        lemma_join_take(parts.skip(1), sep, i - 1);
        assert(parts.take(i + 1).skip(1) =~= parts.skip(1).take(i));
        assert(parts.take(i).skip(1) =~= parts.skip(1).take(i - 1));
        assert(parts.take(i + 1)[0] == parts[0]);
        assert(parts.take(i)[0] == parts[0]);
        assert(parts.skip(1)[i - 1] == parts[i]);
        assert(join_with(parts.take(i + 1), sep) == parts[0] + sep + join_with(
            parts.skip(1).take(i),
            sep,
        ));
        assert(join_with(parts.take(i), sep) == parts[0] + sep + join_with(
            parts.skip(1).take(i - 1),
            sep,
        ));
        assert((parts[0] + sep + (join_with(parts.skip(1).take(i - 1), sep) + sep + parts[i])) =~= (
        parts[0] + sep + join_with(parts.skip(1).take(i - 1), sep)) + sep + parts[i]);
    }
}

/// Replacing `from` leaves no occurrence of it behind.
pub proof fn lemma_map_replace_absent(s: Seq<char>, from: char, to: char)
    requires
        from != to,
    ensures
        !map_replace(s, from, to).contains(from),
{
    assert forall|k: int| 0 <= k < map_replace(s, from, to).len() implies map_replace(s, from, to)[k]
        != from by {}
}

/// A character absent from every field and from the separator is absent
/// from the join.
pub proof fn lemma_join_absent(parts: Seq<Seq<char>>, sep: Seq<char>, c: char)
    requires
        forall|j: int| 0 <= j < parts.len() ==> !(#[trigger] parts[j]).contains(c),
        !sep.contains(c),
    ensures
        !join_with(parts, sep).contains(c),
    decreases parts.len(),
{
    if parts.len() == 0 {
    } else if parts.len() == 1 {
        assert(join_with(parts, sep) == parts[0]);
        assert(!parts[0].contains(c));
    } else {
        assert forall|j: int| 0 <= j < parts.skip(1).len() implies !(#[trigger] parts.skip(
            1,
        )[j]).contains(c) by {
            assert(parts.skip(1)[j] == parts[j + 1]);
        }
        lemma_join_absent(parts.skip(1), sep, c);
        let rest = join_with(parts.skip(1), sep);
        let whole = parts[0] + sep + rest;
        assert forall|k: int| 0 <= k < whole.len() implies whole[k] != c by {
            if k < parts[0].len() {
                assert(whole[k] == parts[0][k]);
                assert(!parts[0].contains(c));
            } else if k < parts[0].len() + sep.len() {
                assert(whole[k] == sep[k - parts[0].len()]);
            } else {
                assert(whole[k] == rest[k - parts[0].len() - sep.len()]);
                assert(!rest.contains(c));
            }
        }
    }
}

/// Join the strings of `parts` with the separator `sep`.
pub fn join_strings(parts: &Vec<String>, sep: &str) -> (r: String)
    ensures
        r@ == join_with(parts@.map_values(|t: String| t@), sep@),
{
    let ghost views = parts@.map_values(|t: String| t@);
    if parts.len() == 0 {
        return String::new();
    }
    let mut out: String = parts[0].clone();
    proof {
        assert(views.take(1) =~= seq![views[0]]);
        assert(join_with(views.take(1), sep@) == views[0]);
    }
    let mut i: usize = 1;
    while i < parts.len()
        invariant
            1 <= i <= parts.len(),
            views == parts@.map_values(|t: String| t@),
            out@ == join_with(views.take(i as int), sep@),
        decreases parts.len() - i,
    {
        out.append(sep);
        out.append(parts[i].as_str());
        proof {
            lemma_join_take(views, sep@, i as int);
        }
        i = i + 1;
    }
    proof {
        assert(views.take(parts@.len() as int) =~= views);
    }
    out
}

/// The character sequences a vector of strings stands for.
pub open spec fn views(v: Seq<String>) -> Seq<Seq<char>> {
    v.map_values(|t: String| t@)
}

/// Push one string, tracked at the view level.
pub fn push_line(out: &mut Vec<String>, s: String)
    ensures
        views(final(out)@) == views(old(out)@).push(s@),
{
    let ghost pre = views(out@);
    let ghost sv = s@;
    out.push(s);
    proof {
        assert(views(out@) =~= pre.push(sv));
    }
}

/// Append clones of all strings of `src`, tracked at the view level.
pub fn extend_lines(out: &mut Vec<String>, src: &Vec<String>)
    ensures
        views(final(out)@) == views(old(out)@) + views(src@),
{
    let ghost pre = views(out@);
    let mut i: usize = 0;
    proof {
        assert(views(out@) =~= pre + views(src@).take(0));
    }
    while i < src.len()
        invariant
            i <= src@.len(),
            views(out@) == pre + views(src@).take(i as int),
        decreases src@.len() - i,
    {
        let ghost mid = views(out@);
        out.push(src[i].clone());
        proof {
            assert(views(out@) =~= mid.push(src@[i as int]@));
            assert(mid.push(src@[i as int]@) =~= pre + views(src@).take(i + 1));
        }
        i = i + 1;
    }
    proof {
        assert(views(src@).take(src@.len() as int) =~= views(src@));
    }
}

/// A copy of `parts` without its first element.
pub fn skip_first(parts: &Vec<String>) -> (r: Vec<String>)
    requires
        parts@.len() >= 1,
    ensures
        r@.map_values(|t: String| t@) == parts@.map_values(|t: String| t@).skip(1),
{
    let mut out: Vec<String> = Vec::new();
    let mut i: usize = 1;
    proof {
        assert(out@.map_values(|t: String| t@) =~= parts@.map_values(|t: String| t@).skip(1).take(
            0,
        ));
    }
    while i < parts.len()
        invariant
            1 <= i <= parts@.len(),
            out@.map_values(|t: String| t@) == parts@.map_values(|t: String| t@).skip(1).take(
                i - 1,
            ),
        decreases parts@.len() - i,
    {
        let ghost pre = out@.map_values(|t: String| t@);
        out.push(parts[i].clone());
        proof {
            assert(out@.map_values(|t: String| t@) =~= pre.push(parts@[i as int]@));
            assert(out@.map_values(|t: String| t@) =~= parts@.map_values(|t: String| t@).skip(
                1,
            ).take(i as int));
        }
        i = i + 1;
    }
    proof {
        assert(parts@.map_values(|t: String| t@).skip(1).take(parts@.len() - 1)
            =~= parts@.map_values(|t: String| t@).skip(1));
    }
    out
}

// ---------------------------------------------------------------------------
// ASCII lower-casing
// ---------------------------------------------------------------------------

/// ASCII lower-casing of one character.
pub open spec fn lower_char(c: char) -> char {
    if 'A' <= c && c <= 'Z' {
        (((c as u8) + 32) as char)
    } else {
        c
    }
}

/// ASCII lower-casing of a whole sequence.
pub open spec fn lower_ascii(s: Seq<char>) -> Seq<char> {
    s.map_values(|c: char| lower_char(c))
}

pub fn lower_c(c: char) -> (r: char)
    ensures
        r == lower_char(c),
{
    if 'A' <= c && c <= 'Z' {
        (((c as u8) + 32) as char)
    } else {
        c
    }
}

/// Whether the ASCII lower-casing of `s` contains the substring `p`.
pub fn contains_sub_lower(s: &str, p: &str) -> (r: bool)
    ensures
        r == contains_sub(lower_ascii(s@), p@),
{
    let n: usize = s.unicode_len();
    let mut low: String = String::new();
    let mut i: usize = 0;
    while i < n
        invariant
            n == s@.len(),
            i <= n,
            low@ =~= lower_ascii(s@).take(i as int),
        decreases n - i,
    {
        let c: char = lower_c(s.get_char(i));
        low.push(c);
        proof {
            assert(low@ =~= lower_ascii(s@).take(i + 1));
        }
        i = i + 1;
    }
    proof {
        assert(lower_ascii(s@).take(n as int) =~= lower_ascii(s@));
    }
    str_contains_sub(low.as_str(), p)
}

// ---------------------------------------------------------------------------
// Decimal formatting
// ---------------------------------------------------------------------------

/// The decimal digit character for a value below ten.
pub open spec fn dec_digit(d: int) -> char {
    if d == 0 {
        '0'
    } else if d == 1 {
        '1'
    } else if d == 2 {
        '2'
    } else if d == 3 {
        '3'
    } else if d == 4 {
        '4'
    } else if d == 5 {
        '5'
    } else if d == 6 {
        '6'
    } else if d == 7 {
        '7'
    } else if d == 8 {
        '8'
    } else {
        '9'
    }
}

/// The decimal representation of a non-negative integer, most
/// significant digit first, with no leading zeros.
pub open spec fn dec_rep(n: int) -> Seq<char>
    decreases n,
{
    if n < 10 {
        seq![dec_digit(n)]
    } else {
        dec_rep(n / 10).push(dec_digit(n % 10))
    }
}

/// The decimal representation of a possibly negative integer.
pub open spec fn dec_rep_signed(n: int) -> Seq<char> {
    if n < 0 {
        seq!['-'] + dec_rep(-n)
    } else {
        dec_rep(n)
    }
}

fn append_digit(out: &mut String, d: u64)
    requires
        d < 10,
    ensures
        final(out)@ == old(out)@.push(dec_digit(d as int)),
{
    proof {
        reveal_strlit("0");
        reveal_strlit("1");
        reveal_strlit("2");
        reveal_strlit("3");
        reveal_strlit("4");
        reveal_strlit("5");
        reveal_strlit("6");
        reveal_strlit("7");
        reveal_strlit("8");
        reveal_strlit("9");
    }
    if d == 0 {
        out.append("0");
    } else if d == 1 {
        out.append("1");
    } else if d == 2 {
        out.append("2");
    } else if d == 3 {
        out.append("3");
    } else if d == 4 {
        out.append("4");
    } else if d == 5 {
        out.append("5");
    } else if d == 6 {
        out.append("6");
    } else if d == 7 {
        out.append("7");
    } else if d == 8 {
        out.append("8");
    } else {
        out.append("9");
    }
    proof {
        assert(final(out)@ =~= old(out)@.push(dec_digit(d as int)));
    }
}

/// Append the decimal form of `n` to `out`.
pub fn append_dec(out: &mut String, n: u64)
    ensures
        final(out)@ == old(out)@ + dec_rep(n as int),
    decreases n,
{
    if n < 10 {
        append_digit(out, n);
        proof {
            assert(final(out)@ =~= old(out)@ + dec_rep(n as int));
        }
    } else {
        append_dec(out, n / 10);
        append_digit(out, n % 10);
        proof {
            assert(final(out)@ =~= old(out)@ + dec_rep(n as int));
        }
    }
}

/// The decimal form of an unsigned integer as a fresh string.
pub fn u64_to_dec(n: u64) -> (r: String)
    ensures
        r@ == dec_rep(n as int),
{
    let mut out: String = String::new();
    append_dec(&mut out, n);
    proof {
        assert(Seq::<char>::empty() + dec_rep(n as int) =~= dec_rep(n as int));
    }
    out
}

/// The decimal form of a signed integer as a fresh string.
pub fn i64_to_dec(n: i64) -> (r: String)
    ensures
        r@ == dec_rep_signed(n as int),
{
    proof {
        reveal_strlit("-");
    }
    if n < 0 {
        let mut out: String = String::new();
        out.append("-");
        let mag: u64 = (-(n as i128)) as u64;
        append_dec(&mut out, mag);
        proof {
            assert(out@ =~= dec_rep_signed(n as int));
        }
        out
    } else {
        u64_to_dec(n as u64)
    }
}

} // verus!

//! Character-level text utilities: whitespace, trimming, token and line
//! extraction. The external tools this shell probes answer with small ASCII
//! reports on stdout; these functions read them one char at a time, with the
//! meaning of each operation pinned down over `Seq<char>`.

use vstd::prelude::*;

verus! {

/// Whitespace, as Unicode's White_Space property defines it: the ASCII
/// blanks and controls, next line, no-break space, ogham space mark, the
/// typographic spaces, the line and paragraph separators, narrow no-break
/// space, medium mathematical space, ideographic space.
pub open spec fn is_space(c: char) -> bool {
    c == ' ' || c == '\t' || c == '\n' || c == '\r' || c == '\u{b}' || c == '\u{c}' || c
        == '\u{85}' || c == '\u{a0}' || c == '\u{1680}' || ('\u{2000}' <= c && c <= '\u{200a}')
        || c == '\u{2028}' || c == '\u{2029}' || c == '\u{202f}' || c == '\u{205f}' || c
        == '\u{3000}'
}

/// Executable twin of `is_space`.
pub fn is_space_char(c: char) -> (r: bool)
    ensures
        r == is_space(c),
{
    c == ' ' || c == '\t' || c == '\n' || c == '\r' || c == '\u{b}' || c == '\u{c}' || c
        == '\u{85}' || c == '\u{a0}' || c == '\u{1680}' || ('\u{2000}' <= c && c <= '\u{200a}')
        || c == '\u{2028}' || c == '\u{2029}' || c == '\u{202f}' || c == '\u{205f}' || c
        == '\u{3000}'
}

/// A path separator: the POSIX one or the Windows one.
pub open spec fn is_sep(c: char) -> bool {
    c == '/' || c == '\\'
}

/// Executable twin of `is_sep`.
pub fn is_sep_char(c: char) -> (r: bool)
    ensures
        r == is_sep(c),
{
    c == '/' || c == '\\'
}

/// The characters of a string, in order.
pub fn chars_of(s: &str) -> (r: Vec<char>)
    ensures
        r@ == s@,
{
    let mut r: Vec<char> = Vec::new();
    for c in it: s.chars()
        invariant
            it.seq() == s@,
            r@ == s@.take(it.index() as int),
    {
        r.push(c);
    }
    proof {
        assert(r@ =~= s@);
    }
    r
}

/// Relies on String's FromIterator impl: collecting chars yields the string
/// of exactly those chars, in order.
#[verifier::external_body]
pub(crate) fn chars_to_string(v: &Vec<char>) -> (r: String)
    ensures
        r@ == v@,
{
    v.iter().collect()
}

/// The two strings, joined.
pub fn concat_strs(a: &str, b: &str) -> (r: String)
    ensures
        r@ == a@ + b@,
{
    let mut chars = chars_of(a);
    let rest = chars_of(b);
    let mut i: usize = 0;
    while i < rest.len()
        invariant
            i <= rest.len(),
            rest@ == b@,
            chars@ == a@ + b@.take(i as int),
        decreases rest.len() - i,
    {
        chars.push(rest[i]);
        i = i + 1;
        proof {
            assert(chars@ =~= a@ + b@.take(i as int));
        }
    }
    proof {
        assert(a@ + b@.take(b@.len() as int) =~= a@ + b@);
    }
    chars_to_string(&chars)
}

/// The sequence without its leading whitespace.
pub open spec fn trim_start_rec(s: Seq<char>) -> Seq<char>
    decreases s.len(),
{
    if s.len() > 0 && is_space(s[0]) {
        trim_start_rec(s.drop_first())
    } else {
        s
    }
}

/// The sequence without its trailing whitespace.
pub open spec fn trim_end_rec(s: Seq<char>) -> Seq<char>
    decreases s.len(),
{
    if s.len() > 0 && is_space(s[s.len() - 1]) {
        trim_end_rec(s.drop_last())
    } else {
        s
    }
}

/// The sequence without leading or trailing whitespace.
pub open spec fn spec_trim(s: Seq<char>) -> Seq<char> {
    trim_end_rec(trim_start_rec(s))
}

/// Dropping any all-space prefix does not change what trimming leaves.
proof fn lemma_trim_start_skip(s: Seq<char>, i: int)
    requires
        0 <= i <= s.len(),
        forall|k: int| 0 <= k < i ==> is_space(s[k]),
    ensures
        trim_start_rec(s) == trim_start_rec(s.skip(i)),
    decreases i,
{
    if i > 0 {
        assert(s.drop_first() =~= s.skip(1));
        lemma_trim_start_skip(s.skip(1), i - 1);
        assert(s.skip(1).skip(i - 1) =~= s.skip(i));
    } else {
        assert(s.skip(0) =~= s);
    }
}

/// Dropping any all-space suffix does not change what trimming leaves.
proof fn lemma_trim_end_take(s: Seq<char>, j: int)
    requires
        0 <= j <= s.len(),
        forall|k: int| j <= k < s.len() ==> is_space(s[k]),
    ensures
        trim_end_rec(s) == trim_end_rec(s.take(j)),
    decreases s.len() - j,
{
    if j < s.len() {
        assert(s.drop_last() =~= s.take(s.len() - 1));
        lemma_trim_end_take(s.take(s.len() - 1), j);
        assert(s.take(s.len() - 1).take(j) =~= s.take(j));
    } else {
        assert(s.take(s.len() as int) =~= s);
    }
}

/// The input without leading and trailing whitespace, as a fresh vector.
pub fn trim_chars(v: &Vec<char>) -> (r: Vec<char>)
    ensures
        r@ == spec_trim(v@),
{
    let n = v.len();
    let mut lo: usize = 0;
    while lo < n && is_space_char(v[lo])
        invariant
            lo <= n,
            n == v.len(),
            forall|k: int| 0 <= k < lo ==> is_space(v@[k]),
        decreases n - lo,
    {
        lo = lo + 1;
    }
    proof {
        lemma_trim_start_skip(v@, lo as int);
        if lo == n {
            assert(v@.skip(lo as int) =~= Seq::<char>::empty());
        }
        assert(trim_start_rec(v@) == v@.skip(lo as int));
    }
    let mut hi: usize = n;
    while hi > lo && is_space_char(v[hi - 1])
        invariant
            lo <= hi <= n,
            n == v.len(),
            forall|k: int| hi <= k < n ==> is_space(v@[k]),
        decreases hi,
    {
        hi = hi - 1;
    }
    proof {
        let t = v@.skip(lo as int);
        assert(forall|k: int| hi - lo <= k < t.len() ==> is_space(t[k]));
        lemma_trim_end_take(t, hi - lo);
        if hi == lo {
            assert(t.take(0) =~= Seq::<char>::empty());
        } else {
            assert(t[hi - lo - 1] == v@[hi - 1]);
            assert(!is_space(t[hi - lo - 1]));
        }
        assert(t.take(hi - lo) =~= v@.subrange(lo as int, hi as int));
        assert(spec_trim(v@) == v@.subrange(lo as int, hi as int));
    }
    let mut r: Vec<char> = Vec::new();
    let mut i: usize = lo;
    while i < hi
        invariant
            lo <= i <= hi <= n,
            n == v.len(),
            r@ == v@.subrange(lo as int, i as int),
        decreases hi - i,
    {
        r.push(v[i]);
        i = i + 1;
        proof {
            assert(r@ =~= v@.subrange(lo as int, i as int));
        }
    }
    r
}

/// The string without leading and trailing whitespace.
pub fn trim_str(s: &str) -> (r: String)
    ensures
        r@ == spec_trim(s@),
{
    let v = chars_of(s);
    let t = trim_chars(&v);
    chars_to_string(&t)
}

/// The longest prefix free of whitespace.
pub open spec fn token_prefix(s: Seq<char>) -> Seq<char>
    decreases s.len(),
{
    if s.len() > 0 && !is_space(s[0]) {
        seq![s[0]] + token_prefix(s.drop_first())
    } else {
        Seq::empty()
    }
}

/// The first whitespace-delimited token; empty when the input is all
/// whitespace.
pub open spec fn first_token(s: Seq<char>) -> Seq<char> {
    token_prefix(trim_start_rec(s))
}

/// The prefix up to the first whitespace is the token.
proof fn lemma_token_prefix(s: Seq<char>, j: int)
    requires
        0 <= j <= s.len(),
        forall|k: int| 0 <= k < j ==> !is_space(s[k]),
        j == s.len() || is_space(s[j]),
    ensures
        token_prefix(s) == s.take(j),
    decreases j,
{
    if j == 0 {
        assert(s.take(0) =~= Seq::<char>::empty());
    } else {
        assert(s.drop_first() =~= s.skip(1));
        lemma_token_prefix(s.skip(1), j - 1);
        assert(seq![s[0]] + s.skip(1).take(j - 1) =~= s.take(j));
    }
}

/// All of `s[from..space_at]` is non-space, and `space_at` is the end or a
/// space: the first token after position `from` is exactly that range.
pub(crate) proof fn lemma_first_token_range(s: Seq<char>, from: int, space_at: int)
    requires
        0 <= from <= space_at <= s.len(),
        from < space_at || from == s.len(),
        forall|k: int| 0 <= k < from ==> is_space(s[k]),
        forall|k: int| from <= k < space_at ==> !is_space(s[k]),
        space_at == s.len() || is_space(s[space_at]),
    ensures
        first_token(s) == s.subrange(from, space_at),
{
    lemma_trim_start_skip(s, from);
    let t = s.skip(from);
    if from == s.len() {
        assert(t =~= Seq::<char>::empty());
    } else {
        assert(!is_space(t[0]));
    }
    assert(trim_start_rec(s) == t);
    lemma_token_prefix(t, space_at - from);
    assert(t.take(space_at - from) =~= s.subrange(from, space_at));
}

/// The first line of a report: the chars before the first line ending, where
/// a line ending is a newline or a carriage return followed by a newline. A
/// lone trailing carriage return is part of the line.
pub open spec fn first_line(s: Seq<char>) -> Seq<char>
    decreases s.len(),
{
    if s.len() == 0 {
        s
    } else if s[0] == '\n' {
        Seq::empty()
    } else if s[0] == '\r' && s.len() > 1 && s[1] == '\n' {
        Seq::empty()
    } else {
        seq![s[0]] + first_line(s.drop_first())
    }
}

/// A line ending (newline, or carriage return followed by newline) starts at
/// position `k`.
pub open spec fn line_end_at(s: Seq<char>, k: int) -> bool {
    s[k] == '\n' || (s[k] == '\r' && k + 1 < s.len() && s[k + 1] == '\n')
}

/// Nothing in `s[..j]` starts a line ending, and position `j` does (or is the
/// end): the first line is exactly `s[..j]`.
proof fn lemma_first_line_range(s: Seq<char>, j: int)
    requires
        0 <= j <= s.len(),
        forall|k: int| 0 <= k < j ==> !line_end_at(s, k),
        j == s.len() || line_end_at(s, j),
    ensures
        first_line(s) == s.take(j),
    decreases j,
{
    if j == 0 {
        assert(s.take(0) =~= Seq::<char>::empty());
    } else {
        assert(!line_end_at(s, 0));
        assert(s.drop_first() =~= s.skip(1));
        assert forall|k: int| 0 <= k < j - 1 implies !line_end_at(s.skip(1), k) by {
            assert(!line_end_at(s, k + 1));
        }
        if j < s.len() {
            assert(line_end_at(s.skip(1), j - 1));
        }
        lemma_first_line_range(s.skip(1), j - 1);
        assert(seq![s[0]] + s.skip(1).take(j - 1) =~= s.take(j));
    }
}

/// The first line of the string, as `first_line` describes it.
pub fn first_line_str(s: &str) -> (r: String)
    ensures
        r@ == first_line(s@),
{
    let v = chars_of(s);
    let n = v.len();
    let mut j: usize = 0;
    while j < n && v[j] != '\n' && !(v[j] == '\r' && j + 1 < n && v[j + 1] == '\n')
        invariant
            j <= n,
            n == v.len(),
            v@ == s@,
            forall|k: int| 0 <= k < j ==> !line_end_at(s@, k),
        decreases n - j,
    {
        j = j + 1;
    }
    proof {
        lemma_first_line_range(s@, j as int);
    }
    let mut r: Vec<char> = Vec::new();
    let mut i: usize = 0;
    while i < j
        invariant
            i <= j <= n,
            n == v.len(),
            v@ == s@,
            r@ == s@.take(i as int),
        decreases j - i,
    {
        r.push(v[i]);
        i = i + 1;
        proof {
            assert(r@ =~= s@.take(i as int));
        }
    }
    chars_to_string(&r)
}

} // verus!

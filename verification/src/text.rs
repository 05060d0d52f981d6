//! Character-level string helpers shared by the rest of the library:
//! trimming, line splitting, prefixes and substrings, over `Seq<char>`.

use vstd::prelude::*;
use vstd::string::StringExecFns;

verus! {

/// `std::string::String::push`: appends one character.
#[verifier::external_body]
pub(crate) fn push_char(s: &mut String, c: char)
    ensures
        final(s)@ == old(s)@.push(c),
{
    s.push(c);
}

/// Appends a string slice to a string.
pub fn push_str(s: &mut String, t: &str)
    ensures
        final(s)@ == old(s)@ + t@,
{
    s.append(t);
}

/// The characters of a string, in order.
pub fn chars_of(s: &str) -> (v: Vec<char>)
    ensures
        v@ == s@,
{
    let mut v: Vec<char> = Vec::new();
    for c in it: s.chars()
        invariant
            v@ == it.seq().take(it.index() as int),
            it.seq() == s@,
    {
        v.push(c);
    }
    v
}

/// A string made of the characters `cs[from..to]`.
pub fn string_of(cs: &Vec<char>, from: usize, to: usize) -> (res: String)
    requires
        from <= to <= cs@.len(),
    ensures
        res@ == cs@.subrange(from as int, to as int),
{
    let mut out = String::new();
    let mut i = from;
    while i < to
        invariant
            from <= i <= to <= cs@.len(),
            out@ == cs@.subrange(from as int, i as int),
        decreases to - i,
    {
        push_char(&mut out, cs[i]);
        i = i + 1;
        assert(out@ =~= cs@.subrange(from as int, i as int));
    }
    out
}

// ----------------------------------------------------------------------------
// Whitespace and trimming
// ----------------------------------------------------------------------------

/// Unicode `White_Space`, as `char::is_whitespace` defines it.
pub open spec fn is_ws(c: char) -> bool {
    c == '\t' || c == '\n' || c == '\x0B' || c == '\x0C' || c == '\r' || c == ' '
        || c == '\u{85}' || c == '\u{A0}' || c == '\u{1680}'
        || ('\u{2000}' <= c && c <= '\u{200A}')
        || c == '\u{2028}' || c == '\u{2029}' || c == '\u{202F}' || c == '\u{205F}' || c == '\u{3000}'
}

/// Whether a character is whitespace.
pub fn is_whitespace(c: char) -> (b: bool)
    ensures
        b == is_ws(c),
{
    c == '\t' || c == '\n' || c == '\x0B' || c == '\x0C' || c == '\r' || c == ' '
        || c == '\u{85}' || c == '\u{A0}' || c == '\u{1680}'
        || ('\u{2000}' <= c && c <= '\u{200A}')
        || c == '\u{2028}' || c == '\u{2029}' || c == '\u{202F}' || c == '\u{205F}' || c == '\u{3000}'
}

/// `s` without its leading whitespace.
pub open spec fn trim_start(s: Seq<char>) -> Seq<char>
    decreases s.len(),
{
    if s.len() > 0 && is_ws(s[0]) { trim_start(s.drop_first()) } else { s }
}

/// `s` without its trailing whitespace.
pub open spec fn trim_end(s: Seq<char>) -> Seq<char>
    decreases s.len(),
{
    if s.len() > 0 && is_ws(s.last()) { trim_end(s.drop_last()) } else { s }
}

/// `s` without leading and trailing whitespace (`str::trim`).
pub open spec fn trim(s: Seq<char>) -> Seq<char> {
    trim_end(trim_start(s))
}

proof fn lemma_trim_start_skip(s: Seq<char>, i: int)
    requires
        0 <= i <= s.len(),
        forall|k: int| 0 <= k < i ==> is_ws(#[trigger] s[k]),
    ensures
        trim_start(s) == trim_start(s.skip(i)),
    decreases i,
{
    if i > 0 {
        assert(s.drop_first().skip(i - 1) =~= s.skip(i));
        assert forall|k: int| 0 <= k < i - 1 implies is_ws(#[trigger] s.drop_first()[k]) by {
            assert(s.drop_first()[k] == s[k + 1]);
        }
        lemma_trim_start_skip(s.drop_first(), i - 1);
    } else {
        assert(s.skip(0) =~= s);
    }
}

proof fn lemma_trim_end_take(s: Seq<char>, j: int)
    requires
        0 <= j <= s.len(),
        forall|k: int| j <= k < s.len() ==> is_ws(#[trigger] s[k]),
    ensures
        trim_end(s) == trim_end(s.take(j)),
    decreases s.len() - j,
{
    if j < s.len() {
        assert(s.drop_last().take(j) =~= s.take(j));
        lemma_trim_end_take(s.drop_last(), j);
    } else {
        assert(s.take(j) =~= s);
    }
}

/// The bounds `[a, b)` of the trimmed part of `cs`.
pub fn trim_bounds(cs: &Vec<char>) -> (r: (usize, usize))
    ensures
        r.0 <= r.1 <= cs@.len(),
        trim(cs@) == cs@.subrange(r.0 as int, r.1 as int),
{
    let n = cs.len();
    let mut a: usize = 0;
    while a < n && is_whitespace(cs[a])
        invariant
            a <= n == cs@.len(),
            forall|k: int| 0 <= k < a ==> is_ws(#[trigger] cs@[k]),
        decreases n - a,
    {
        a = a + 1;
    }
    proof {
        lemma_trim_start_skip(cs@, a as int);
    }
    let mut b: usize = n;
    while b > a && is_whitespace(cs[b - 1])
        invariant
            a <= b <= n == cs@.len(),
            forall|k: int| b <= k < n ==> is_ws(#[trigger] cs@[k]),
        decreases b,
    {
        b = b - 1;
    }
    proof {
        let t = cs@.skip(a as int);
        assert(trim_start(t) == t);
        lemma_trim_end_take(t, (b - a) as int);
        assert(t.take((b - a) as int) =~= cs@.subrange(a as int, b as int));
        let u = cs@.subrange(a as int, b as int);
        if u.len() > 0 {
            assert(u.last() == cs@[b - 1]);
        }
        assert(trim_end(u) == u);
    }
    (a, b)
}

/// `str::trim`: the string without leading and trailing whitespace.
pub fn trim_str(s: &str) -> (res: String)
    ensures
        res@ == trim(s@),
{
    let cs = chars_of(s);
    let (a, b) = trim_bounds(&cs);
    string_of(&cs, a, b)
}

// ----------------------------------------------------------------------------
// Prefixes, suffixes, substrings
// ----------------------------------------------------------------------------

/// Whether `p` is a prefix of `s`.
pub open spec fn has_prefix(s: Seq<char>, p: Seq<char>) -> bool {
    p.len() <= s.len() && s.take(p.len() as int) == p
}

/// Whether `p` is a suffix of `s`.
pub open spec fn has_suffix(s: Seq<char>, p: Seq<char>) -> bool {
    p.len() <= s.len() && s.skip(s.len() - p.len()) == p
}

/// Whether `p` occurs in `s` at position `i`.
pub open spec fn occurs_at(s: Seq<char>, p: Seq<char>, i: int) -> bool {
    0 <= i && i + p.len() <= s.len() && s.subrange(i, i + p.len()) == p
}

/// Whether `p` occurs anywhere in `s`.
pub open spec fn contains_seq(s: Seq<char>, p: Seq<char>) -> bool {
    exists|i: int| occurs_at(s, p, i)
}

/// Whether `cs[at..]` starts with `p`.
pub fn matches_at(cs: &Vec<char>, at: usize, p: &Vec<char>) -> (b: bool)
    ensures
        b == occurs_at(cs@, p@, at as int),
{
    if at > cs.len() || p.len() > cs.len() - at {
        return false;
    }
    let n = cs.len();
    let mut k: usize = 0;
    while k < p.len()
        invariant
            n == cs@.len(),
            at <= cs@.len(),
            p@.len() <= cs@.len() - at,
            k <= p@.len(),
            forall|m: int| 0 <= m < k ==> cs@[at + m] == p@[m],
        decreases p@.len() - k,
    {
        if cs[at + k] != p[k] {
            assert(cs@.subrange(at as int, at + p@.len())[k as int] != p@[k as int]);
            return false;
        }
        k = k + 1;
    }
    assert(cs@.subrange(at as int, at + p@.len()) =~= p@);
    true
}

/// `str::starts_with`.
pub fn starts_with(s: &str, p: &str) -> (b: bool)
    ensures
        b == has_prefix(s@, p@),
{
    let cs = chars_of(s);
    let ps = chars_of(p);
    let r = matches_at(&cs, 0, &ps);
    proof {
        if p@.len() <= s@.len() {
            assert(s@.subrange(0, p@.len() as int) =~= s@.take(p@.len() as int));
        }
    }
    r
}

/// `str::ends_with`.
pub fn ends_with(s: &str, p: &str) -> (b: bool)
    ensures
        b == has_suffix(s@, p@),
{
    let cs = chars_of(s);
    let ps = chars_of(p);
    if ps.len() > cs.len() {
        return false;
    }
    let r = matches_at(&cs, cs.len() - ps.len(), &ps);
    proof {
        assert(s@.subrange(s@.len() - p@.len(), s@.len() as int) =~= s@.skip(s@.len() - p@.len()));
    }
    r
}

/// `str::strip_prefix`.
pub fn strip_prefix(s: &str, p: &str) -> (res: Option<String>)
    ensures
        has_prefix(s@, p@) <==> res is Some,
        res matches Some(r) ==> r@ == s@.skip(p@.len() as int),
{
    let cs = chars_of(s);
    let ps = chars_of(p);
    if matches_at(&cs, 0, &ps) {
        proof {
            assert(s@.subrange(0, p@.len() as int) =~= s@.take(p@.len() as int));
        }
        let r = string_of(&cs, ps.len(), cs.len());
        assert(r@ =~= s@.skip(p@.len() as int));
        Some(r)
    } else {
        proof {
            if p@.len() <= s@.len() {
                assert(s@.subrange(0, p@.len() as int) =~= s@.take(p@.len() as int));
            }
        }
        None
    }
}

/// `str::contains` for a string pattern.
pub fn contains_str(s: &str, p: &str) -> (b: bool)
    ensures
        b == contains_seq(s@, p@),
{
    let cs = chars_of(s);
    let ps = chars_of(p);
    if ps.len() > cs.len() {
        assert forall|i: int| !occurs_at(s@, p@, i) by {}
        return false;
    }
    let last = cs.len() - ps.len();
    let mut i: usize = 0;
    loop
        invariant
            ps@.len() <= cs@.len(),
            last == cs@.len() - ps@.len(),
            i <= last,
            cs@ == s@,
            ps@ == p@,
            forall|k: int| 0 <= k < i ==> !occurs_at(s@, p@, k),
        decreases last - i,
    {
        if matches_at(&cs, i, &ps) {
            return true;
        }
        if i == last {
            assert forall|k: int| !occurs_at(s@, p@, k) by {
                if 0 <= k && k + p@.len() <= s@.len() {
                    assert(k <= i);
                }
            }
            return false;
        }
        i = i + 1;
    }
}

/// String equality.
pub fn str_eq(a: &str, b: &str) -> (r: bool)
    ensures
        r == (a@ == b@),
{
    let x = chars_of(a);
    let y = chars_of(b);
    if x.len() != y.len() {
        return false;
    }
    let r = matches_at(&x, 0, &y);
    proof {
        assert(x@.subrange(0, y@.len() as int) =~= x@);
    }
    r
}

// ----------------------------------------------------------------------------
// Lines
// ----------------------------------------------------------------------------

/// The position of the first `c` in `s`, or `s.len()` when there is none.
pub open spec fn find_char(s: Seq<char>, c: char) -> int
    decreases s.len(),
{
    if s.len() == 0 {
        0
    } else if s[0] == c {
        0
    } else {
        1 + find_char(s.drop_first(), c)
    }
}

pub proof fn lemma_find_char(s: Seq<char>, c: char)
    ensures
        0 <= find_char(s, c) <= s.len(),
        forall|k: int| 0 <= k < find_char(s, c) ==> s[k] != c,
        find_char(s, c) < s.len() ==> s[find_char(s, c)] == c,
    decreases s.len(),
{
    if s.len() > 0 && s[0] != c {
        lemma_find_char(s.drop_first(), c);
        assert forall|k: int| 0 <= k < find_char(s, c) implies s[k] != c by {
            if k > 0 {
                assert(s[k] == s.drop_first()[k - 1]);
            }
        }
    }
}

pub proof fn lemma_find_char_at(s: Seq<char>, c: char, j: int)
    requires
        0 <= j <= s.len(),
        forall|k: int| 0 <= k < j ==> s[k] != c,
        j < s.len() ==> s[j] == c,
    ensures
        find_char(s, c) == j,
    decreases s.len(),
{
    if j > 0 {
        lemma_find_char_at(s.drop_first(), c, j - 1);
    }
}

/// A line without its trailing carriage return.
pub open spec fn strip_cr(l: Seq<char>) -> Seq<char> {
    if l.len() > 0 && l.last() == '\r' { l.drop_last() } else { l }
}

/// `str::lines`: the lines of `s`, split at `\n`; a line ended by `\n` loses
/// one `\r` before it, a last line without a `\n` is kept whole, and a final
/// line ending is not followed by an empty line.
pub open spec fn lines(s: Seq<char>) -> Seq<Seq<char>>
    decreases s.len(),
{
    if s.len() == 0 {
        Seq::empty()
    } else {
        let k = find_char(s, '\n');
        proof { lemma_find_char(s, '\n'); }
        if k >= s.len() {
            seq![s]
        } else {
            seq![strip_cr(s.take(k))] + lines(s.skip(k + 1))
        }
    }
}

proof fn lemma_lines_step(s: Seq<char>, pos: int, j: int)
    requires
        0 <= pos < j <= s.len() || (0 <= pos == j < s.len()),
        forall|k: int| pos <= k < j ==> s[k] != '\n',
        j < s.len() ==> s[j] == '\n',
    ensures
        j < s.len() ==> lines(s.skip(pos)) == seq![strip_cr(s.subrange(pos, j))] + lines(s.skip(j + 1)),
        j == s.len() ==> lines(s.skip(pos)) == seq![s.subrange(pos, j)],
{
    let t = s.skip(pos);
    assert forall|k: int| 0 <= k < j - pos implies t[k] != '\n' by {
        assert(t[k] == s[pos + k]);
    }
    lemma_find_char_at(t, '\n', j - pos);
    assert(t.take(j - pos) =~= s.subrange(pos, j));
    if j < s.len() {
        assert(t.skip(j - pos + 1) =~= s.skip(j + 1));
    } else {
        assert(t =~= s.subrange(pos, j));
    }
}

/// A first line without a newline, ended by one, is the first of the lines.
pub proof fn lemma_lines_cons(u: Seq<char>, rest: Seq<char>)
    requires
        !u.contains('\n'),
    ensures
        lines(u + seq!['\n'] + rest) == seq![strip_cr(u)] + lines(rest),
{
    let s = u + seq!['\n'] + rest;
    assert forall|k: int| 0 <= k < u.len() implies s[k] != '\n' by {
        assert(s[k] == u[k]);
    }
    lemma_find_char_at(s, '\n', u.len() as int);
    assert(s.take(u.len() as int) =~= u);
    assert(s.skip(u.len() as int + 1) =~= rest);
}

/// A line without a newline, written after any text and a newline and ended
/// by a newline, is one of the lines.
pub proof fn lemma_lines_appended(s: Seq<char>, t: Seq<char>)
    requires
        !t.contains('\n'),
    ensures
        lines(s + seq!['\n'] + t + seq!['\n']).contains(strip_cr(t)),
    decreases s.len(),
{
    lemma_lines_cons(t, Seq::empty());
    assert(t + seq!['\n'] =~= t + seq!['\n'] + Seq::<char>::empty());
    assert(lines(t + seq!['\n']) =~= seq![strip_cr(t)]);
    lemma_find_char(s, '\n');
    let k = find_char(s, '\n');
    if k >= s.len() {
        assert(!s.contains('\n')) by {
            assert forall|i: int| 0 <= i < s.len() implies s[i] != '\n' by {}
        }
        lemma_lines_cons(s, t + seq!['\n']);
        assert(s + seq!['\n'] + t + seq!['\n'] =~= s + seq!['\n'] + (t + seq!['\n']));
        let ls = lines(s + seq!['\n'] + t + seq!['\n']);
        assert(ls[1] == strip_cr(t));
    } else {
        let u = s.take(k);
        let r = s.skip(k + 1);
        assert(!u.contains('\n')) by {
            assert forall|i: int| 0 <= i < u.len() implies u[i] != '\n' by {}
        }
        lemma_lines_cons(u, r + seq!['\n'] + t + seq!['\n']);
        assert(s + seq!['\n'] + t + seq!['\n'] =~= u + seq!['\n'] + (r + seq!['\n'] + t + seq!['\n']));
        lemma_lines_appended(r, t);
        let inner = lines(r + seq!['\n'] + t + seq!['\n']);
        let j = choose|j: int| 0 <= j < inner.len() && inner[j] == strip_cr(t);
        let ls = lines(s + seq!['\n'] + t + seq!['\n']);
        assert(ls[j + 1] == strip_cr(t));
    }
}

/// The lines of a string (`str::lines`).
pub fn split_lines(s: &str) -> (res: Vec<String>)
    ensures
        res@.len() == lines(s@).len(),
        forall|i: int| 0 <= i < res@.len() ==> #[trigger] res@[i]@ == lines(s@)[i],
{
    let cs = chars_of(s);
    let n = cs.len();
    let mut out: Vec<String> = Vec::new();
    let mut pos: usize = 0;
    assert(s@.skip(0) =~= s@);
    while pos < n
        invariant
            pos <= n == cs@.len(),
            cs@ == s@,
            forall|i: int| 0 <= i < out@.len() ==> #[trigger] out@[i]@ == lines(s@)[i],
            out@.len() + lines(s@.skip(pos as int)).len() == lines(s@).len(),
            forall|i: int| 0 <= i < lines(s@.skip(pos as int)).len()
                ==> #[trigger] lines(s@.skip(pos as int))[i] == lines(s@)[out@.len() + i],
        decreases n - pos,
    {
        let mut j = pos;
        while j < n && cs[j] != '\n'
            invariant
                pos <= j <= n == cs@.len(),
                forall|k: int| pos <= k < j ==> cs@[k] != '\n',
            decreases n - j,
        {
            j = j + 1;
        }
        let mut end = j;
        if j < n && end > pos && cs[end - 1] == '\r' {
            end = end - 1;
        }
        let line = string_of(&cs, pos, end);
        proof {
            lemma_lines_step(s@, pos as int, j as int);
            if j < n {
                assert(line@ == strip_cr(s@.subrange(pos as int, j as int)));
            } else {
                assert(line@ == s@.subrange(pos as int, j as int));
            }
            let rest_old = lines(s@.skip(pos as int));
            assert(rest_old[0] == line@);
            if j < n {
                let rest_new = lines(s@.skip(j + 1));
                assert(rest_old == seq![line@] + rest_new);
                assert forall|i: int| 0 <= i < rest_new.len()
                    implies #[trigger] rest_new[i] == lines(s@)[out@.len() + 1 + i] by {
                    assert(rest_new[i] == rest_old[i + 1]);
                }
            }
        }
        out.push(line);
        if j < n {
            pos = j + 1;
        } else {
            pos = n;
            proof {
                assert(s@.skip(n as int).len() == 0);
            }
        }
    }
    proof {
        assert(s@.skip(n as int) =~= Seq::<char>::empty());
    }
    out
}


// ----------------------------------------------------------------------------
// ASCII case folding and paths
// ----------------------------------------------------------------------------

/// ASCII lowercase of a character.
pub open spec fn ascii_lower(c: char) -> char {
    if 'A' <= c && c <= 'Z' { ((c as u32) + 32) as char } else { c }
}

/// `str::eq_ignore_ascii_case`.
pub open spec fn eq_ascii_ci(a: Seq<char>, b: Seq<char>) -> bool {
    a.len() == b.len() && forall|i: int| 0 <= i < a.len() ==> ascii_lower(a[i]) == ascii_lower(b[i])
}

fn to_ascii_lower(c: char) -> (r: char)
    ensures
        r == ascii_lower(c),
{
    if 'A' <= c && c <= 'Z' {
        let n = (c as u32) + 32;
        assert(n < 0xD800);
        char_from_u32(n)
    } else {
        c
    }
}

/// `char::from_u32` on a valid scalar value.
#[verifier::external_body]
fn char_from_u32(n: u32) -> (c: char)
    requires
        n < 0xD800,
    ensures
        c == n as char,
{
    char::from_u32(n).unwrap()
}

/// Whether two strings are equal up to ASCII case.
pub fn eq_ignore_ascii_case(a: &str, b: &str) -> (r: bool)
    ensures
        r == eq_ascii_ci(a@, b@),
{
    let x = chars_of(a);
    let y = chars_of(b);
    if x.len() != y.len() {
        return false;
    }
    let mut i: usize = 0;
    while i < x.len()
        invariant
            x@ == a@,
            y@ == b@,
            x@.len() == y@.len(),
            i <= x@.len(),
            forall|k: int| 0 <= k < i ==> ascii_lower(x@[k]) == ascii_lower(y@[k]),
        decreases x@.len() - i,
    {
        if to_ascii_lower(x[i]) != to_ascii_lower(y[i]) {
            return false;
        }
        i = i + 1;
    }
    true
}

/// `base` joined with the path `rel`, as `Path::join` does with `/`
/// separators: an absolute `rel` replaces `base`; otherwise no separator is
/// added after an empty base or one that ends with `/`.
pub open spec fn path_join(base: Seq<char>, rel: Seq<char>) -> Seq<char> {
    if rel.len() > 0 && rel[0] == '/' {
        rel
    } else if base.len() == 0 || base.last() == '/' {
        base + rel
    } else {
        base + seq!['/'] + rel
    }
}

/// Join a path onto a base path.
pub fn join_path(base: &str, rel: &str) -> (res: String)
    ensures
        res@ == path_join(base@, rel@),
{
    let rs = chars_of(rel);
    if rs.len() > 0 && rs[0] == '/' {
        return rel.to_owned();
    }
    let cs = chars_of(base);
    let mut out = base.to_owned();
    if !(cs.len() == 0 || cs[cs.len() - 1] == '/') {
        push_char(&mut out, '/');
    }
    push_str(&mut out, rel);
    out
}


/// `str::trim_end`: the string without trailing whitespace.
pub fn trim_end_str(s: &str) -> (res: String)
    ensures
        res@ == trim_end(s@),
{
    let cs = chars_of(s);
    let mut b: usize = cs.len();
    while b > 0 && is_whitespace(cs[b - 1])
        invariant
            b <= cs@.len(),
            cs@ == s@,
            forall|k: int| b <= k < cs@.len() ==> is_ws(#[trigger] cs@[k]),
        decreases b,
    {
        b = b - 1;
    }
    proof {
        lemma_trim_end_take(s@, b as int);
        let u = s@.take(b as int);
        if u.len() > 0 {
            assert(u.last() == s@[b - 1]);
        }
        assert(trim_end(u) == u);
    }
    let r = string_of(&cs, 0, b);
    assert(r@ =~= s@.take(b as int));
    r
}

/// Joins strings with a separator.
pub open spec fn join_seqs(xs: Seq<Seq<char>>, sep: Seq<char>) -> Seq<char>
    decreases xs.len(),
{
    if xs.len() == 0 {
        Seq::empty()
    } else if xs.len() == 1 {
        xs[0]
    } else {
        join_seqs(xs.drop_last(), sep) + sep + xs.last()
    }
}

/// The views of a vector of strings.
pub open spec fn strings_view(v: Seq<String>) -> Seq<Seq<char>> {
    v.map_values(|s: String| s@)
}

/// `[String]::join`.
pub fn join_strings(v: &Vec<String>, sep: &str) -> (res: String)
    ensures
        res@ == join_seqs(strings_view(v@), sep@),
{
    let mut out = String::new();
    let mut i: usize = 0;
    while i < v.len()
        invariant
            i <= v@.len(),
            out@ == join_seqs(strings_view(v@.take(i as int)), sep@),
        decreases v@.len() - i,
    {
        if i > 0 {
            push_str(&mut out, sep);
        }
        push_str(&mut out, v[i].as_str());
        proof {
            assert(strings_view(v@.take(i + 1)).drop_last() =~= strings_view(v@.take(i as int)));
            if i == 0 {
                assert(strings_view(v@.take(1)) =~= seq![v@[0]@]);
            }
        }
        i = i + 1;
    }
    proof {
        assert(v@.take(v@.len() as int) == v@);
    }
    out
}

// ----------------------------------------------------------------------------
// Numbers
// ----------------------------------------------------------------------------

/// The decimal digit character for `d < 10`.
pub open spec fn digit_char(d: nat) -> char {
    if d == 0 { '0' } else if d == 1 { '1' } else if d == 2 { '2' } else if d == 3 { '3' }
    else if d == 4 { '4' } else if d == 5 { '5' } else if d == 6 { '6' } else if d == 7 { '7' }
    else if d == 8 { '8' } else { '9' }
}

/// The decimal representation of `n`, without leading zeros.
pub open spec fn decimal(n: nat) -> Seq<char>
    decreases n,
{
    if n < 10 { seq![digit_char(n)] } else { decimal(n / 10).push(digit_char(n % 10)) }
}

fn digit_of(d: u128) -> (c: char)
    requires
        d < 10,
    ensures
        c == digit_char(d as nat),
{
    if d == 0 { '0' } else if d == 1 { '1' } else if d == 2 { '2' } else if d == 3 { '3' }
    else if d == 4 { '4' } else if d == 5 { '5' } else if d == 6 { '6' } else if d == 7 { '7' }
    else if d == 8 { '8' } else { '9' }
}

/// The decimal representation of a number (as `to_string` gives it).
pub fn decimal_string(n: u128) -> (res: String)
    ensures
        res@ == decimal(n as nat),
    decreases n,
{
    if n < 10 {
        let mut s = String::new();
        push_char(&mut s, digit_of(n));
        s
    } else {
        let mut s = decimal_string(n / 10);
        push_char(&mut s, digit_of(n % 10));
        s
    }
}

/// `str::split` at a character: the pieces between occurrences of `c`
/// (always at least one; an empty string gives one empty piece).
pub open spec fn split_at_char(s: Seq<char>, c: char) -> Seq<Seq<char>>
    decreases s.len(),
{
    let k = find_char(s, c);
    if k >= s.len() {
        seq![s]
    } else {
        proof { lemma_find_char(s, c); }
        seq![s.take(k)] + split_at_char(s.skip(k + 1), c)
    }
}

/// Split a string at every occurrence of a character.
pub fn split_char(s: &str, c: char) -> (res: Vec<String>)
    ensures
        strings_view(res@) == split_at_char(s@, c),
{
    let cs = chars_of(s);
    let n = cs.len();
    let mut out: Vec<String> = Vec::new();
    let mut start: usize = 0;
    let mut k: usize = 0;
    assert(s@.skip(0) =~= s@);
    while k < n
        invariant
            start <= k <= n == cs@.len(),
            cs@ == s@,
            forall|m: int| start <= m < k ==> cs@[m] != c,
            strings_view(out@) + split_at_char(s@.skip(start as int), c) == split_at_char(s@, c),
        decreases n - k,
    {
        if cs[k] == c {
            let piece = string_of(&cs, start, k);
            proof {
                let t = s@.skip(start as int);
                lemma_find_char_at(t, c, k - start);
                assert(t.take(k - start) =~= s@.subrange(start as int, k as int));
                assert(t.skip(k - start + 1) =~= s@.skip(k + 1));
                assert(strings_view(out@.push(piece)) =~= strings_view(out@).push(piece@));
            }
            out.push(piece);
            start = k + 1;
        }
        k = k + 1;
    }
    let last = string_of(&cs, start, n);
    proof {
        let t = s@.skip(start as int);
        lemma_find_char_at(t, c, n - start);
        assert(t =~= s@.subrange(start as int, n as int));
        assert(strings_view(out@.push(last)) =~= strings_view(out@).push(last@));
    }
    out.push(last);
    out
}

/// The decimal representation of a signed number.
pub open spec fn signed_decimal(n: int) -> Seq<char> {
    if n < 0 { seq!['-'] + decimal((-n) as nat) } else { decimal(n as nat) }
}

/// The decimal representation of an `i32` (as `to_string` gives it).
pub fn i32_string(n: i32) -> (res: String)
    ensures
        res@ == signed_decimal(n as int),
{
    if n < 0 {
        let m: u128 = (0i64 - (n as i64)) as u128;
        let mut s = String::new();
        push_char(&mut s, '-');
        let d = decimal_string(m);
        push_str(&mut s, d.as_str());
        s
    } else {
        decimal_string(n as u128)
    }
}

/// `str::split_once` at a character: the text before the first `c` and the
/// text after it, or none when `c` does not occur.
pub open spec fn split_once_at(s: Seq<char>, c: char) -> Option<(Seq<char>, Seq<char>)> {
    let k = find_char(s, c);
    if k < s.len() { Some((s.take(k), s.skip(k + 1))) } else { None }
}

/// Split a string at the first occurrence of a character.
pub fn split_once_char(s: &str, c: char) -> (res: Option<(String, String)>)
    ensures
        match res {
            Some((a, b)) => split_once_at(s@, c) == Some((a@, b@)),
            None => split_once_at(s@, c) is None,
        },
{
    let cs = chars_of(s);
    let n = cs.len();
    let mut k: usize = 0;
    while k < n && cs[k] != c
        invariant
            k <= n == cs@.len(),
            cs@ == s@,
            forall|m: int| 0 <= m < k ==> cs@[m] != c,
        decreases n - k,
    {
        k = k + 1;
    }
    proof { lemma_find_char_at(s@, c, k as int); }
    if k < n {
        let a = string_of(&cs, 0, k);
        let b = string_of(&cs, k + 1, n);
        assert(a@ =~= s@.take(k as int));
        assert(b@ =~= s@.skip(k + 1));
        Some((a, b))
    } else {
        None
    }
}

} // verus!

//! Display of filesystem paths relative to the home directory.

use vstd::prelude::*;
use crate::text::{chars_of, str_eq, string_of};

verus! {

/// The number of leading `/` characters of `s` from position `i` on.
pub open spec fn skip_slashes(s: Seq<char>, i: int) -> int
    decreases s.len() - i,
{
    if 0 <= i < s.len() && s[i] == '/' { skip_slashes(s, i + 1) } else { i }
}

/// Whether `path` lies under `home` (as a whole path component prefix):
/// `path` starts with `home`, and either they are equal, `home` ends with a
/// separator, or the next character of `path` is one.
pub open spec fn under_home(path: Seq<char>, home: Seq<char>) -> bool {
    &&& home.len() > 0
    &&& path.len() >= home.len()
    &&& path.take(home.len() as int) == home
    &&& (path.len() == home.len() || home.last() == '/' || path[home.len() as int] == '/')
}

/// A path for display: `~` for the home directory itself, `~/rest` for a
/// path under it (separators after the home prefix collapsed), and the path
/// unchanged otherwise.
pub open spec fn display_path(path: Seq<char>, home: Option<Seq<char>>) -> Seq<char> {
    match home {
        Some(h) => if under_home(path, h) {
            let start = skip_slashes(path, h.len() as int);
            if start >= path.len() { seq!['~'] } else { seq!['~', '/'] + path.skip(start) }
        } else {
            path
        },
        None => path,
    }
}

/// Format a filesystem path for user-facing output: under the home directory
/// it is shown with a leading `~` (e.g. `/Users/alex/projects/wt` becomes
/// `~/projects/wt`); other paths are returned unchanged.
pub fn format_path_for_display(path: &str, home: Option<&str>) -> (res: String)
    ensures
        res@ == display_path(path@, match home { Some(h) => Some(h@), None => None }),
{
    let h = match home {
        Some(h) => h,
        None => return path.to_owned(),
    };
    let ps = chars_of(path);
    let hs = chars_of(h);
    if hs.len() == 0 || ps.len() < hs.len() {
        return path.to_owned();
    }
    let mut i: usize = 0;
    while i < hs.len()
        invariant
            home == Some(h),
            hs@ == h@,
            ps@ == path@,
            hs@.len() <= ps@.len(),
            i <= hs@.len(),
            forall|k: int| 0 <= k < i ==> ps@[k] == hs@[k],
        decreases hs@.len() - i,
    {
        if ps[i] != hs[i] {
            assert(path@.take(h@.len() as int)[i as int] != h@[i as int]);
            return path.to_owned();
        }
        i = i + 1;
    }
    assert(path@.take(h@.len() as int) =~= h@);
    let n = hs.len();
    if !(ps.len() == n || hs[n - 1] == '/' || ps[n] == '/') {
        return path.to_owned();
    }
    let mut start = n;
    while start < ps.len() && ps[start] == '/'
        invariant
            n <= start <= ps@.len(),
            ps@ == path@,
            skip_slashes(path@, start as int) == skip_slashes(path@, n as int),
        decreases ps@.len() - start,
    {
        start = start + 1;
    }
    if start >= ps.len() {
        let mut t = String::new();
        crate::text::push_char(&mut t, '~');
        return t;
    }
    let rest = string_of(&ps, start, ps.len());
    let mut out = string_of_tilde_slash();
    crate::text::push_str(&mut out, rest.as_str());
    assert(rest@ =~= path@.skip(start as int));
    out
}

fn string_of_tilde_slash() -> (res: String)
    ensures
        res@ == seq!['~', '/'],
{
    let mut out = String::new();
    crate::text::push_char(&mut out, '~');
    crate::text::push_char(&mut out, '/');
    out
}

/// The characters after the last `/` of a path (all of it without one).
pub open spec fn last_segment(p: Seq<char>) -> Seq<char>
    decreases p.len(),
{
    if p.len() == 0 || p.last() == '/' { Seq::empty() } else { last_segment(p.drop_last()).push(p.last()) }
}

/// `Path::file_name` on a `/`-separated path: the last component, ignoring
/// trailing separators and `.` components; none for an empty path, the root,
/// `.` or a path that ends in `..`.
pub open spec fn file_name(p: Seq<char>) -> Option<Seq<char>>
    decreases p.len(),
{
    if p.len() == 0 {
        None
    } else if p.last() == '/' {
        file_name(p.drop_last())
    } else if p.last() == '.' && (p.len() == 1 || p[p.len() - 2] == '/') {
        if p.len() == 1 { None } else { file_name(p.drop_last()) }
    } else if last_segment(p) == ".."@ {
        None
    } else {
        Some(last_segment(p))
    }
}

proof fn lemma_last_segment(p: Seq<char>, k: int)
    requires
        0 <= k <= p.len(),
        forall|m: int| k <= m < p.len() ==> p[m] != '/',
        k > 0 ==> p[k - 1] == '/',
    ensures
        last_segment(p) == p.skip(k),
    decreases p.len() - k,
{
    if k < p.len() {
        lemma_last_segment(p.drop_last(), k);
        assert(p.skip(k) =~= p.drop_last().skip(k).push(p.last()));
    } else {
        assert(p.skip(k) =~= Seq::<char>::empty());
    }
}

/// `Path::file_name` of a `/`-separated path.
pub fn path_file_name(r: &str) -> (res: Option<String>)
    ensures
        (match res { Some(n) => Some(n@), None => None }) == file_name(r@),
{
    let cs = chars_of(r);
    let mut end: usize = cs.len();
    assert(cs@.take(end as int) =~= cs@);
    // Drop trailing separators and `.` components.
    while end > 0 && (cs[end - 1] == '/' || (cs[end - 1] == '.' && end > 1 && cs[end - 2] == '/'))
        invariant
            end <= cs@.len(),
            cs@ == r@,
            file_name(cs@.take(end as int)) == file_name(r@),
        decreases end,
    {
        assert(cs@.take(end as int).drop_last() =~= cs@.take(end - 1));
        end = end - 1;
    }
    let ghost t = cs@.take(end as int);
    if end == 0 || (end == 1 && cs[0] == '.') {
        return None;
    }
    let mut start: usize = end;
    while start > 0 && cs[start - 1] != '/'
        invariant
            start <= end <= cs@.len(),
            cs@ == r@,
            t == cs@.take(end as int),
            forall|m: int| start <= m < end ==> cs@[m] != '/',
        decreases start,
    {
        start = start - 1;
    }
    proof {
        lemma_last_segment(t, start as int);
        assert(t.skip(start as int) =~= cs@.subrange(start as int, end as int));
    }
    let seg = string_of(&cs, start, end);
    if str_eq(seg.as_str(), "..") {
        None
    } else {
        Some(seg)
    }
}

/// The directory name of a worktree: the file name of its path, empty when
/// it has none.
pub open spec fn basename(p: Seq<char>) -> Seq<char> {
    match file_name(p) {
        Some(n) => n,
        None => Seq::empty(),
    }
}

/// The directory name of a worktree path.
pub fn worktree_basename(p: &str) -> (res: String)
    ensures
        res@ == basename(p@),
{
    match path_file_name(p) {
        Some(n) => n,
        None => String::new(),
    }
}

} // verus!

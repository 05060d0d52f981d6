//! Preparing a target worktree for a push: which of its changes overlap the
//! pushed files, the name of the autostash entry and how to find it again,
//! and the warning about untracked files that are auto-staged.

use vstd::prelude::*;
use crate::error::GitError;
use crate::styling::{
    bo, format_with_gutter, gutter_lines, parts, pl, progress_message, progress_msg, warning_message, warning_msg,
    PartKind,
};
use crate::text::{
    contains_seq, contains_str, decimal, decimal_string, ends_with, find_char, has_prefix, has_suffix, join_seqs,
    join_strings, lemma_find_char, lines, push_str, split_at_char, split_char, split_lines, str_eq, strings_view,
    strip_prefix, trim, trim_str, chars_of, string_of, lemma_find_char_at, matches_at,
};

verus! {

// ----------------------------------------------------------------------------
// Untracked files that get auto-staged
// ----------------------------------------------------------------------------

/// The untracked files of `git status --porcelain` output: the lines that
/// start with `?? `, without that prefix.
pub open spec fn untracked_files(status: Seq<char>) -> Seq<Seq<char>> {
    lines(status).filter(|l: Seq<char>| has_prefix(l, "?? "@)).map_values(|l: Seq<char>| l.skip(3))
}

/// Untracked files about to be auto-staged.
pub struct AutoStageWarning {
    pub files: Vec<String>,
}

/// The warning about auto-staged files and the file list shown below it;
/// none when there are no such files.
pub open spec fn auto_stage_text(files: Seq<Seq<char>>, color: bool) -> Option<(Seq<char>, Seq<char>)> {
    if files.len() == 0 {
        None
    } else {
        let word = if files.len() == 1 { "file"@ } else { "files"@ };
        Some((
            warning_msg(color, seq![pl("Auto-staging "@ + decimal(files.len()) + " untracked "@ + word + ":"@)]),
            gutter_lines(""@, color, lines(join_seqs(files, seq!['\n']))),
        ))
    }
}

impl AutoStageWarning {
    /// Collect the untracked files from `git status --porcelain` output.
    pub fn from_status(status_output: &str) -> (res: Self)
        ensures
            strings_view(res.files@) == untracked_files(status_output@),
    {
        let ls = split_lines(status_output);
        let ghost all = lines(status_output@);
        let ghost keep = |l: Seq<char>| has_prefix(l, "?? "@);
        let ghost name = |l: Seq<char>| l.skip(3);
        proof { reveal_strlit("?? "); }
        let mut files: Vec<String> = Vec::new();
        let mut k: usize = 0;
        while k < ls.len()
            invariant
                k <= ls@.len(),
                ls@.len() == all.len(),
                all == lines(status_output@),
                forall|m: int| 0 <= m < ls@.len() ==> #[trigger] ls@[m]@ == all[m],
                keep == (|l: Seq<char>| has_prefix(l, "?? "@)),
                name == (|l: Seq<char>| l.skip(3)),
                "?? "@.len() == 3,
                strings_view(files@) == all.take(k as int).filter(keep).map_values(name),
            decreases ls@.len() - k,
        {
            proof {
                assert(all.take(k + 1).drop_last() =~= all.take(k as int));
                reveal(Seq::filter);
            }
            let ghost fb = all.take(k as int).filter(keep);
            let ghost before = strings_view(files@);
            match strip_prefix(ls[k].as_str(), "?? ") {
                Some(f) => {
                    files.push(f);
                    assert(all.take(k + 1).filter(keep) =~= fb.push(all[k as int]));
                    assert(strings_view(files@) =~= before.push(name(all[k as int])));
                    assert(fb.push(all[k as int]).map_values(name) =~= fb.map_values(name).push(name(all[k as int])));
                },
                None => {
                    assert(all.take(k + 1).filter(keep) =~= fb);
                },
            }
            k = k + 1;
        }
        assert(all.take(ls@.len() as int) =~= all);
        AutoStageWarning { files }
    }

    /// The warning and the file list to show, if any file is auto-staged.
    pub fn message(&self, color: bool) -> (res: Option<(String, String)>)
        ensures
            (match res { Some((w, g)) => Some((w@, g@)), None => None }) == auto_stage_text(strings_view(self.files@), color),
    {
        let n = self.files.len();
        if n == 0 {
            return None;
        }
        let word = if n == 1 { "file" } else { "files" };
        let mut text = "Auto-staging ".to_owned();
        let count = decimal_string(n as u128);
        push_str(&mut text, count.as_str());
        push_str(&mut text, " untracked ");
        push_str(&mut text, word);
        push_str(&mut text, ":");
        let w = warning_message(&parts(&[(text.as_str(), PartKind::Plain)]), color);
        let joined = join_strings(&self.files, "\n");
        proof { reveal_strlit("\n"); }
        assert("\n"@ =~= seq!['\n']);
        let g = format_with_gutter(joined.as_str(), "", color);
        Some((w, g))
    }
}

// ----------------------------------------------------------------------------
// Overlap between pushed files and target worktree changes
// ----------------------------------------------------------------------------

/// The text after the first ` -> ` of a path, if it holds one.
pub open spec fn after_arrow(p: Seq<char>) -> Option<Seq<char>>
    decreases p.len(),
{
    if p.len() < 4 {
        None
    } else if p.take(4) == seq![' ', '-', '>', ' '] {
        Some(p.skip(4))
    } else {
        after_arrow(p.drop_first())
    }
}

/// The file named on a `git status --porcelain` line: the path after the two
/// status columns and the space (`XY path`); for a rename (`XY old -> new`)
/// the new path. None for a line too short to name a path.
pub open spec fn status_file(line: Seq<char>) -> Option<Seq<char>> {
    if line.len() > 3 {
        match after_arrow(line.skip(3)) {
            Some(new) => Some(new),
            None => Some(line.skip(3)),
        }
    } else {
        None
    }
}

/// The files with changes in `git status --porcelain` output, in order.
pub open spec fn status_files(status: Seq<char>) -> Seq<Seq<char>> {
    lines(status).filter(|l: Seq<char>| status_file(l) is Some).map_values(|l: Seq<char>| status_file(l)->0)
}

fn file_of_status_line(line: &str) -> (res: Option<String>)
    ensures
        (match res { Some(f) => Some(f@), None => None }) == status_file(line@),
{
    let cs = chars_of(line);
    if cs.len() <= 3 {
        return None;
    }
    let arrow: Vec<char> = vec![' ', '-', '>', ' '];
    let ghost path = line@.skip(3);
    let mut i: usize = 3;
    assert(path.skip(0) =~= path);
    while i < cs.len() && cs.len() - i >= 4
        invariant
            3 <= i <= cs@.len(),
            cs@ == line@,
            path == line@.skip(3),
            arrow@ == seq![' ', '-', '>', ' '],
            after_arrow(path) == after_arrow(path.skip(i - 3)),
        decreases cs@.len() - i,
    {
        let ghost t = path.skip(i - 3);
        assert(t.len() >= 4);
        assert(t.take(4) =~= cs@.subrange(i as int, i + 4));
        if matches_at(&cs, i, &arrow) {
            let rest = string_of(&cs, i + 4, cs.len());
            assert(rest@ =~= t.skip(4));
            return Some(rest);
        }
        assert(t.drop_first() =~= path.skip(i - 2));
        i = i + 1;
    }
    assert(path.skip(i - 3).len() < 4);
    let rest = string_of(&cs, 3, cs.len());
    assert(rest@ =~= path);
    Some(rest)
}

/// The files with changes in a worktree, from `git status --porcelain`.
pub fn changed_files_of_status(status: &str) -> (res: Vec<String>)
    ensures
        strings_view(res@) == status_files(status@),
{
    let ls = split_lines(status);
    let ghost all = lines(status@);
    let ghost keep = |l: Seq<char>| status_file(l) is Some;
    let ghost name = |l: Seq<char>| status_file(l)->0;
    let mut files: Vec<String> = Vec::new();
    let mut k: usize = 0;
    while k < ls.len()
        invariant
            k <= ls@.len(),
            ls@.len() == all.len(),
            all == lines(status@),
            forall|m: int| 0 <= m < ls@.len() ==> #[trigger] ls@[m]@ == all[m],
            keep == (|l: Seq<char>| status_file(l) is Some),
            name == (|l: Seq<char>| status_file(l)->0),
            strings_view(files@) == all.take(k as int).filter(keep).map_values(name),
        decreases ls@.len() - k,
    {
        proof {
            assert(all.take(k + 1).drop_last() =~= all.take(k as int));
            reveal(Seq::filter);
        }
        let ghost fb = all.take(k as int).filter(keep);
        let ghost before = strings_view(files@);
        match file_of_status_line(ls[k].as_str()) {
            Some(f) => {
                files.push(f);
                assert(all.take(k + 1).filter(keep) =~= fb.push(all[k as int]));
                assert(strings_view(files@) =~= before.push(name(all[k as int])));
                assert(fb.push(all[k as int]).map_values(name) =~= fb.map_values(name).push(name(all[k as int])));
            },
            None => {
                assert(all.take(k + 1).filter(keep) =~= fb);
            },
        }
        k = k + 1;
    }
    assert(all.take(ls@.len() as int) =~= all);
    files
}

/// The pushed files that also have changes in the target worktree, in the
/// order of `pushed`.
pub open spec fn overlapping(pushed: Seq<Seq<char>>, changed: Seq<Seq<char>>) -> Seq<Seq<char>> {
    pushed.filter(|f: Seq<char>| changed.contains(f))
}

fn contains_string(v: &Vec<String>, s: &String) -> (b: bool)
    ensures
        b == strings_view(v@).contains(s@),
{
    let mut k: usize = 0;
    while k < v.len()
        invariant
            k <= v@.len(),
            forall|m: int| 0 <= m < k ==> strings_view(v@)[m] != s@,
        decreases v@.len() - k,
    {
        if str_eq(v[k].as_str(), s.as_str()) {
            assert(strings_view(v@)[k as int] == s@);
            return true;
        }
        k = k + 1;
    }
    false
}

/// Check that a push does not touch files with changes in the target
/// worktree: `pushed` are the files the push changes, `status` the target
/// worktree's `git status --porcelain` output. Overlapping files make the
/// push fail with `ConflictingChanges`.
pub fn check_target_overlap(pushed: &Vec<String>, status: &str, worktree_path: &str) -> (res: Result<(), GitError>)
    ensures
        overlapping(strings_view(pushed@), status_files(status@)).len() == 0 <==> res is Ok,
        res matches Err(e) ==> (e matches GitError::ConflictingChanges { files, worktree_path: p }
            && strings_view(files@) == overlapping(strings_view(pushed@), status_files(status@))
            && p@ == worktree_path@),
{
    let changed = changed_files_of_status(status);
    let ghost pv = strings_view(pushed@);
    let ghost cv = strings_view(changed@);
    let ghost keep = |f: Seq<char>| cv.contains(f);
    let mut files: Vec<String> = Vec::new();
    let mut k: usize = 0;
    while k < pushed.len()
        invariant
            k <= pushed@.len(),
            pv == strings_view(pushed@),
            cv == strings_view(changed@),
            keep == (|f: Seq<char>| cv.contains(f)),
            strings_view(files@) == pv.take(k as int).filter(keep),
        decreases pushed@.len() - k,
    {
        proof {
            assert(pv.take(k + 1).drop_last() =~= pv.take(k as int));
            reveal(Seq::filter);
        }
        let ghost before = strings_view(files@);
        if contains_string(&changed, &pushed[k]) {
            files.push(pushed[k].clone());
            assert(strings_view(files@) =~= before.push(pv[k as int]));
        }
        k = k + 1;
    }
    assert(pv.take(pushed@.len() as int) =~= pv);
    if files.len() > 0 {
        Err(GitError::ConflictingChanges { files, worktree_path: worktree_path.to_owned() })
    } else {
        Ok(())
    }
}

// ----------------------------------------------------------------------------
// The autostash entry
// ----------------------------------------------------------------------------

/// The message of the autostash entry for a push to `branch`, made unique by
/// the process id and a timestamp in nanoseconds.
pub open spec fn stash_message(branch: Seq<char>, pid: nat, nanos: nat) -> Seq<char> {
    "worktrunk autostash::"@ + branch + "::"@ + decimal(pid) + "::"@ + decimal(nanos)
}

/// The message of the autostash entry.
pub fn autostash_name(branch: &str, pid: u32, nanos: u128) -> (res: String)
    ensures
        res@ == stash_message(branch@, pid as nat, nanos as nat),
{
    let mut s = "worktrunk autostash::".to_owned();
    push_str(&mut s, branch);
    push_str(&mut s, "::");
    let p = decimal_string(pid as u128);
    push_str(&mut s, p.as_str());
    push_str(&mut s, "::");
    let t = decimal_string(nanos);
    push_str(&mut s, t.as_str());
    s
}

/// Whether `git stash push` saved anything (its output does not say there
/// were no local changes).
pub fn stash_saved(stash_output: &str) -> (b: bool)
    ensures
        b == !contains_seq(stash_output@, "No local changes to save"@),
{
    !contains_str(stash_output, "No local changes to save")
}

/// The stash entry whose message is `name` (or ends with it) in the output of
/// `git stash list --format=%gd%x00%gs%x00`, scanning the NUL-separated
/// pieces from `i`: empty pieces are skipped, otherwise a piece is an entry
/// name followed by its message.
pub open spec fn scan_stash(pieces: Seq<Seq<char>>, i: int, name: Seq<char>) -> Option<Seq<char>>
    decreases pieces.len() + 1 - i,
{
    if i < 0 || i >= pieces.len() {
        None
    } else if pieces[i].len() == 0 {
        scan_stash(pieces, i + 1, name)
    } else if i + 1 < pieces.len() && (pieces[i + 1] == name || has_suffix(pieces[i + 1], name)) {
        Some(pieces[i])
    } else {
        scan_stash(pieces, i + 2, name)
    }
}

/// Find the autostash entry named `name` in the stash list.
pub fn find_stash_ref(list_output: &str, name: &str) -> (res: Option<String>)
    ensures
        (match res { Some(r) => Some(r@), None => None }) == scan_stash(split_at_char(list_output@, '\0'), 0, name@),
{
    let pieces = split_char(list_output, '\0');
    let ghost pv = strings_view(pieces@);
    let mut i: usize = 0;
    while i < pieces.len()
        invariant
            pv == strings_view(pieces@),
            pv == split_at_char(list_output@, '\0'),
            scan_stash(pv, i as int, name@) == scan_stash(pv, 0, name@),
        decreases pieces@.len() - i,
    {
        assert(pv[i as int] == pieces@[i as int]@);
        if pieces[i].as_str().is_empty() {
            i = i + 1;
        } else if i + 1 < pieces.len() {
            assert(pv[i + 1] == pieces@[i + 1]@);
            let m = pieces[i + 1].as_str();
            if str_eq(m, name) || ends_with(m, name) {
                return Some(pieces[i].clone());
            }
            i = i + 2;
        } else {
            assert(scan_stash(pv, i + 2, name@) is None);
            assert(scan_stash(pv, pieces@.len() as int, name@) is None);
            i = pieces.len();
        }
    }
    None
}

/// The error when the autostash entry cannot be found.
pub fn stash_not_found_message(name: &str) -> (res: String)
    ensures
        res@ == "Failed to locate autostash entry '"@ + name@ + "'"@,
{
    let mut s = "Failed to locate autostash entry '".to_owned();
    push_str(&mut s, name);
    push_str(&mut s, "'");
    s
}

/// The progress message while stashing the target worktree's changes.
pub fn stashing_message(path: &str, color: bool) -> (res: String)
    ensures
        res@ == progress_msg(color, seq![pl("Stashing changes in "@), bo(path@), pl("..."@)]),
{
    progress_message(&parts(&[("Stashing changes in ", PartKind::Plain), (path, PartKind::Bold), ("...", PartKind::Plain)]), color)
}

/// The progress message while restoring stashed changes.
pub fn restoring_message(path: &str, color: bool) -> (res: String)
    ensures
        res@ == progress_msg(color, seq![pl("Restoring stashed changes in "@), bo(path@), pl("..."@)]),
{
    progress_message(&parts(&[("Restoring stashed changes in ", PartKind::Plain), (path, PartKind::Bold), ("...", PartKind::Plain)]),
        color)
}

/// The warning when stashed changes could not be restored, with the command
/// that restores them by hand.
pub fn restore_failed_message(stash_ref: &str, path: &str, color: bool) -> (res: String)
    ensures
        res@ == warning_msg(color, seq![pl("Failed to restore stash "@), bo(stash_ref@),
            pl(" - run 'git stash pop "@ + stash_ref@ + "' in "@), bo(path@)]),
{
    let mut hint = " - run 'git stash pop ".to_owned();
    push_str(&mut hint, stash_ref);
    push_str(&mut hint, "' in ");
    warning_message(&parts(&[("Failed to restore stash ", PartKind::Plain), (stash_ref, PartKind::Bold),
        (hint.as_str(), PartKind::Plain), (path, PartKind::Bold)]), color)
}

} // verus!

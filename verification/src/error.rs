//! Domain errors for git and worktree operations.

use vstd::prelude::*;
use crate::git::{HookType, hook_type_name};
use crate::path::{display_path, format_path_for_display};
use crate::styling::{
    error_message, error_msg, lit_parts, parts, format_with_gutter, gr, gutter_lines, hint_message, hint_msg, info_message, bo, part,
    part_view, parts_view, pl, MsgPart, PartKind, INFO_EMOJI,
};
use crate::text::{join_seqs, join_strings, lines, push_char, push_str, strings_view, trim, trim_end, trim_end_str, trim_str};

verus! {

/// Domain errors for git and worktree operations. Each variant stores the
/// data needed to construct the user-facing message.
#[derive(Debug, Clone)]
pub enum GitError {
    // Git state errors
    DetachedHead { action: Option<String> },
    UncommittedChanges { action: Option<String>, worktree: Option<String> },
    BranchAlreadyExists { branch: String },
    InvalidReference { reference: String },
    // Worktree errors
    WorktreeMissing { branch: String },
    NoWorktreeFound { branch: String },
    RemoteOnlyBranch { branch: String, remote: String },
    WorktreePathOccupied { branch: String, path: String, occupant: Option<String> },
    WorktreePathExists { path: String },
    WorktreePathMismatch { branch: String, expected_path: String, actual_path: String },
    WorktreeCreationFailed { branch: String, base_branch: Option<String>, error: String },
    WorktreeRemovalFailed { branch: String, path: String, error: String },
    CannotRemoveMainWorktree,
    // Merge/push errors
    ConflictingChanges { files: Vec<String>, worktree_path: String },
    NotFastForward { target_branch: String, commits_formatted: String, in_merge_context: bool },
    MergeCommitsFound,
    RebaseConflict { target_branch: String, git_output: String },
    PushFailed { error: String },
    // Validation/other errors
    NotInteractive,
    HookCommandNotFound { name: String, available: Vec<String> },
    ParseError { message: String },
    LlmCommandFailed { command: String, error: String },
    ProjectConfigNotFound { config_path: String },
    CommandNotApproved,
    CommandFailed(String),
    Other { message: String },
}

/// Semantic errors that need special handling (exit codes, silent errors).
#[derive(Debug, Clone)]
pub enum WorktrunkError {
    /// Child process exited with non-zero code.
    ChildProcessExited { code: i32, message: String },
    /// Hook command failed.
    HookCommandFailed { hook_type: HookType, command_name: Option<String>, error: String, exit_code: Option<i32> },
    /// Command was not approved by the user (silent error).
    CommandNotApproved,
}

/// The exit code that an error carries, if any.
pub open spec fn spec_exit_code(err: Option<WorktrunkError>) -> Option<i32> {
    match err {
        Some(WorktrunkError::ChildProcessExited { code, .. }) => Some(code),
        Some(WorktrunkError::HookCommandFailed { exit_code, .. }) => exit_code,
        _ => None,
    }
}

/// Extract the exit code from an error that is a `WorktrunkError`
/// (`err` is `None` for any other error).
pub fn exit_code(err: Option<&WorktrunkError>) -> (res: Option<i32>)
    ensures
        res == spec_exit_code(match err { Some(e) => Some(*e), None => None }),
{
    match err {
        Some(WorktrunkError::ChildProcessExited { code, .. }) => Some(*code),
        Some(WorktrunkError::HookCommandFailed { exit_code, .. }) => *exit_code,
        _ => None,
    }
}

/// Whether an error is `CommandNotApproved` (a silent error).
pub fn is_command_not_approved(err: Option<&WorktrunkError>) -> (res: bool)
    ensures
        res == (err matches Some(e) && *e is CommandNotApproved),
{
    match err {
        Some(WorktrunkError::CommandNotApproved) => true,
        _ => false,
    }
}


// ============================================================================
// Messages
// ============================================================================

/// The view of an optional string.
pub open spec fn ov(s: Option<String>) -> Option<Seq<char>> {
    match s {
        Some(v) => Some(v@),
        None => None,
    }
}

/// Two blocks separated by a blank line.
pub open spec fn blocks(a: Seq<char>, b: Seq<char>) -> Seq<char> {
    a + seq!['\n', '\n'] + b
}

/// An error header followed by the trimmed error text in a gutter (the
/// header alone when the text is blank).
pub open spec fn error_block(header: Seq<char>, error: Seq<char>, color: bool) -> Seq<char> {
    let t = trim(error);
    if t.len() == 0 { header } else { header + seq!['\n'] + gutter_lines(""@, color, lines(t)) }
}

/// Format an error with a header and the error text in a gutter.
pub fn format_error_block(header: String, error: &str, color: bool) -> (res: String)
    ensures
        res@ == error_block(header@, error@, color),
{
    let trimmed = trim_str(error);
    if trimmed.as_str().is_empty() {
        header
    } else {
        let mut out = header;
        push_char(&mut out, '\n');
        let g = format_with_gutter(trimmed.as_str(), "", color);
        push_str(&mut out, g.as_str());
        out
    }
}


fn join_blocks(a: String, b: String) -> (res: String)
    ensures
        res@ == blocks(a@, b@),
{
    let mut out = a;
    push_char(&mut out, '\n');
    push_char(&mut out, '\n');
    push_str(&mut out, b.as_str());
    out
}

/// The message of a detached HEAD.
pub open spec fn detached_head_text(action: Option<Seq<char>>, color: bool) -> Seq<char> {
    let e = match action {
        Some(a) => seq![pl("Cannot "@), pl(a), pl(": not on a branch (detached HEAD)"@)],
        None => seq![pl("Not on a branch (detached HEAD)"@)],
    };
    blocks(error_msg(color, e), hint_msg(color, seq![pl("Switch to a branch first with "@), gr("git switch <branch>"@)]))
}

fn detached_head_message(action: &Option<String>, color: bool) -> (res: String)
    ensures
        res@ == detached_head_text(ov(*action), color),
{
    let e = match action {
        Some(a) => parts(&[("Cannot ", PartKind::Plain), (a.as_str(), PartKind::Plain), (": not on a branch (detached HEAD)", PartKind::Plain)]),
        None => parts(&[("Not on a branch (detached HEAD)", PartKind::Plain)]),
    };
    let h = parts(&[("Switch to a branch first with ", PartKind::Plain), ("git switch <branch>", PartKind::Gray)]);
    join_blocks(error_message(&e, color), hint_message(&h, color))
}

/// The message of uncommitted changes.
pub open spec fn uncommitted_text(action: Option<Seq<char>>, worktree: Option<Seq<char>>, color: bool) -> Seq<char> {
    let e = match (action, worktree) {
        (Some(a), Some(w)) => seq![pl("Cannot "@), pl(a), pl(": "@), bo(w), pl(" has uncommitted changes"@)],
        (Some(a), None) => seq![pl("Cannot "@), pl(a), pl(": working tree has uncommitted changes"@)],
        (None, Some(w)) => seq![bo(w), pl(" has uncommitted changes"@)],
        (None, None) => seq![pl("Working tree has uncommitted changes"@)],
    };
    blocks(error_msg(color, e), hint_msg(color, seq![pl("Commit or stash changes first"@)]))
}

fn uncommitted_message(action: &Option<String>, worktree: &Option<String>, color: bool) -> (res: String)
    ensures
        res@ == uncommitted_text(ov(*action), ov(*worktree), color),
{
    let e = match (action, worktree) {
        (Some(a), Some(w)) => parts(&[("Cannot ", PartKind::Plain), (a.as_str(), PartKind::Plain), (": ", PartKind::Plain),
            (w.as_str(), PartKind::Bold), (" has uncommitted changes", PartKind::Plain)]),
        (Some(a), None) => parts(&[("Cannot ", PartKind::Plain), (a.as_str(), PartKind::Plain),
            (": working tree has uncommitted changes", PartKind::Plain)]),
        (None, Some(w)) => parts(&[(w.as_str(), PartKind::Bold), (" has uncommitted changes", PartKind::Plain)]),
        (None, None) => parts(&[("Working tree has uncommitted changes", PartKind::Plain)]),
    };
    let h = parts(&[("Commit or stash changes first", PartKind::Plain)]);
    join_blocks(error_message(&e, color), hint_message(&h, color))
}

/// An error message followed by a hint, both from parts.
pub open spec fn error_hint_text(e: Seq<(Seq<char>, PartKind)>, h: Seq<(Seq<char>, PartKind)>, color: bool) -> Seq<char> {
    blocks(error_msg(color, e), hint_msg(color, h))
}

fn error_hint(e: &Vec<MsgPart>, h: &Vec<MsgPart>, color: bool) -> (res: String)
    ensures
        res@ == error_hint_text(parts_view(e@), parts_view(h@), color),
{
    join_blocks(error_message(e, color), hint_message(h, color))
}

/// The message of a worktree path occupied by another worktree.
pub open spec fn occupied_text(branch: Seq<char>, pd: Seq<char>, occupant: Option<Seq<char>>, color: bool) -> Seq<char> {
    let h = match occupant {
        Some(o) => seq![pl("Reuse the existing worktree at "@), pl(pd), pl(" (currently on "@), bo(o),
            pl(") or remove the directory before retrying"@)],
        None => seq![pl("Reuse the existing worktree at "@), pl(pd), pl(" or remove the directory before retrying"@)],
    };
    error_hint_text(seq![pl("Cannot create worktree for "@), bo(branch), pl(": target path already exists"@)], h, color)
}

fn occupied_message(branch: &str, pd: &str, occupant: &Option<String>, color: bool) -> (res: String)
    ensures
        res@ == occupied_text(branch@, pd@, ov(*occupant), color),
{
    let e = parts(&[("Cannot create worktree for ", PartKind::Plain), (branch, PartKind::Bold), (": target path already exists", PartKind::Plain)]);
    match occupant {
        Some(o) => error_hint(&e, &parts(&[("Reuse the existing worktree at ", PartKind::Plain), (pd, PartKind::Plain),
            (" (currently on ", PartKind::Plain), (o.as_str(), PartKind::Bold),
            (") or remove the directory before retrying", PartKind::Plain)]), color),
        None => error_hint(&e, &parts(&[("Reuse the existing worktree at ", PartKind::Plain), (pd, PartKind::Plain),
            (" or remove the directory before retrying", PartKind::Plain)]), color),
    }
}

/// The message of conflicting changes in a target worktree.
pub open spec fn conflicting_text(files: Seq<Seq<char>>, pd: Seq<char>, color: bool) -> Seq<char> {
    error_msg(color, seq![pl("Cannot push: conflicting uncommitted changes in:"@)]) + seq!['\n', '\n']
        + (if files.len() > 0 { gutter_lines(""@, color, lines(join_seqs(files, seq!['\n']))) } else { Seq::empty() })
        + seq!['\n'] + hint_msg(color, seq![pl("Commit or stash these changes in "@), pl(pd), pl(" first"@)])
}

fn conflicting_message(files: &Vec<String>, pd: &str, color: bool) -> (res: String)
    ensures
        res@ == conflicting_text(strings_view(files@), pd@, color),
{
    let mut out = error_message(&parts(&[("Cannot push: conflicting uncommitted changes in:", PartKind::Plain)]), color);
    push_char(&mut out, '\n');
    push_char(&mut out, '\n');
    if files.len() > 0 {
        let sep = {
            let mut s = String::new();
            push_char(&mut s, '\n');
            s
        };
        let joined = join_strings(files, sep.as_str());
        let g = format_with_gutter(joined.as_str(), "", color);
        push_str(&mut out, g.as_str());
    }
    push_char(&mut out, '\n');
    let h = parts(&[("Commit or stash these changes in ", PartKind::Plain), (pd, PartKind::Plain), (" first", PartKind::Plain)]);
    let hm = hint_message(&h, color);
    push_str(&mut out, hm.as_str());
    out
}

/// The message of a push that is not a fast-forward.
pub open spec fn not_ff_text(target: Seq<char>, commits: Seq<char>, in_merge: bool, color: bool) -> Seq<char> {
    error_msg(color, seq![pl("Can't push to local "@), bo(target), pl(" branch: it has newer commits"@)])
        + (if commits.len() > 0 { seq!['\n'] + gutter_lines(""@, color, lines(commits)) } else { Seq::empty() })
        + seq!['\n'] + (if in_merge {
            hint_msg(color, seq![pl("Run "@), gr("wt merge"@), pl(" again to incorporate these changes"@)])
        } else {
            hint_msg(color, seq![pl("Use "@), gr("wt step rebase"@), pl(" or "@), gr("wt merge"@), pl(" to rebase onto "@), bo(target)])
        })
}

fn not_ff_message(target: &str, commits: &str, in_merge: bool, color: bool) -> (res: String)
    ensures
        res@ == not_ff_text(target@, commits@, in_merge, color),
{
    let mut out = error_message(&parts(&[("Can't push to local ", PartKind::Plain), (target, PartKind::Bold),
        (" branch: it has newer commits", PartKind::Plain)]), color);
    if !commits.is_empty() {
        push_char(&mut out, '\n');
        let g = format_with_gutter(commits, "", color);
        push_str(&mut out, g.as_str());
    }
    push_char(&mut out, '\n');
    let h = if in_merge {
        parts(&[("Run ", PartKind::Plain), ("wt merge", PartKind::Gray), (" again to incorporate these changes", PartKind::Plain)])
    } else {
        parts(&[("Use ", PartKind::Plain), ("wt step rebase", PartKind::Gray), (" or ", PartKind::Plain), ("wt merge", PartKind::Gray),
            (" to rebase onto ", PartKind::Plain), (target, PartKind::Bold)])
    };
    let hm = hint_message(&h, color);
    push_str(&mut out, hm.as_str());
    out
}

/// The message of an incomplete rebase.
pub open spec fn rebase_conflict_text(target: Seq<char>, output: Seq<char>, color: bool) -> Seq<char> {
    error_msg(color, seq![pl("Rebase onto "@), bo(target), pl(" incomplete"@)]) + if output.len() > 0 {
        seq!['\n'] + gutter_lines(""@, color, lines(output))
    } else {
        seq!['\n', '\n'] + hint_msg(color, seq![pl("Resolve conflicts and run "@), gr("git rebase --continue"@)])
            + seq!['\n'] + hint_msg(color, seq![pl("Or abort with "@), gr("git rebase --abort"@)])
    }
}

fn rebase_conflict_message(target: &str, output: &str, color: bool) -> (res: String)
    ensures
        res@ == rebase_conflict_text(target@, output@, color),
{
    let mut out = error_message(&parts(&[("Rebase onto ", PartKind::Plain), (target, PartKind::Bold), (" incomplete", PartKind::Plain)]), color);
    if !output.is_empty() {
        push_char(&mut out, '\n');
        let g = format_with_gutter(output, "", color);
        push_str(&mut out, g.as_str());
    } else {
        push_char(&mut out, '\n');
        push_char(&mut out, '\n');
        let h1 = parts(&[("Resolve conflicts and run ", PartKind::Plain), ("git rebase --continue", PartKind::Gray)]);
        let m1 = hint_message(&h1, color);
        push_str(&mut out, m1.as_str());
        push_char(&mut out, '\n');
        let h2 = parts(&[("Or abort with ", PartKind::Plain), ("git rebase --abort", PartKind::Gray)]);
        let m2 = hint_message(&h2, color);
        push_str(&mut out, m2.as_str());
    }
    out
}

/// Bold parts for each name, separated by `, `.
pub open spec fn bold_list(names: Seq<Seq<char>>) -> Seq<(Seq<char>, PartKind)>
    decreases names.len(),
{
    if names.len() == 0 {
        Seq::empty()
    } else if names.len() == 1 {
        seq![bo(names[0])]
    } else {
        bold_list(names.drop_last()).push(pl(", "@)).push(bo(names.last()))
    }
}

/// The message of a hook command name that does not exist.
pub open spec fn hook_not_found_text(name: Seq<char>, available: Seq<Seq<char>>, color: bool) -> Seq<char> {
    if available.len() == 0 {
        error_msg(color, seq![pl("No command named "@), bo(name), pl(" (hook has no named commands)"@)])
    } else {
        error_msg(color, seq![pl("No command named "@), bo(name), pl(" (available: "@)] + bold_list(available) + seq![pl(")"@)])
    }
}

fn hook_not_found_message(name: &str, available: &Vec<String>, color: bool) -> (res: String)
    ensures
        res@ == hook_not_found_text(name@, strings_view(available@), color),
{
    if available.len() == 0 {
        return error_message(&parts(&[("No command named ", PartKind::Plain), (name, PartKind::Bold),
            (" (hook has no named commands)", PartKind::Plain)]), color);
    }
    let mut ps = parts(&[("No command named ", PartKind::Plain), (name, PartKind::Bold), (" (available: ", PartKind::Plain)]);
    let ghost head = parts_view(ps@);
    let mut i: usize = 0;
    while i < available.len()
        invariant
            i <= available@.len(),
            parts_view(ps@) == head + bold_list(strings_view(available@.take(i as int))),
        decreases available@.len() - i,
    {
        let ghost prev = parts_view(ps@);
        let ghost names = strings_view(available@.take(i + 1));
        assert(names.drop_last() =~= strings_view(available@.take(i as int)));
        assert(names.last() == available@[i as int]@);
        if i > 0 {
            let sep = part(", ", PartKind::Plain);
            let item = part(available[i].as_str(), PartKind::Bold);
            ps.push(sep);
            ps.push(item);
            assert(parts_view(ps@) =~= prev.push(pl(", "@)).push(bo(available@[i as int]@)));
        } else {
            let item = part(available[i].as_str(), PartKind::Bold);
            ps.push(item);
            assert(names =~= seq![available@[0]@]);
            assert(parts_view(ps@) =~= prev.push(bo(available@[i as int]@)));
        }
        assert(parts_view(ps@) =~= head + bold_list(names));
        i = i + 1;
    }
    proof {
        assert(available@.take(available@.len() as int) == available@);
    }
    let ghost before = parts_view(ps@);
    ps.push(part(")", PartKind::Plain));
    assert(parts_view(ps@) =~= before.push(pl(")"@)));
    assert(parts_view(ps@) =~= head + bold_list(strings_view(available@)) + seq![pl(")"@)]);
    error_message(&ps, color)
}

/// The message of a failed commit generation command.
pub open spec fn llm_failed_text(command: Seq<char>, error: Seq<char>, color: bool) -> Seq<char> {
    trim_end(error_block(error_msg(color, seq![pl("Commit generation command failed"@)]), error, color))
        + seq!['\n', '\n'] + seq![INFO_EMOJI, ' '] + "Ran command:"@ + seq!['\n']
        + trim_end(gutter_lines(""@, color, lines(command)))
}

fn llm_failed_message(command: &str, error: &str, color: bool) -> (res: String)
    ensures
        res@ == llm_failed_text(command@, error@, color),
{
    let header = error_message(&parts(&[("Commit generation command failed", PartKind::Plain)]), color);
    let block = format_error_block(header, error, color);
    let mut out = trim_end_str(block.as_str());
    push_char(&mut out, '\n');
    push_char(&mut out, '\n');
    let info = info_message("Ran command:");
    push_str(&mut out, info.as_str());
    push_char(&mut out, '\n');
    let g = format_with_gutter(command, "", color);
    let gt = trim_end_str(g.as_str());
    push_str(&mut out, gt.as_str());
    out
}

/// The user-facing message of a `GitError`, with colors when `color` is
/// set; paths are shown relative to `home`.
pub open spec fn git_error_text(e: GitError, color: bool, home: Option<Seq<char>>) -> Seq<char> {
    match e {
        GitError::DetachedHead { action } => detached_head_text(ov(action), color),
        GitError::UncommittedChanges { action, worktree } => uncommitted_text(ov(action), ov(worktree), color),
        GitError::BranchAlreadyExists { branch } => error_hint_text(
            seq![pl("Branch "@), bo(branch@), pl(" already exists"@)],
            seq![pl("Remove "@), gr("--create"@), pl(" flag to switch to the existing branch"@)], color),
        GitError::InvalidReference { reference } => error_hint_text(
            seq![pl("Branch "@), bo(reference@), pl(" not found"@)],
            seq![pl("Use "@), gr("--create"@), pl(" to create a new branch, or "@), gr("wt list --branches --remotes"@),
                pl(" for available branches"@)], color),
        GitError::WorktreeMissing { branch } => error_hint_text(
            seq![pl("Worktree directory missing for "@), bo(branch@)],
            seq![pl("Run "@), gr("git worktree prune"@), pl(" to clean up"@)], color),
        GitError::NoWorktreeFound { branch } => error_msg(color, seq![pl("No worktree found for branch "@), bo(branch@)]),
        GitError::RemoteOnlyBranch { branch, remote } => error_hint_text(
            seq![pl("Branch "@), bo(branch@), pl(" exists only on remote ("@), pl(remote@), pl("/"@), pl(branch@), pl(")"@)],
            seq![pl("Use "@), gr("wt switch "@ + branch@), pl(" to create a local worktree"@)], color),
        GitError::WorktreePathOccupied { branch, path, occupant } =>
            occupied_text(branch@, display_path(path@, home), ov(occupant), color),
        GitError::WorktreePathExists { path } => error_hint_text(
            seq![pl("Directory already exists: "@), bo(display_path(path@, home))],
            seq![pl("Remove the directory or use a different branch name"@)], color),
        GitError::WorktreePathMismatch { branch, expected_path, actual_path } => error_hint_text(
            seq![pl("Ambiguous: "@), bo(display_path(expected_path@, home)), pl(" has a worktree on a different branch, but branch "@),
                bo(branch@), pl(" exists at "@), bo(display_path(actual_path@, home))],
            seq![pl("Use "@), gr("wt list"@), pl(" to see worktree-branch mappings"@)], color),
        GitError::WorktreeCreationFailed { branch, base_branch, error } => error_block(
            match base_branch {
                Some(b) => error_msg(color, seq![pl("Failed to create worktree for "@), bo(branch@), pl(" from base "@), bo(b@)]),
                None => error_msg(color, seq![pl("Failed to create worktree for "@), bo(branch@)]),
            }, error@, color),
        GitError::WorktreeRemovalFailed { branch, path, error } => error_block(
            error_msg(color, seq![pl("Failed to remove worktree for "@), bo(branch@), pl(" at "@), bo(display_path(path@, home))]),
            error@, color),
        GitError::CannotRemoveMainWorktree => error_msg(color, seq![pl("The main worktree cannot be removed"@)]),
        GitError::ConflictingChanges { files, worktree_path } =>
            conflicting_text(strings_view(files@), display_path(worktree_path@, home), color),
        GitError::NotFastForward { target_branch, commits_formatted, in_merge_context } =>
            not_ff_text(target_branch@, commits_formatted@, in_merge_context, color),
        GitError::MergeCommitsFound => error_hint_text(
            seq![pl("Found merge commits in push range"@)],
            seq![pl("Use "@), gr("--allow-merge-commits"@), pl(" to push non-linear history"@)], color),
        GitError::RebaseConflict { target_branch, git_output } => rebase_conflict_text(target_branch@, git_output@, color),
        GitError::PushFailed { error } => error_block(error_msg(color, seq![pl("Push failed"@)]), error@, color),
        GitError::NotInteractive => error_hint_text(
            seq![pl("Cannot prompt for approval in non-interactive environment"@)],
            seq![pl("In CI/CD, use "@), gr("--force"@), pl(" to skip prompts. To pre-approve commands, use "@),
                gr("wt config approvals add"@)], color),
        GitError::HookCommandNotFound { name, available } => hook_not_found_text(name@, strings_view(available@), color),
        GitError::ParseError { message } => error_msg(color, seq![pl(message@)]),
        GitError::LlmCommandFailed { command, error } => llm_failed_text(command@, error@, color),
        GitError::ProjectConfigNotFound { config_path } => error_hint_text(
            seq![pl("No project configuration found"@)],
            seq![pl("Create a config file at: "@), bo(display_path(config_path@, home))], color),
        GitError::CommandNotApproved => Seq::empty(),
        GitError::CommandFailed(message) => error_msg(color, seq![pl(message@)]),
        GitError::Other { message } => error_msg(color, seq![pl(message@)]),
    }
}

impl GitError {
    /// The user-facing message: an error line (with the error emoji and red
    /// color), details in a gutter, and hints (with the hint emoji, dimmed);
    /// paths under `home` are shown with `~`.
    pub fn message(&self, color: bool, home: Option<&str>) -> (res: String)
        ensures
            res@ == git_error_text(*self, color, match home { Some(h) => Some(h@), None => None }),
    {
        match self {
            GitError::DetachedHead { action } => detached_head_message(action, color),
            GitError::UncommittedChanges { action, worktree } => uncommitted_message(action, worktree, color),
            GitError::BranchAlreadyExists { branch } => error_hint(
                &parts(&[("Branch ", PartKind::Plain), (branch.as_str(), PartKind::Bold), (" already exists", PartKind::Plain)]),
                &parts(&[("Remove ", PartKind::Plain), ("--create", PartKind::Gray), (" flag to switch to the existing branch", PartKind::Plain)]),
                color),
            GitError::InvalidReference { reference } => error_hint(
                &parts(&[("Branch ", PartKind::Plain), (reference.as_str(), PartKind::Bold), (" not found", PartKind::Plain)]),
                &parts(&[("Use ", PartKind::Plain), ("--create", PartKind::Gray), (" to create a new branch, or ", PartKind::Plain),
                    ("wt list --branches --remotes", PartKind::Gray), (" for available branches", PartKind::Plain)]),
                color),
            GitError::WorktreeMissing { branch } => error_hint(
                &parts(&[("Worktree directory missing for ", PartKind::Plain), (branch.as_str(), PartKind::Bold)]),
                &parts(&[("Run ", PartKind::Plain), ("git worktree prune", PartKind::Gray), (" to clean up", PartKind::Plain)]),
                color),
            GitError::NoWorktreeFound { branch } => error_message(
                &parts(&[("No worktree found for branch ", PartKind::Plain), (branch.as_str(), PartKind::Bold)]), color),
            GitError::RemoteOnlyBranch { branch, remote } => {
                let mut cmd = "wt switch ".to_owned();
                push_str(&mut cmd, branch.as_str());
                error_hint(
                    &parts(&[("Branch ", PartKind::Plain), (branch.as_str(), PartKind::Bold), (" exists only on remote (", PartKind::Plain),
                        (remote.as_str(), PartKind::Plain), ("/", PartKind::Plain), (branch.as_str(), PartKind::Plain), (")", PartKind::Plain)]),
                    &parts(&[("Use ", PartKind::Plain), (cmd.as_str(), PartKind::Gray), (" to create a local worktree", PartKind::Plain)]),
                    color)
            },
            GitError::WorktreePathOccupied { branch, path, occupant } => {
                let pd = format_path_for_display(path.as_str(), home);
                occupied_message(branch.as_str(), pd.as_str(), occupant, color)
            },
            GitError::WorktreePathExists { path } => {
                let pd = format_path_for_display(path.as_str(), home);
                error_hint(
                    &parts(&[("Directory already exists: ", PartKind::Plain), (pd.as_str(), PartKind::Bold)]),
                    &parts(&[("Remove the directory or use a different branch name", PartKind::Plain)]),
                    color)
            },
            GitError::WorktreePathMismatch { branch, expected_path, actual_path } => {
                let expected = format_path_for_display(expected_path.as_str(), home);
                let actual = format_path_for_display(actual_path.as_str(), home);
                error_hint(
                    &parts(&[("Ambiguous: ", PartKind::Plain), (expected.as_str(), PartKind::Bold),
                        (" has a worktree on a different branch, but branch ", PartKind::Plain), (branch.as_str(), PartKind::Bold),
                        (" exists at ", PartKind::Plain), (actual.as_str(), PartKind::Bold)]),
                    &parts(&[("Use ", PartKind::Plain), ("wt list", PartKind::Gray), (" to see worktree-branch mappings", PartKind::Plain)]),
                    color)
            },
            GitError::WorktreeCreationFailed { branch, base_branch, error } => {
                let header = match base_branch {
                    Some(b) => error_message(&parts(&[("Failed to create worktree for ", PartKind::Plain), (branch.as_str(), PartKind::Bold),
                        (" from base ", PartKind::Plain), (b.as_str(), PartKind::Bold)]), color),
                    None => error_message(&parts(&[("Failed to create worktree for ", PartKind::Plain), (branch.as_str(), PartKind::Bold)]), color),
                };
                format_error_block(header, error.as_str(), color)
            },
            GitError::WorktreeRemovalFailed { branch, path, error } => {
                let pd = format_path_for_display(path.as_str(), home);
                let header = error_message(&parts(&[("Failed to remove worktree for ", PartKind::Plain), (branch.as_str(), PartKind::Bold),
                    (" at ", PartKind::Plain), (pd.as_str(), PartKind::Bold)]), color);
                format_error_block(header, error.as_str(), color)
            },
            GitError::CannotRemoveMainWorktree => error_message(&parts(&[("The main worktree cannot be removed", PartKind::Plain)]), color),
            GitError::ConflictingChanges { files, worktree_path } => {
                let pd = format_path_for_display(worktree_path.as_str(), home);
                conflicting_message(files, pd.as_str(), color)
            },
            GitError::NotFastForward { target_branch, commits_formatted, in_merge_context } =>
                not_ff_message(target_branch.as_str(), commits_formatted.as_str(), *in_merge_context, color),
            GitError::MergeCommitsFound => error_hint(
                &parts(&[("Found merge commits in push range", PartKind::Plain)]),
                &parts(&[("Use ", PartKind::Plain), ("--allow-merge-commits", PartKind::Gray), (" to push non-linear history", PartKind::Plain)]),
                color),
            GitError::RebaseConflict { target_branch, git_output } =>
                rebase_conflict_message(target_branch.as_str(), git_output.as_str(), color),
            GitError::PushFailed { error } => {
                let header = error_message(&parts(&[("Push failed", PartKind::Plain)]), color);
                format_error_block(header, error.as_str(), color)
            },
            GitError::NotInteractive => error_hint(
                &parts(&[("Cannot prompt for approval in non-interactive environment", PartKind::Plain)]),
                &parts(&[("In CI/CD, use ", PartKind::Plain), ("--force", PartKind::Gray),
                    (" to skip prompts. To pre-approve commands, use ", PartKind::Plain), ("wt config approvals add", PartKind::Gray)]),
                color),
            GitError::HookCommandNotFound { name, available } => hook_not_found_message(name.as_str(), available, color),
            GitError::ParseError { message } => error_message(&parts(&[(message.as_str(), PartKind::Plain)]), color),
            GitError::LlmCommandFailed { command, error } => llm_failed_message(command.as_str(), error.as_str(), color),
            GitError::ProjectConfigNotFound { config_path } => {
                let pd = format_path_for_display(config_path.as_str(), home);
                error_hint(
                    &parts(&[("No project configuration found", PartKind::Plain)]),
                    &parts(&[("Create a config file at: ", PartKind::Plain), (pd.as_str(), PartKind::Bold)]),
                    color)
            },
            GitError::CommandNotApproved => String::new(),
            GitError::CommandFailed(message) => error_message(&parts(&[(message.as_str(), PartKind::Plain)]), color),
            GitError::Other { message } => error_message(&parts(&[(message.as_str(), PartKind::Plain)]), color),
        }
    }
}

/// The user-facing message of a `WorktrunkError`.
pub open spec fn worktrunk_error_text(e: WorktrunkError, color: bool) -> Seq<char> {
    match e {
        WorktrunkError::ChildProcessExited { message, .. } => error_msg(color, seq![pl(message@)]),
        WorktrunkError::HookCommandFailed { hook_type, command_name, error, .. } => blocks(
            match command_name {
                Some(n) => error_msg(color, seq![pl(hook_type_name(hook_type)), pl(" command failed: "@), bo(n@), pl(": "@), pl(error@)]),
                None => error_msg(color, seq![pl(hook_type_name(hook_type)), pl(" command failed: "@), pl(error@)]),
            },
            hint_msg(color, seq![pl("Use "@), gr("--no-verify"@), pl(" to skip "@), pl(hook_type_name(hook_type)), pl(" commands"@)])),
        WorktrunkError::CommandNotApproved => Seq::empty(),
    }
}

impl WorktrunkError {
    /// The user-facing message (empty for the silent `CommandNotApproved`).
    pub fn message(&self, color: bool) -> (res: String)
        ensures
            res@ == worktrunk_error_text(*self, color),
    {
        match self {
            WorktrunkError::ChildProcessExited { message, .. } => error_message(&parts(&[(message.as_str(), PartKind::Plain)]), color),
            WorktrunkError::HookCommandFailed { hook_type, command_name, error, .. } => {
                let name = hook_type.name();
                let e = match command_name {
                    Some(n) => error_message(&parts(&[(name, PartKind::Plain), (" command failed: ", PartKind::Plain), (n.as_str(), PartKind::Bold),
                        (": ", PartKind::Plain), (error.as_str(), PartKind::Plain)]), color),
                    None => error_message(&parts(&[(name, PartKind::Plain), (" command failed: ", PartKind::Plain),
                        (error.as_str(), PartKind::Plain)]), color),
                };
                let hv = parts(&[("Use ", PartKind::Plain), ("--no-verify", PartKind::Gray), (" to skip ", PartKind::Plain),
                    (name, PartKind::Plain), (" commands", PartKind::Plain)]);
                join_blocks(e, hint_message(&hv, color))
            },
            WorktrunkError::CommandNotApproved => String::new(),
        }
    }
}

} // verus!

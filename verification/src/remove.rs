//! Removing a worktree: what to do with its branch, the command that removes
//! it in the background, and the messages that report the outcome.

use vstd::prelude::*;
use crate::error::GitError;
use crate::expansion::{shell_escape, shell_escaped};
use crate::styling::{
    bo, format_with_gutter, gutter_lines, parts, parts_view, pl, progress_message, progress_msg, rich_message,
    rich_message_exec, success_message, success_msg, warning_message, warning_msg, AnsiColor, PartKind, TextStyle,
    INFO_EMOJI, fg_style,
};
use crate::text::{lines, push_str, str_eq};

verus! {

/// The flag acknowledged at the end of a removal message.
pub open spec fn flag_note(no_delete_branch: bool, force_delete: bool, branch_deleted: bool) -> Seq<char> {
    if no_delete_branch {
        " (--no-delete-branch)"@
    } else if force_delete && branch_deleted {
        " (--force-delete)"@
    } else {
        ""@
    }
}

/// The flag acknowledgment for removal messages.
pub fn get_flag_note(no_delete_branch: bool, force_delete: bool, branch_deleted: bool) -> (res: &'static str)
    ensures
        res@ == flag_note(no_delete_branch, force_delete, branch_deleted),
{
    if no_delete_branch {
        " (--no-delete-branch)"
    } else if force_delete && branch_deleted {
        " (--force-delete)"
    } else {
        ""
    }
}

/// What was removed.
pub open spec fn removal_action(no_delete_branch: bool, branch_deleted: bool) -> Seq<char> {
    if no_delete_branch || !branch_deleted { "Removed worktree"@ } else { "Removed worktree & branch"@ }
}

/// The success message of a removal: what was removed, for which branch
/// (`branch` when given, else `branch_name`), where the shell moved to, and
/// the acknowledged flag.
pub open spec fn remove_message(
    main_path: Seq<char>,
    changed_directory: bool,
    branch: Seq<char>,
    no_delete_branch: bool,
    force_delete: bool,
    branch_deleted: bool,
    color: bool,
) -> Seq<char> {
    let action = removal_action(no_delete_branch, branch_deleted);
    let note = flag_note(no_delete_branch, force_delete, branch_deleted);
    if changed_directory {
        success_msg(color, seq![pl(action), pl(" for "@), bo(branch), pl(", changed directory to "@), bo(main_path), pl(note)])
    } else {
        success_msg(color, seq![pl(action), pl(" for "@), bo(branch), pl(note)])
    }
}

/// Format the message of a worktree removal; `main_path` is the path shown
/// for the main worktree.
pub fn format_remove_worktree_message(
    main_path: &str,
    changed_directory: bool,
    branch_name: &str,
    branch: Option<&str>,
    no_delete_branch: bool,
    force_delete: bool,
    branch_deleted: bool,
    color: bool,
) -> (res: String)
    ensures
        res@ == remove_message(main_path@, changed_directory, match branch { Some(b) => b@, None => branch_name@ },
            no_delete_branch, force_delete, branch_deleted, color),
{
    let action = if no_delete_branch || !branch_deleted { "Removed worktree" } else { "Removed worktree & branch" };
    let note = get_flag_note(no_delete_branch, force_delete, branch_deleted);
    let b = match branch {
        Some(b) => b,
        None => branch_name,
    };
    let ps = if changed_directory {
        parts(&[(action, PartKind::Plain), (" for ", PartKind::Plain), (b, PartKind::Bold),
            (", changed directory to ", PartKind::Plain), (main_path, PartKind::Bold), (note, PartKind::Plain)])
    } else {
        parts(&[(action, PartKind::Plain), (" for ", PartKind::Plain), (b, PartKind::Bold), (note, PartKind::Plain)])
    };
    success_message(&ps, color)
}

/// What happens to the branch of a removed worktree.
#[derive(Debug, Clone, Copy, PartialEq, Eq, Structural)]
pub enum DeletionPolicy {
    /// Keep the branch (`--no-delete-branch`).
    Retain,
    /// Delete it whatever it holds (`--force-delete`).
    Force,
    /// Delete it only when its work is integrated into the target.
    IfIntegrated,
}

/// The policy for the branch of a removed worktree.
pub open spec fn policy_for(no_delete_branch: bool, force_delete: bool) -> DeletionPolicy {
    if no_delete_branch {
        DeletionPolicy::Retain
    } else if force_delete {
        DeletionPolicy::Force
    } else {
        DeletionPolicy::IfIntegrated
    }
}

/// Decide what happens to the branch of a removed worktree.
pub fn deletion_policy(no_delete_branch: bool, force_delete: bool) -> (res: DeletionPolicy)
    ensures
        res == policy_for(no_delete_branch, force_delete),
{
    if no_delete_branch {
        DeletionPolicy::Retain
    } else if force_delete {
        DeletionPolicy::Force
    } else {
        DeletionPolicy::IfIntegrated
    }
}

/// Whether the branch is deleted under a policy; `integrated` is whether its
/// work is integrated into the target (asked only under `IfIntegrated`).
pub open spec fn deletes_branch(policy: DeletionPolicy, integrated: bool) -> bool {
    match policy {
        DeletionPolicy::Retain => false,
        DeletionPolicy::Force => true,
        DeletionPolicy::IfIntegrated => integrated,
    }
}

/// Whether the branch is deleted under a policy.
pub fn should_delete_branch(policy: DeletionPolicy, integrated: bool) -> (b: bool)
    ensures
        b == deletes_branch(policy, integrated),
{
    match policy {
        DeletionPolicy::Retain => false,
        DeletionPolicy::Force => true,
        DeletionPolicy::IfIntegrated => integrated,
    }
}

/// The progress message of a removal in the background.
pub open spec fn background_message(branch: Seq<char>, no_delete_branch: bool, delete_branch: bool, force_delete: bool, color: bool) -> Seq<char> {
    let tail = if no_delete_branch {
        " worktree in background; retaining branch (--no-delete-branch)"@
    } else if delete_branch {
        if force_delete { " worktree & branch in background (--force-delete)"@ } else { " worktree & branch in background"@ }
    } else {
        " worktree in background; retaining unmerged branch"@
    };
    progress_msg(color, seq![pl("Removing "@), bo(branch), pl(tail)])
}

/// Format the progress message of a removal in the background.
pub fn format_background_removal_message(branch: &str, no_delete_branch: bool, delete_branch: bool, force_delete: bool, color: bool) -> (res: String)
    ensures
        res@ == background_message(branch@, no_delete_branch, delete_branch, force_delete, color),
{
    let tail = if no_delete_branch {
        " worktree in background; retaining branch (--no-delete-branch)"
    } else if delete_branch {
        if force_delete { " worktree & branch in background (--force-delete)" } else { " worktree & branch in background" }
    } else {
        " worktree in background; retaining unmerged branch"
    };
    let ps = parts(&[("Removing ", PartKind::Plain), (branch, PartKind::Bold), (tail, PartKind::Plain)]);
    progress_message(&ps, color)
}

/// The shell command that removes a worktree in the background: stop its
/// file system monitor (ignoring failure), remove the worktree, and delete
/// the branch when asked; paths and names are shell-escaped.
pub open spec fn remove_command(worktree_path: Seq<char>, branch: Seq<char>, delete_branch: bool) -> Seq<char> {
    let w = shell_escaped(worktree_path);
    let stop = "git -C "@ + w + " fsmonitor--daemon stop 2>/dev/null || true"@;
    if delete_branch {
        stop + " && git worktree remove "@ + w + " && git branch -D "@ + shell_escaped(branch)
    } else {
        stop + " && git worktree remove "@ + w
    }
}

/// Build the shell command that removes a worktree in the background.
pub fn build_remove_command(worktree_path: &str, branch_name: &str, should_delete_branch: bool) -> (res: String)
    ensures
        res@ == remove_command(worktree_path@, branch_name@, should_delete_branch),
{
    let w = shell_escape(worktree_path);
    let mut c = "git -C ".to_owned();
    push_str(&mut c, w.as_str());
    push_str(&mut c, " fsmonitor--daemon stop 2>/dev/null || true");
    push_str(&mut c, " && git worktree remove ");
    push_str(&mut c, w.as_str());
    if should_delete_branch {
        let b = shell_escape(branch_name);
        push_str(&mut c, " && git branch -D ");
        push_str(&mut c, b.as_str());
    }
    c
}

/// The warning when a branch could not be deleted, and the detail shown in a
/// gutter below it: the deletion error, or that the branch is not merged.
pub open spec fn not_deleted_warning(branch: Seq<char>, error: Option<Seq<char>>, color: bool) -> (Seq<char>, Seq<char>) {
    let detail = match error {
        Some(e) => e,
        None => "error: the branch '"@ + branch + "' is not fully merged"@,
    };
    (warning_msg(color, seq![pl("Could not delete branch "@), bo(branch)]), gutter_lines(""@, color, lines(detail)))
}

/// Format the warning when a branch could not be deleted (`error` is the
/// deletion error; `None` when the branch was kept because it is not
/// merged).
pub fn format_not_deleted_warning(branch: &str, error: Option<&str>, color: bool) -> (res: (String, String))
    ensures
        (res.0@, res.1@) == not_deleted_warning(branch@, match error { Some(e) => Some(e@), None => None }, color),
{
    let w = warning_message(&parts(&[("Could not delete branch ", PartKind::Plain), (branch, PartKind::Bold)]), color);
    let detail = match error {
        Some(e) => e.to_owned(),
        None => {
            let mut d = "error: the branch '".to_owned();
            push_str(&mut d, branch);
            push_str(&mut d, "' is not fully merged");
            d
        },
    };
    (w, format_with_gutter(detail.as_str(), "", color))
}

/// The notice that a branch has no worktree (in gray, with the info emoji).
pub open spec fn no_worktree_notice(branch: Seq<char>, color: bool) -> Seq<char> {
    rich_message(color, fg_style(AnsiColor::BrightBlack), INFO_EMOJI, seq![pl("No worktree found for branch "@), pl(branch)])
}

/// The message after deleting a branch that had no worktree.
pub open spec fn branch_removed_message(branch: Seq<char>, force_delete: bool, color: bool) -> Seq<char> {
    success_msg(color, seq![pl("Removed branch "@), bo(branch), pl(if force_delete { " (--force-delete)"@ } else { ""@ })])
}

/// Format the notice that a branch has no worktree.
pub fn format_no_worktree_notice(branch: &str, color: bool) -> (res: String)
    ensures
        res@ == no_worktree_notice(branch@, color),
{
    let gray = TextStyle { fg: Some(AnsiColor::BrightBlack), bg: None, bold: false, dimmed: false };
    let ps = parts(&[("No worktree found for branch ", PartKind::Plain), (branch, PartKind::Plain)]);
    rich_message_exec(color, gray, INFO_EMOJI, &ps)
}

/// Format the message after deleting a branch that had no worktree.
pub fn format_branch_removed(branch: &str, force_delete: bool, color: bool) -> (res: String)
    ensures
        res@ == branch_removed_message(branch@, force_delete, color),
{
    let note = if force_delete { " (--force-delete)" } else { "" };
    let ps = parts(&[("Removed branch ", PartKind::Plain), (branch, PartKind::Bold), (note, PartKind::Plain)]);
    success_message(&ps, color)
}

/// The result of a remove operation.
pub enum RemoveResult {
    /// A worktree was found and is to be removed.
    RemovedWorktree {
        main_path: String,
        worktree_path: String,
        changed_directory: bool,
        branch_name: String,
        no_delete_branch: bool,
        force_delete: bool,
        target_branch: Option<String>,
    },
    /// The branch exists but has no worktree.
    BranchOnly { branch_name: String, no_delete_branch: bool, force_delete: bool },
}

/// How a removal is carried out and reported.
pub enum RemovePlan {
    /// Move the shell to `change_directory` first when given; decide the
    /// branch's fate by `policy` (checking integration against
    /// `check_target`), report progress and remove in the background.
    Background { change_directory: Option<String>, policy: DeletionPolicy, check_target: String },
    /// Move the shell first when asked, remove the worktree now, then try to
    /// delete the branch against `delete_against` (none with
    /// `--no-delete-branch`) and report what happened.
    Immediate { change_directory: Option<String>, delete_against: Option<String> },
    /// Report `notice`; then try to delete the branch unless `keep_branch`.
    BranchOnly { notice: String, keep_branch: bool },
}

/// The view of an optional string.
pub open spec fn opt_seq(s: Option<String>) -> Option<Seq<char>> {
    match s {
        Some(v) => Some(v@),
        None => None,
    }
}

/// The branch a removed worktree's branch is checked against: the target
/// branch, or `HEAD`.
pub open spec fn check_target_of(target_branch: Option<String>) -> Seq<char> {
    match target_branch {
        Some(t) => t@,
        None => "HEAD"@,
    }
}

/// Decide how to carry out and report a remove operation.
pub fn handle_remove_output(result: &RemoveResult, background: bool, color: bool) -> (res: RemovePlan)
    ensures
        match (*result, res) {
            (RemoveResult::RemovedWorktree { main_path, changed_directory, no_delete_branch, force_delete, target_branch, .. },
                RemovePlan::Background { change_directory, policy, check_target }) =>
                background
                    && opt_seq(change_directory) == (if changed_directory { Some(main_path@) } else { None })
                    && policy == policy_for(no_delete_branch, force_delete)
                    && check_target@ == check_target_of(target_branch),
            (RemoveResult::RemovedWorktree { main_path, changed_directory, no_delete_branch, target_branch, .. },
                RemovePlan::Immediate { change_directory, delete_against }) =>
                !background
                    && opt_seq(change_directory) == (if changed_directory { Some(main_path@) } else { None })
                    && opt_seq(delete_against) == (if no_delete_branch { None } else { Some(check_target_of(target_branch)) }),
            (RemoveResult::BranchOnly { branch_name, no_delete_branch, .. }, RemovePlan::BranchOnly { notice, keep_branch }) =>
                notice@ == no_worktree_notice(branch_name@, color) && keep_branch == no_delete_branch,
            _ => false,
        },
{
    match result {
        RemoveResult::RemovedWorktree { main_path, changed_directory, no_delete_branch, force_delete, target_branch, .. } => {
            let cd = if *changed_directory { Some(main_path.clone()) } else { None };
            let target = match target_branch {
                Some(t) => t.clone(),
                None => "HEAD".to_owned(),
            };
            if background {
                RemovePlan::Background { change_directory: cd, policy: deletion_policy(*no_delete_branch, *force_delete), check_target: target }
            } else {
                RemovePlan::Immediate { change_directory: cd, delete_against: if *no_delete_branch { None } else { Some(target) } }
            }
        },
        RemoveResult::BranchOnly { branch_name, no_delete_branch, .. } => {
            RemovePlan::BranchOnly { notice: format_no_worktree_notice(branch_name.as_str(), color), keep_branch: *no_delete_branch }
        },
    }
}

/// What removing a branch that has no worktree comes to: the branch-only
/// removal when the branch exists, else `NoWorktreeFound`.
pub fn missing_worktree_outcome(branch_name: &str, branch_exists: bool, no_delete_branch: bool, force_delete: bool)
    -> (res: Result<RemoveResult, GitError>)
    ensures
        branch_exists <==> res is Ok,
        res matches Ok(r) ==> r matches RemoveResult::BranchOnly { branch_name: b, no_delete_branch: n, force_delete: f }
            && b@ == branch_name@ && n == no_delete_branch && f == force_delete,
        res matches Err(e) ==> e matches GitError::NoWorktreeFound { branch } && branch@ == branch_name@,
{
    if branch_exists {
        Ok(RemoveResult::BranchOnly { branch_name: branch_name.to_owned(), no_delete_branch, force_delete })
    } else {
        Err(GitError::NoWorktreeFound { branch: branch_name.to_owned() })
    }
}

/// What is known of the worktree of a branch being removed: its path,
/// whether that directory exists, and whether its working tree is clean.
pub struct WorktreeProbe {
    pub path: String,
    pub exists: bool,
    pub clean: bool,
}

/// Removing the worktree of `branch_name`. Without a worktree it is the
/// branch-only removal when the branch exists, else `NoWorktreeFound`; a
/// worktree whose directory is gone is `WorktreeMissing`; one with
/// uncommitted changes is refused (`UncommittedChanges`, "remove
/// worktree"); otherwise the worktree is removed, changing directory to the
/// main worktree (`main_path`) exactly when it is the current one
/// (`current_root`), and nothing is deleted yet.
pub fn removal_outcome(
    branch_name: &str,
    worktree: Option<WorktreeProbe>,
    branch_exists: bool,
    no_delete_branch: bool,
    force_delete: bool,
    current_root: &str,
    main_path: &str,
) -> (res: Result<RemoveResult, GitError>)
    ensures
        match worktree {
            None => if branch_exists {
                res matches Ok(RemoveResult::BranchOnly { branch_name: b, no_delete_branch: n, force_delete: f })
                    && b@ == branch_name@ && n == no_delete_branch && f == force_delete
            } else {
                res matches Err(GitError::NoWorktreeFound { branch }) && branch@ == branch_name@
            },
            Some(w) => if !w.exists {
                res matches Err(GitError::WorktreeMissing { branch }) && branch@ == branch_name@
            } else if !w.clean {
                res matches Err(GitError::UncommittedChanges { action, worktree: wt })
                    && (action matches Some(a) && a@ == "remove worktree"@) && wt is None
            } else {
                res matches Ok(RemoveResult::RemovedWorktree {
                    main_path: m, worktree_path: p, changed_directory, branch_name: b, no_delete_branch: n,
                    force_delete: f, target_branch })
                    && p@ == w.path@ && changed_directory == (w.path@ == current_root@)
                    && m@ == (if w.path@ == current_root@ { main_path@ } else { current_root@ })
                    && b@ == branch_name@ && n == no_delete_branch && f == force_delete && target_branch is None
            },
        },
{
    let w = match worktree {
        None => return missing_worktree_outcome(branch_name, branch_exists, no_delete_branch, force_delete),
        Some(w) => w,
    };
    if !w.exists {
        return Err(GitError::WorktreeMissing { branch: branch_name.to_owned() });
    }
    if !w.clean {
        return Err(GitError::UncommittedChanges { action: Some("remove worktree".to_owned()), worktree: None });
    }
    let removing_current = str_eq(w.path.as_str(), current_root);
    let main = if removing_current { main_path.to_owned() } else { current_root.to_owned() };
    Ok(RemoveResult::RemovedWorktree {
        main_path: main,
        worktree_path: w.path,
        changed_directory: removing_current,
        branch_name: branch_name.to_owned(),
        no_delete_branch,
        force_delete,
        target_branch: None,
    })
}

/// What follows removing a worktree at once: when the removal failed, the
/// error names the branch and the worktree's path and carries git's message,
/// and nothing more is done (the branch is kept, no success is reported);
/// otherwise the branch is checked for deletion against `delete_against`
/// (`None`: the branch is kept).
pub fn after_worktree_removal(
    branch_name: &str,
    worktree_path: &str,
    delete_against: Option<String>,
    removal: Result<(), String>,
) -> (res: Result<Option<String>, GitError>)
    ensures
        match removal {
            Err(e) => res matches Err(GitError::WorktreeRemovalFailed { branch, path, error })
                && branch@ == branch_name@ && path@ == worktree_path@ && error@ == e@,
            Ok(_) => res matches Ok(d) && d == delete_against,
        },
{
    match removal {
        Err(e) => Err(GitError::WorktreeRemovalFailed {
            branch: branch_name.to_owned(),
            path: worktree_path.to_owned(),
            error: e,
        }),
        Ok(_) => Ok(delete_against),
    }
}

/// A removed worktree's branch is deleted exactly when the user did not ask
/// to keep it (`--no-delete-branch`) and either forced the deletion
/// (`--force-delete`) or its work is integrated: a plain removal keeps a
/// branch with unmerged work.
pub proof fn lemma_branch_deletion_rule(no_delete_branch: bool, force_delete: bool, integrated: bool)
    ensures
        deletes_branch(policy_for(no_delete_branch, force_delete), integrated)
            == (!no_delete_branch && (force_delete || integrated)),
{
}

/// Only a forced deletion removes a branch whose work is not integrated.
pub proof fn lemma_unintegrated_needs_force(policy: DeletionPolicy)
    ensures
        deletes_branch(policy, false) ==> policy == DeletionPolicy::Force,
        policy == DeletionPolicy::Force ==> deletes_branch(policy, false),
{
}

} // verus!

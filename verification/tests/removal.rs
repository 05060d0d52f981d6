use worktrunk::remove::after_worktree_removal;
use worktrunk::remove::{removal_outcome, WorktreeProbe};
use worktrunk::error::GitError;
use worktrunk::remove::missing_worktree_outcome;
use worktrunk::remove::{
    build_remove_command, deletion_policy, format_background_removal_message, format_branch_removed,
    format_no_worktree_notice, format_not_deleted_warning, format_remove_worktree_message, get_flag_note,
    handle_remove_output, should_delete_branch, DeletionPolicy, RemovePlan, RemoveResult,
};

#[test]
fn flag_notes() {
    assert_eq!(get_flag_note(true, true, true), " (--no-delete-branch)");
    assert_eq!(get_flag_note(false, true, true), " (--force-delete)");
    assert_eq!(get_flag_note(false, true, false), "");
    assert_eq!(get_flag_note(false, false, true), "");
}

#[test]
fn removal_messages() {
    assert_eq!(
        format_remove_worktree_message("~/repo", true, "feat", None, false, false, true, false),
        "✅ Removed worktree & branch for feat, changed directory to ~/repo"
    );
    assert_eq!(
        format_remove_worktree_message("~/repo", false, "feat", Some("shown"), true, false, false, false),
        "✅ Removed worktree for shown (--no-delete-branch)"
    );
    assert_eq!(
        format_background_removal_message("feat", false, true, true, false),
        "🔄 Removing feat worktree & branch in background (--force-delete)"
    );
    assert_eq!(
        format_background_removal_message("feat", false, false, false, false),
        "🔄 Removing feat worktree in background; retaining unmerged branch"
    );
    assert_eq!(format_no_worktree_notice("feat", false), "⚪ No worktree found for branch feat");
    assert_eq!(format_branch_removed("feat", true, false), "✅ Removed branch feat (--force-delete)");
    let (w, g) = format_not_deleted_warning("feat", None, false);
    assert_eq!(w, "🟡 Could not delete branch feat");
    assert_eq!(g, "   error: the branch 'feat' is not fully merged\n");
}

#[test]
fn background_command_escapes_arguments() {
    assert_eq!(
        build_remove_command("/tmp/my wt", "feat", true),
        "git -C '/tmp/my wt' fsmonitor--daemon stop 2>/dev/null || true && git worktree remove '/tmp/my wt' && git branch -D feat"
    );
    assert_eq!(
        build_remove_command("/tmp/wt", "a'b", false),
        "git -C /tmp/wt fsmonitor--daemon stop 2>/dev/null || true && git worktree remove /tmp/wt"
    );
}

#[test]
fn deletion_policy_decides_branch_fate() {
    assert_eq!(deletion_policy(true, true), DeletionPolicy::Retain);
    assert_eq!(deletion_policy(false, true), DeletionPolicy::Force);
    assert_eq!(deletion_policy(false, false), DeletionPolicy::IfIntegrated);
    assert!(!should_delete_branch(DeletionPolicy::Retain, true));
    assert!(should_delete_branch(DeletionPolicy::Force, false));
    assert!(should_delete_branch(DeletionPolicy::IfIntegrated, true));
}

#[test]
fn remove_output_plans() {
    let r = RemoveResult::RemovedWorktree {
        main_path: "/repo".into(),
        worktree_path: "/repo.feat".into(),
        changed_directory: true,
        branch_name: "feat".into(),
        no_delete_branch: false,
        force_delete: false,
        target_branch: None,
    };
    match handle_remove_output(&r, true, false) {
        RemovePlan::Background { change_directory, policy, check_target } => {
            assert_eq!(change_directory.as_deref(), Some("/repo"));
            assert_eq!(policy, DeletionPolicy::IfIntegrated);
            assert_eq!(check_target, "HEAD");
        }
        _ => panic!("expected background removal"),
    }
    match handle_remove_output(&r, false, false) {
        RemovePlan::Immediate { delete_against, .. } => assert_eq!(delete_against.as_deref(), Some("HEAD")),
        _ => panic!("expected immediate removal"),
    }
    let b = RemoveResult::BranchOnly { branch_name: "x".into(), no_delete_branch: true, force_delete: false };
    match handle_remove_output(&b, true, false) {
        RemovePlan::BranchOnly { notice, keep_branch } => {
            assert_eq!(notice, "⚪ No worktree found for branch x");
            assert!(keep_branch);
        }
        _ => panic!("expected branch-only removal"),
    }
}

#[test]
fn missing_worktree_outcomes() {
    match missing_worktree_outcome("feat", true, false, true) {
        Ok(RemoveResult::BranchOnly { branch_name, no_delete_branch, force_delete }) => {
            assert_eq!(branch_name, "feat");
            assert!(!no_delete_branch && force_delete);
        }
        _ => panic!("expected a branch-only removal"),
    }
    assert!(matches!(missing_worktree_outcome("feat", false, false, false), Err(GitError::NoWorktreeFound { .. })));
}


fn probe(path: &str, exists: bool, clean: bool) -> Option<WorktreeProbe> {
    Some(WorktreeProbe { path: path.to_string(), exists, clean })
}

#[test]
fn removal_without_a_worktree() {
    let r = removal_outcome("feature", None, true, false, true, "/repo", "/repo");
    assert!(matches!(r, Ok(RemoveResult::BranchOnly { ref branch_name, no_delete_branch: false, force_delete: true })
        if branch_name == "feature"));
    let r = removal_outcome("feature", None, false, false, false, "/repo", "/repo");
    assert!(matches!(r, Err(GitError::NoWorktreeFound { ref branch }) if branch == "feature"));
}

#[test]
fn removal_of_a_missing_or_dirty_worktree() {
    let r = removal_outcome("feature", probe("/wt", false, true), true, false, false, "/repo", "/repo");
    assert!(matches!(r, Err(GitError::WorktreeMissing { ref branch }) if branch == "feature"));
    let r = removal_outcome("feature", probe("/wt", true, false), true, false, false, "/repo", "/repo");
    assert!(matches!(r, Err(GitError::UncommittedChanges { action: Some(ref a), worktree: None }) if a == "remove worktree"));
}

#[test]
fn removal_of_the_current_worktree_changes_directory() {
    let r = removal_outcome("feature", probe("/wt", true, true), true, true, false, "/wt", "/repo");
    match r {
        Ok(RemoveResult::RemovedWorktree { main_path, worktree_path, changed_directory, branch_name, no_delete_branch, force_delete, target_branch }) => {
            assert_eq!(main_path, "/repo");
            assert_eq!(worktree_path, "/wt");
            assert!(changed_directory);
            assert_eq!(branch_name, "feature");
            assert!(no_delete_branch);
            assert!(!force_delete);
            assert_eq!(target_branch, None);
        }
        _ => panic!("expected a removed worktree"),
    }
    let r = removal_outcome("feature", probe("/wt", true, true), true, false, false, "/other", "/repo");
    match r {
        Ok(RemoveResult::RemovedWorktree { main_path, changed_directory, .. }) => {
            assert_eq!(main_path, "/other");
            assert!(!changed_directory);
        }
        _ => panic!("expected a removed worktree"),
    }
}

#[test]
fn failed_worktree_removal_names_branch_and_path() {
    let r = after_worktree_removal("feature", "/wt", Some("main".to_string()), Err("locked".to_string()));
    assert!(matches!(r, Err(GitError::WorktreeRemovalFailed { ref branch, ref path, ref error })
        if branch == "feature" && path == "/wt" && error == "locked"));
    let r = after_worktree_removal("feature", "/wt", Some("main".to_string()), Ok(()));
    assert!(matches!(r, Ok(Some(ref t)) if t == "main"));
    let r = after_worktree_removal("feature", "/wt", None, Ok(()));
    assert!(matches!(r, Ok(None)));
}

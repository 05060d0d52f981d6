use worktrunk::error::{exit_code, format_error_block, is_command_not_approved, GitError, WorktrunkError};
use worktrunk::git::HookType;

#[test]
fn test_pattern_matching_with_into() {
    let err = GitError::BranchAlreadyExists { branch: "main".into() };
    if let GitError::BranchAlreadyExists { branch } = &err {
        assert_eq!(branch, "main");
    } else {
        panic!("Failed to downcast and pattern match");
    }
}

#[test]
fn test_git_error_display_contains_emoji() {
    let err = GitError::DetachedHead { action: None };
    let output = err.message(true, None);
    assert!(output.contains("❌"));
    assert!(output.contains("detached HEAD"));
    assert!(output.contains("💡"));
}

#[test]
fn test_git_error_display_includes_action() {
    let err = GitError::DetachedHead { action: Some("push".into()) };
    assert!(err.message(true, None).contains("Cannot push"));
    let err = GitError::UncommittedChanges { action: Some("remove worktree".into()), worktree: None };
    assert!(err.message(true, None).contains("Cannot remove worktree"));
    let err = GitError::UncommittedChanges {
        action: Some("remove worktree".into()),
        worktree: Some("feature-branch".into()),
    };
    let output = err.message(true, None);
    assert!(output.contains("Cannot remove worktree"));
    assert!(output.contains("feature-branch"));
}

#[test]
fn test_into_preserves_type_for_display() {
    let err = GitError::BranchAlreadyExists { branch: "main".into() };
    let output = err.message(true, None);
    assert!(output.contains("❌"));
    assert!(output.contains("main"));
    assert!(output.contains("already exists"));
}

#[test]
fn test_worktree_error_with_path() {
    let err = GitError::WorktreePathExists { path: "/some/path".into() };
    assert!(err.message(true, None).contains("Directory already exists"));
}

#[test]
fn plain_messages_have_exact_text() {
    let err = GitError::DetachedHead { action: None };
    assert_eq!(
        err.message(false, None),
        "❌ Not on a branch (detached HEAD)\n\n💡 Switch to a branch first with git switch <branch>"
    );
    let err = GitError::NoWorktreeFound { branch: "topic".into() };
    assert_eq!(err.message(false, None), "❌ No worktree found for branch topic");
    assert_eq!(GitError::CommandNotApproved.message(false, None), "");
}

#[test]
fn colored_message_wraps_bold_parts() {
    let err = GitError::NoWorktreeFound { branch: "topic".into() };
    assert_eq!(
        err.message(true, None),
        "\u{1b}[31m❌ No worktree found for branch \u{1b}[1m\u{1b}[31mtopic\u{1b}[0m\u{1b}[31m\u{1b}[0m"
    );
}

#[test]
fn paths_under_home_are_shortened_in_messages() {
    let err = GitError::WorktreePathExists { path: "/home/u/src/wt".into() };
    assert!(err.message(false, Some("/home/u")).contains("~/src/wt"));
}

#[test]
fn hook_not_found_lists_available_names() {
    let err = GitError::HookCommandNotFound { name: "lint".into(), available: vec!["test".into(), "build".into()] };
    assert_eq!(err.message(false, None), "❌ No command named lint (available: test, build)");
    let none = GitError::HookCommandNotFound { name: "lint".into(), available: vec![] };
    assert_eq!(none.message(false, None), "❌ No command named lint (hook has no named commands)");
}

#[test]
fn error_block_quotes_details_in_gutter() {
    assert_eq!(format_error_block("head".to_string(), "  \n ", false), "head");
    assert_eq!(format_error_block("head".to_string(), "line1\nline2\n", false), "head\n   line1\n   line2\n");
}

#[test]
fn exit_codes_come_from_child_processes_and_hooks() {
    let child = WorktrunkError::ChildProcessExited { code: 3, message: "boom".into() };
    assert_eq!(exit_code(Some(&child)), Some(3));
    let hook = WorktrunkError::HookCommandFailed {
        hook_type: HookType::PreMerge,
        command_name: None,
        error: "x".into(),
        exit_code: Some(7),
    };
    assert_eq!(exit_code(Some(&hook)), Some(7));
    assert_eq!(exit_code(Some(&WorktrunkError::CommandNotApproved)), None);
    assert_eq!(exit_code(None), None);
    assert!(is_command_not_approved(Some(&WorktrunkError::CommandNotApproved)));
    assert!(!is_command_not_approved(Some(&child)));
}

#[test]
fn hook_failure_message_names_hook_and_hint() {
    let hook = WorktrunkError::HookCommandFailed {
        hook_type: HookType::PreMerge,
        command_name: Some("lint".into()),
        error: "exit 1".into(),
        exit_code: Some(1),
    };
    assert_eq!(
        hook.message(false),
        "❌ pre-merge command failed: lint: exit 1\n\n💡 Use --no-verify to skip pre-merge commands"
    );
}

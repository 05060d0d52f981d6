use worktrunk::error::GitError;
use worktrunk::stash::{
    autostash_name, changed_files_of_status, check_target_overlap, find_stash_ref, restore_failed_message,
    stash_not_found_message, stash_saved, stashing_message, AutoStageWarning,
};

#[test]
fn untracked_files_are_collected() {
    let w = AutoStageWarning::from_status(" M src/lib.rs\n?? new.txt\n?? dir/other.rs\nA  added.rs\n");
    assert_eq!(w.files, vec!["new.txt".to_string(), "dir/other.rs".to_string()]);
    let (warning, list) = w.message(false).unwrap();
    assert_eq!(warning, "🟡 Auto-staging 2 untracked files:");
    assert_eq!(list, "   new.txt\n   dir/other.rs\n");
    let one = AutoStageWarning::from_status("?? a\n");
    assert_eq!(one.message(false).unwrap().0, "🟡 Auto-staging 1 untracked file:");
    assert!(AutoStageWarning::from_status(" M x\n").message(false).is_none());
}

#[test]
fn status_lines_name_files_after_first_space() {
    assert_eq!(
        changed_files_of_status(" M src/a.rs\n?? b.txt\nR  old.rs -> new.rs\nMM c d.rs\nab\n"),
        vec!["src/a.rs".to_string(), "b.txt".to_string(), "new.rs".to_string(), "c d.rs".to_string()]
    );
}

#[test]
fn overlapping_changes_block_the_push() {
    let pushed = vec!["src/a.rs".to_string(), "README.md".to_string()];
    assert!(check_target_overlap(&pushed, "?? other.rs\n", "/wt").is_ok());
    match check_target_overlap(&pushed, "?? README.md\n?? src/a.rs\n", "/wt") {
        Err(GitError::ConflictingChanges { files, worktree_path }) => {
            assert_eq!(files, vec!["src/a.rs".to_string(), "README.md".to_string()]);
            assert_eq!(worktree_path, "/wt");
        }
        _ => panic!("expected conflicting changes"),
    }
}

#[test]
fn autostash_entry_is_found_by_name() {
    let name = autostash_name("main", 42, 1234567890123);
    assert_eq!(name, "worktrunk autostash::main::42::1234567890123");
    let list = format!("stash@{{0}}\0On feature: {name}\0stash@{{1}}\0other\0");
    assert_eq!(find_stash_ref(&list, &name).as_deref(), Some("stash@{0}"));
    assert_eq!(find_stash_ref("stash@{0}\0unrelated\0", &name), None);
    assert_eq!(find_stash_ref("", &name), None);
    assert!(stash_saved("Saved working directory"));
    assert!(!stash_saved("No local changes to save"));
    assert_eq!(stash_not_found_message("x"), "Failed to locate autostash entry 'x'");
}

#[test]
fn stash_progress_and_restore_messages() {
    assert_eq!(stashing_message("~/wt", false), "🔄 Stashing changes in ~/wt...");
    assert_eq!(
        restore_failed_message("stash@{0}", "~/wt", false),
        "🟡 Failed to restore stash stash@{0} - run 'git stash pop stash@{0}' in ~/wt"
    );
}

#[test]
fn unstaged_edits_overlap_the_push() {
    let pushed = vec!["src/a.rs".to_string()];
    match check_target_overlap(&pushed, " M src/a.rs\n", "/wt") {
        Err(GitError::ConflictingChanges { files, .. }) => assert_eq!(files, vec!["src/a.rs".to_string()]),
        _ => panic!("expected conflicting changes"),
    }
}

use worktrunk::git::{
    branch_from_head_name, default_branch_of_remote_head, finalize_worktree, worktree_for_branch, parse_worktree_list, wants_rebase_branch, HookType, Worktree, WorktreeList,
};
use worktrunk::error::GitError;
use worktrunk::semaphore::Semaphore;

fn wt(path: &str, head: &str, branch: Option<&str>, bare: bool) -> Worktree {
    Worktree {
        path: path.to_string(),
        head: head.to_string(),
        branch: branch.map(|b| b.to_string()),
        bare,
        detached: false,
        locked: None,
        prunable: None,
    }
}

#[test]
fn test_worktree_list_filters_bare() {
    let worktrees = vec![
        wt("/repo", "", None, true),
        wt("/repo/main", "abc123", Some("main"), false),
        wt("/repo/feature", "def456", Some("feature"), false),
    ];
    let list = WorktreeList::from_raw(worktrees).unwrap();
    assert_eq!(list.len(), 2);
    assert_eq!(list.all().len(), 2);
    assert_eq!(list.all()[0].branch, Some("main".to_string()));
    assert_eq!(list.all()[1].branch, Some("feature".to_string()));
}

#[test]
fn test_worktree_list_primary() {
    let worktrees = vec![wt("/repo", "", None, true), wt("/repo/main", "abc123", Some("main"), false)];
    let list = WorktreeList::from_raw(worktrees).unwrap();
    assert_eq!(list.primary().branch, Some("main".to_string()));
    assert_eq!(list.primary().path, "/repo/main".to_string());
}

#[test]
fn test_worktree_list_all_bare_error() {
    let worktrees = vec![wt("/repo", "", None, true)];
    let result = WorktreeList::from_raw(worktrees);
    assert!(result.is_err());
    let message = result.unwrap_err().message(false, None);
    assert!(message.contains("No worktrees found"));
}

#[test]
fn test_worktree_list_iteration() {
    let worktrees = vec![
        wt("/repo/main", "abc123", Some("main"), false),
        wt("/repo/feature", "def456", Some("feature"), false),
    ];
    let list = WorktreeList::from_raw(worktrees).unwrap();
    let branches: Vec<_> = list.iter().filter_map(|wt| wt.branch.as_ref()).collect();
    assert_eq!(branches, vec!["main", "feature"]);
    let branches_owned: Vec<_> = list.into_iter().filter_map(|wt| wt.branch).collect();
    assert_eq!(branches_owned, vec!["main".to_string(), "feature".to_string()]);
}

#[test]
fn worktree_list_is_never_empty() {
    let list = WorktreeList::from_raw(vec![wt("/a", "1", Some("a"), false)]).unwrap();
    assert!(!list.is_empty());
    assert!(WorktreeList::from_raw(Vec::new()).is_err());
}

#[test]
fn rebase_branch_fills_detached_worktree() {
    let mut w = wt("/repo/x", "abc", None, false);
    w.detached = true;
    assert!(wants_rebase_branch(&w));
    let f = finalize_worktree(w.clone(), Some("topic".to_string()));
    assert_eq!(f.branch.as_deref(), Some("topic"));
    let g = finalize_worktree(w, None);
    assert_eq!(g.branch, None);
    let on_branch = wt("/repo/y", "abc", Some("main"), false);
    assert!(!wants_rebase_branch(&on_branch));
    assert_eq!(finalize_worktree(on_branch, Some("other".into())).branch.as_deref(), Some("main"));
}

#[test]
fn head_name_loses_refs_heads_prefix() {
    assert_eq!(branch_from_head_name("refs/heads/feature/x\n"), "feature/x");
    assert_eq!(branch_from_head_name("  detached-name  "), "detached-name");
}

#[test]
fn hook_type_names_are_kebab_case() {
    assert_eq!(HookType::PostCreate.name(), "post-create");
    assert_eq!(HookType::PreRemove.name(), "pre-remove");
    assert_eq!(HookType::PostSwitch.name(), "post-switch");
}

#[test]
fn semaphore_limits_permits_and_restores_them() {
    let mut sem = Semaphore::new(2);
    let a = sem.acquire().expect("first permit");
    let b = sem.acquire().expect("second permit");
    assert!(sem.acquire().is_none());
    sem.release(a);
    let c = sem.acquire().expect("released permit is available again");
    assert!(sem.acquire().is_none());
    sem.release(b);
    sem.release(c);
    assert!(sem.acquire().is_some());
}

#[test]
fn semaphore_without_permits_never_grants() {
    let mut sem = Semaphore::new(0);
    assert!(sem.acquire().is_none());
}

#[test]
fn parse_porcelain_worktree_list() {
    let output = "worktree /repo\nbare\n\nworktree /repo/main\nHEAD abc123\nbranch refs/heads/main\n\n\
worktree /repo/feature\nHEAD def456\ndetached\nlocked being moved\nprunable\n";
    let wts = parse_worktree_list(output).unwrap();
    assert_eq!(wts.len(), 3);
    assert_eq!(wts[0].path, "/repo");
    assert!(wts[0].bare);
    assert_eq!(wts[1].path, "/repo/main");
    assert_eq!(wts[1].head, "abc123");
    assert_eq!(wts[1].branch.as_deref(), Some("main"));
    assert!(!wts[1].detached);
    assert_eq!(wts[2].branch, None);
    assert!(wts[2].detached);
    assert_eq!(wts[2].locked.as_deref(), Some("being moved"));
    assert_eq!(wts[2].prunable.as_deref(), Some(""));
    let list = WorktreeList::from_raw(wts).unwrap();
    assert_eq!(list.len(), 2);
    assert_eq!(list.primary().path, "/repo/main");
}

#[test]
fn parse_porcelain_edge_cases() {
    assert!(parse_worktree_list("").unwrap().is_empty());
    // A record without a trailing blank line is still finished; a new
    // `worktree` line ends the previous record.
    let wts = parse_worktree_list("worktree /a\nbranch feature\nworktree /b").unwrap();
    assert_eq!(wts.len(), 2);
    assert_eq!(wts[0].branch.as_deref(), Some("feature"));
    assert_eq!(wts[1].path, "/b");
    // Lines before any record are ignored.
    assert!(parse_worktree_list("HEAD abc\n").unwrap().is_empty());
    match parse_worktree_list("worktree\n") {
        Err(GitError::ParseError { message }) => assert_eq!(message, "worktree line without a path"),
        other => panic!("unexpected {:?}", other),
    }
}

#[test]
fn default_branch_and_branch_lookup() {
    assert_eq!(default_branch_of_remote_head("origin/main\n", "origin"), "main");
    assert_eq!(default_branch_of_remote_head("upstream/dev", "origin"), "upstream/dev");
    let wts = vec![wt("/a", "1", Some("main"), false), wt("/b", "2", None, false), wt("/c", "3", Some("feat"), false)];
    assert_eq!(worktree_for_branch(&wts, "feat"), Some(2));
    assert_eq!(worktree_for_branch(&wts, "main"), Some(0));
    assert_eq!(worktree_for_branch(&wts, "nope"), None);
}

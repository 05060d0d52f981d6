use worktrunk::hooks::{expand_commands, hook_vars, repo_name_of, CommandTemplate};
use worktrunk::error::{GitError, WorktrunkError};
use worktrunk::git::HookType;
use worktrunk::hooks::{
    background_operation_name, filter_by_name, pre_commit_vars, spawn_failure_message, HookFailureStrategy, HookRun,
    HookStep, PreparedCommand,
};

fn cmd(name: Option<&str>, expanded: &str) -> PreparedCommand {
    PreparedCommand { name: name.map(|n| n.to_string()), expanded: expanded.to_string() }
}

#[test]
fn name_filter_keeps_matching_commands() {
    let cs = vec![cmd(Some("lint"), "a"), cmd(None, "b"), cmd(Some("test"), "c"), cmd(Some("lint"), "d")];
    let kept = filter_by_name(cs, Some("lint")).unwrap();
    assert_eq!(kept.len(), 2);
    assert_eq!(kept[1].expanded, "d");
    let all = filter_by_name(vec![cmd(None, "x")], None).unwrap();
    assert_eq!(all.len(), 1);
}

#[test]
fn unknown_name_lists_available_commands() {
    let cs = vec![cmd(Some("lint"), "a"), cmd(None, "b"), cmd(Some("test"), "c")];
    match filter_by_name(cs, Some("fmt")) {
        Err(GitError::HookCommandNotFound { name, available }) => {
            assert_eq!(name, "fmt");
            assert_eq!(available, vec!["lint".to_string(), "test".to_string()]);
        }
        _ => panic!("expected HookCommandNotFound"),
    }
}

#[test]
fn fail_fast_stops_at_first_failure() {
    let mut run = HookRun::new(HookType::PreCommit, HookFailureStrategy::FailFast);
    assert!(matches!(run.record(Some("a".into()), Ok(()), false), HookStep::Continue));
    match run.record(Some("b".into()), Err(("exit status: 2".into(), Some(2))), false) {
        HookStep::Fail(WorktrunkError::HookCommandFailed { hook_type, command_name, error, exit_code }) => {
            assert_eq!(hook_type, HookType::PreCommit);
            assert_eq!(command_name.as_deref(), Some("b"));
            assert_eq!(error, "exit status: 2");
            assert_eq!(exit_code, Some(2));
        }
        _ => panic!("expected failure"),
    }
    assert!(run.finish().is_ok());
}

#[test]
fn warn_continues_and_post_merge_reports_first_failure() {
    let mut run = HookRun::new(HookType::PostMerge, HookFailureStrategy::Warn);
    match run.record(Some("a".into()), Err(("boom".into(), None)), false) {
        HookStep::Warn(w) => assert_eq!(w, "🟡 Command a failed: boom"),
        _ => panic!("expected a warning"),
    }
    match run.record(None, Err(("bang".into(), Some(5))), false) {
        HookStep::Warn(w) => assert_eq!(w, "🟡 Command failed: bang"),
        _ => panic!("expected a warning"),
    }
    match run.finish() {
        Err(WorktrunkError::HookCommandFailed { command_name, error, exit_code, .. }) => {
            assert_eq!(command_name.as_deref(), Some("a"));
            assert_eq!(error, "boom");
            assert_eq!(exit_code, Some(1));
        }
        _ => panic!("expected the first failure"),
    }
}

#[test]
fn warn_on_other_hooks_never_fails() {
    let mut run = HookRun::new(HookType::PostCreate, HookFailureStrategy::Warn);
    assert!(matches!(run.record(None, Err(("x".into(), Some(3))), false), HookStep::Warn(_)));
    assert!(run.finish().is_ok());
}

#[test]
fn background_hook_names_and_messages() {
    assert_eq!(background_operation_name(Some("server")), "post-start-server");
    assert_eq!(background_operation_name(None), "post-start-cmd");
    assert_eq!(spawn_failure_message(Some("srv"), "no sh", false), "🟡 Failed to spawn \"srv\": no sh");
    assert_eq!(spawn_failure_message(None, "no sh", false), "🟡 Failed to spawn command: no sh");
    assert!(pre_commit_vars(None).is_empty());
    assert_eq!(pre_commit_vars(Some("main")), vec![("target".to_string(), "main".to_string())]);
}

#[test]
fn repository_names_and_hook_variables() {
    assert_eq!(repo_name_of(Some("/src/worktrunk")), "worktrunk");
    assert_eq!(repo_name_of(Some("/src/worktrunk/")), "worktrunk");
    assert_eq!(repo_name_of(Some("/src/worktrunk/.")), "worktrunk");
    assert_eq!(repo_name_of(Some("/src/..")), "unknown");
    assert_eq!(repo_name_of(Some("/")), "unknown");
    assert_eq!(repo_name_of(Some(".")), "unknown");
    assert_eq!(repo_name_of(None), "unknown");
    let vars = hook_vars("repo", "feat/x", "/wt", "/repo", &vec![("target".to_string(), "main".to_string())]);
    assert_eq!(vars.len(), 6);
    assert_eq!(vars[1], ("branch".to_string(), "feat-x".to_string()));
    assert_eq!(vars[3], ("worktree_name".to_string(), "wt".to_string()));
    assert_eq!(vars[5], ("target".to_string(), "main".to_string()));
}

#[test]
fn expand_commands_keeps_names_and_order() {
    let commands = vec![
        CommandTemplate { name: Some("build".to_string()), template: "make {{ branch }}".to_string() },
        CommandTemplate { name: None, template: "cd {{ worktree }} && echo {{ target }}".to_string() },
    ];
    let extra = vec![("target".to_string(), "main".to_string())];
    let out = expand_commands(&commands, "repo", "feature/x", "/tmp/my wt", "/r", &extra).unwrap();
    assert_eq!(out.len(), 2);
    assert_eq!(out[0].name.as_deref(), Some("build"));
    assert_eq!(out[0].expanded, "make feature-x");
    assert_eq!(out[1].name, None);
    assert_eq!(out[1].expanded, "cd '/tmp/my wt' && echo main");
    assert!(expand_commands(&Vec::new(), "repo", "b", "/w", "/r", &Vec::new()).unwrap().is_empty());
}

#[test]
fn expand_commands_stops_at_a_broken_template() {
    let commands = vec![
        CommandTemplate { name: None, template: "echo ok".to_string() },
        CommandTemplate { name: None, template: "echo {{ unclosed".to_string() },
    ];
    let err = expand_commands(&commands, "repo", "b", "/w", "/r", &Vec::new()).unwrap_err();
    assert!(err.starts_with("Template syntax error: "), "{}", err);
}

use worktrunk::switch::{switch_hooks_to_spawn, switch_steps};
use worktrunk::switch::{
    already_at_message, cannot_cd_warning, shell_integration_hint, switch_notice, SwitchKind, SwitchNotice,
};
use worktrunk::git::HookType;
use worktrunk::switch::{
    base_vars, build_execute_command, declined_notice, format_switch_success_message, hooks_skipped, hooks_to_approve,
    SwitchOptions,
};

#[test]
fn hooks_depend_on_creation() {
    assert_eq!(hooks_to_approve(true), vec![HookType::PostCreate, HookType::PostStart, HookType::PostSwitch]);
    assert_eq!(hooks_to_approve(false), vec![HookType::PostSwitch]);
    assert!(hooks_skipped(false, true));
    assert!(hooks_skipped(true, false));
    assert!(!hooks_skipped(true, true));
    assert_eq!(declined_notice(true), "⚪ Commands declined, continuing worktree creation");
    assert_eq!(declined_notice(false), "⚪ Commands declined");
}

#[test]
fn base_variables_when_known() {
    assert_eq!(
        base_vars(Some("main"), Some("/repo")),
        vec![("base".to_string(), "main".to_string()), ("base_worktree_path".to_string(), "/repo".to_string())]
    );
    assert!(base_vars(None, None).is_empty());
}

#[test]
fn execute_command_expands_and_quotes_arguments() {
    let vars = vec![("branch".to_string(), "feat x".to_string())];
    let args: Vec<String> = vec!["--name={{ branch }}".into(), "plain".into(), "".into()];
    let cmd = build_execute_command("echo {{ branch }}", &args, &vars).unwrap();
    assert_eq!(cmd, "echo 'feat x' '--name=feat x' plain ''");
    assert_eq!(build_execute_command("ls", &[], &vars).unwrap(), "ls");
    let err = build_execute_command("echo {{ branch", &[], &vars).unwrap_err();
    assert!(err.starts_with("Failed to expand --execute template: Template syntax error"), "{err}");
    let err = build_execute_command("ls", &["{{ x".to_string()], &vars).unwrap_err();
    assert!(err.starts_with("Failed to expand argument template: "), "{err}");
}

#[test]
fn switch_options_carry_flags() {
    let args: Vec<String> = vec![];
    let o = SwitchOptions {
        branch: "feat",
        create: true,
        base: Some("main"),
        execute: None,
        execute_args: &args,
        yes: false,
        clobber: false,
        verify: true,
    };
    assert!(o.create && o.verify);
    assert_eq!(o.base, Some("main"));
}

#[test]
fn switch_notices() {
    assert_eq!(switch_notice(SwitchKind::AlreadyAt, false, false, false), SwitchNotice::AlreadyAt);
    assert_eq!(switch_notice(SwitchKind::Existing, false, false, false), SwitchNotice::CannotCd);
    assert_eq!(switch_notice(SwitchKind::Existing, false, false, true), SwitchNotice::Success { hint: false });
    assert_eq!(switch_notice(SwitchKind::Created, false, false, true), SwitchNotice::Success { hint: true });
    assert_eq!(switch_notice(SwitchKind::Created, true, false, false), SwitchNotice::Success { hint: false });
    assert_eq!(already_at_message("feat", "~/wt", false), "⚪ Already on worktree for feat at ~/wt");
    assert_eq!(
        cannot_cd_warning("feat", "~/wt", false),
        "🟡 Worktree for feat at ~/wt; cannot cd (no shell integration)"
    );
    assert_eq!(shell_integration_hint(false), "💡 Run `wt config shell install` to enable automatic cd");
}

#[test]
fn switch_success_messages_name_the_source() {
    assert_eq!(
        format_switch_success_message("feat", "~/wt", true, Some("main"), None, false),
        "✅ Created new worktree for feat from main at ~/wt"
    );
    assert_eq!(
        format_switch_success_message("feat", "~/wt", true, None, Some("origin/feat"), false),
        "✅ Created new worktree for feat at ~/wt"
    );
    assert_eq!(
        format_switch_success_message("feat", "~/wt", false, None, Some("origin/feat"), false),
        "✅ Created worktree for feat from origin/feat at ~/wt"
    );
    assert_eq!(
        format_switch_success_message("feat", "~/wt", false, Some("main"), None, false),
        "✅ Switched to worktree for feat at ~/wt"
    );
    assert_eq!(
        format_switch_success_message("feat", "/p", false, None, None, true),
        "\u{1b}[32m✅ Switched to worktree for \u{1b}[1m\u{1b}[32mfeat\u{1b}[0m\u{1b}[32m at \u{1b}[1m\u{1b}[32m/p\u{1b}[0m\u{1b}[32m\u{1b}[0m"
    );
}

#[test]
fn hooks_spawned_after_a_switch() {
    assert_eq!(switch_hooks_to_spawn(true, true, false), vec![HookType::PostSwitch]);
    assert_eq!(switch_hooks_to_spawn(true, true, true), vec![HookType::PostSwitch, HookType::PostStart]);
    assert!(switch_hooks_to_spawn(false, true, true).is_empty());
    assert!(switch_hooks_to_spawn(true, false, true).is_empty());
}

#[test]
fn switch_steps_follow_the_plan_and_the_answer() {
    let failed = switch_steps(false, true, true, true, true);
    assert!(!failed.run_execute);
    assert!(!failed.ask_approval);
    assert!(!failed.execute);
    assert!(failed.hooks.is_empty());

    let verified = switch_steps(true, true, true, true, false);
    assert!(!verified.run_execute);
    assert!(verified.ask_approval);
    assert!(verified.execute);
    assert!(!verified.skip_hooks);
    assert_eq!(verified.hooks, vec![HookType::PostSwitch, HookType::PostStart]);

    let declined = switch_steps(true, true, false, false, true);
    assert!(declined.run_execute);
    assert!(declined.ask_approval);
    assert!(declined.execute);
    assert!(declined.skip_hooks);
    assert!(declined.hooks.is_empty());

    let unverified = switch_steps(true, false, true, false, true);
    assert!(unverified.run_execute);
    assert!(!unverified.ask_approval);
    assert!(unverified.skip_hooks);
    assert!(unverified.hooks.is_empty());
}

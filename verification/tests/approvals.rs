use worktrunk::approval::{batch_approval, batch_needs_prompt};
use worktrunk::approval::{
    approval_answer, approval_command_label, approval_prompt_header, approval_question, commands_needing_approval,
    declined_message,
    project_display_name, record_approvals, ApprovalCommand,
};
use worktrunk::git::HookType;

fn cmd(name: Option<&str>, template: &str, phase: HookType) -> ApprovalCommand {
    ApprovalCommand { name: name.map(|n| n.to_string()), template: template.into(), expanded: template.into(), phase }
}

#[test]
fn only_unapproved_commands_need_approval() {
    let cs = vec![cmd(None, "npm ci", HookType::PostCreate), cmd(Some("t"), "cargo test", HookType::PreMerge)];
    let approved = vec!["npm ci".to_string()];
    assert_eq!(commands_needing_approval(&cs, &approved, false), vec![1]);
    assert_eq!(commands_needing_approval(&cs, &approved, true), vec![0, 1]);
    assert!(commands_needing_approval(&cs, &vec!["npm ci".into(), "cargo test".into()], false).is_empty());
}

#[test]
fn declined_notice_names_the_phase() {
    let one = vec![cmd(None, "a", HookType::PreMerge)];
    assert_eq!(declined_message(&one, false), "⚪ pre-merge declined");
    let same = vec![cmd(None, "a", HookType::PostStart), cmd(None, "b", HookType::PostStart)];
    assert_eq!(declined_message(&same, false), "⚪ post-start declined");
    let mixed = vec![cmd(None, "a", HookType::PostStart), cmd(None, "b", HookType::PostCreate)];
    assert_eq!(declined_message(&mixed, false), "⚪ commands declined");
    assert_eq!(declined_message(&one, true), "⚪ \u{1b}[2mpre-merge declined\u{1b}[0m");
}

#[test]
fn prompt_texts() {
    assert_eq!(project_display_name("github.com/acme/widgets"), "widgets");
    assert_eq!(project_display_name("plain"), "plain");
    assert_eq!(approval_prompt_header("github.com/acme/widgets", 1, false), "🟡 widgets wants to execute 1 command:");
    assert_eq!(approval_prompt_header("x/y", 3, false), "🟡 y wants to execute 3 commands:");
    assert_eq!(
        approval_prompt_header("x/y", 2, true),
        "🟡 \u{1b}[33m\u{1b}[1m\u{1b}[33my\u{1b}[0m wants to execute \u{1b}[1m\u{1b}[33m2\u{1b}[0m commands:\u{1b}[0m"
    );
    assert_eq!(approval_command_label(&cmd(Some("lint"), "x", HookType::PreCommit), false), "🔄 pre-commit lint:");
    assert_eq!(approval_command_label(&cmd(None, "x", HookType::PreCommit), false), "🔄 pre-commit:");
    assert_eq!(
        approval_command_label(&cmd(Some("lint"), "x", HookType::PreMerge), true),
        "🔄 pre-merge \u{1b}[1mlint\u{1b}[0m:"
    );
    assert_eq!(approval_question(false), "💡 Allow and remember? [y/N] ");
    assert_eq!(approval_question(true), "💡 Allow and remember? \u{1b}[1m[y/N]\u{1b}[0m ");
}

#[test]
fn answers() {
    assert!(approval_answer("y\n"));
    assert!(approval_answer("  Y "));
    assert!(!approval_answer("yes"));
    assert!(!approval_answer(""));
}

#[test]
fn approvals_are_recorded_once() {
    let mut approved = vec!["a".to_string()];
    assert!(record_approvals(&mut approved, &vec!["b".into(), "a".into(), "b".into()]));
    assert_eq!(approved, vec!["a".to_string(), "b".to_string()]);
    assert!(!record_approvals(&mut approved, &vec!["a".into()]));
}

#[test]
fn recorded_approvals_are_not_asked_again() {
    let batch = vec![cmd(Some("lint"), "npm run lint", HookType::PreMerge), cmd(None, "npm test", HookType::PreMerge)];
    let mut approved = vec!["cargo build".to_string()];
    assert_eq!(commands_needing_approval(&batch, &approved, false), vec![0, 1]);
    let templates: Vec<String> = batch.iter().map(|c| c.template.clone()).collect();
    assert!(record_approvals(&mut approved, &templates));
    assert!(commands_needing_approval(&batch, &approved, false).is_empty());
    assert_eq!(commands_needing_approval(&batch, &approved, true), vec![0, 1]);
}

#[test]
fn batch_approval_shortcuts_and_answers() {
    assert!(!batch_needs_prompt(true, 3));
    assert!(!batch_needs_prompt(false, 0));
    assert!(batch_needs_prompt(false, 2));
    // Under --force, or with nothing to approve, the batch passes and nothing is saved.
    assert_eq!(batch_approval(true, 2, None), (true, false));
    assert_eq!(batch_approval(false, 0, None), (true, false));
    // Otherwise the answer decides, and an approval is saved.
    assert_eq!(batch_approval(false, 2, Some(" Y\n")), (true, true));
    assert_eq!(batch_approval(false, 2, Some("n")), (false, false));
    assert_eq!(batch_approval(false, 2, Some("yes")), (false, false));
    assert_eq!(batch_approval(false, 2, None), (false, false));
}

#[test]
fn recorded_approvals_have_no_duplicates() {
    let mut approved = vec!["npm install".to_string()];
    let templates = vec!["npm install".to_string(), "cargo build".to_string(), "cargo build".to_string()];
    assert!(record_approvals(&mut approved, &templates));
    assert_eq!(approved, vec!["npm install".to_string(), "cargo build".to_string()]);
    assert!(!record_approvals(&mut approved, &templates));
    assert_eq!(approved.len(), 2);
}

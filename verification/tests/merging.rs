use worktrunk::merge::{merge_failure_message, merge_next, merge_start, MergeAction, MergeEvent, MergeStage, MergeStep};
use worktrunk::merge::{
    already_on_target, deterministic_squash_message, generate_squash_message, llm_prompt, llm_reply, needs_switch,
    plan_squash, squash_range, squashed_message, squashing_message, step_failure, SquashPlan,
};
use worktrunk::merge::{cleaning_up_message, merge_complete_message, nothing_to_squash_message, single_commit_message};

#[test]
fn squash_plans() {
    assert_eq!(plan_squash(0, false), SquashPlan::NothingToSquash);
    assert_eq!(plan_squash(0, true), SquashPlan::StagedWithoutCommits);
    assert_eq!(plan_squash(1, false), SquashPlan::SingleCommit);
    assert_eq!(plan_squash(1, true), SquashPlan::Squash(1));
    assert_eq!(plan_squash(4, false), SquashPlan::Squash(4));
}

#[test]
fn squash_message_lists_subjects_oldest_first() {
    let subjects = vec!["third".to_string(), "second".to_string(), "first".to_string()];
    assert_eq!(
        deterministic_squash_message("main", &subjects),
        "Squash commits from main\n\nCombined commits:\n- first\n- second\n- third\n"
    );
    assert_eq!(generate_squash_message("main", &subjects, Some(Ok("feat: x".into()))), "feat: x");
    assert_eq!(
        generate_squash_message("main", &vec![], Some(Err("bad".into()))),
        "Squash commits from main\n\nCombined commits:\n"
    );
    assert!(llm_prompt("main", &subjects).starts_with("Squashing commits on current branch since branching from main\n\nCommits being combined:\n- first\n"));
}

#[test]
fn generator_replies() {
    assert_eq!(llm_reply(true, "  feat: add\n", ""), Ok("feat: add".to_string()));
    assert_eq!(llm_reply(true, "  \n", ""), Err("LLM returned empty message".to_string()));
    assert_eq!(llm_reply(false, "x", "oops"), Err("LLM command failed: oops".to_string()));
}

#[test]
fn merge_steps() {
    assert!(already_on_target("main", "main"));
    assert!(!already_on_target("feat", "main"));
    assert!(needs_switch(None, "main"));
    assert!(!needs_switch(Some("main"), "main"));
    assert_eq!(step_failure("rebase onto", "main", "conflict"), "Failed to rebase onto 'main': conflict");
    assert_eq!(squash_range("abc"), "abc..HEAD");
    assert_eq!(squashing_message(3, false), "🔄 Squashing 3 commits into one...");
    assert_eq!(squashed_message(12, false), "✅ Squashed 12 commits into one");
}

#[test]
fn merge_notes() {
    assert_eq!(nothing_to_squash_message(false), "No commits to squash - already at merge base");
    assert_eq!(
        nothing_to_squash_message(true),
        "\u{1b}[2mNo commits to squash - already at merge base\u{1b}[0m"
    );
    assert_eq!(single_commit_message("main", false), "Only 1 commit since main - no squashing needed");
    assert_eq!(
        single_commit_message("main", true),
        "\u{1b}[2mOnly 1 commit since \u{1b}[1m\u{1b}[36mmain\u{1b}[0m - no squashing needed\u{1b}[0m"
    );
    assert_eq!(cleaning_up_message(false), "🔄 Cleaning up worktree...");
    assert_eq!(merge_complete_message(false), "✅ Merge complete");
}


fn begin(current: Option<&str>, target: &str, squash: bool, keep: bool) -> MergeEvent {
    MergeEvent::Begin { current: current.map(|c| c.to_string()), target: target.to_string(), squash, keep }
}

#[test]
fn merge_with_squash_runs_every_step() {
    let (s, a) = merge_next(merge_start(), begin(Some("feature"), "main", true, false));
    assert!(matches!(a, MergeAction::CheckClean));
    let (s, a) = merge_next(s, MergeEvent::Clean(true));
    assert!(matches!(a, MergeAction::Squash { ref target } if target == "main"));
    let (s, a) = merge_next(s, MergeEvent::StepDone(Ok(())));
    assert!(matches!(a, MergeAction::Rebase { ref target } if target == "main"));
    let (s, a) = merge_next(s, MergeEvent::StepDone(Ok(())));
    assert!(matches!(a, MergeAction::FastForward { ref branch, ref target } if branch == "feature" && target == "main"));
    let (s, a) = merge_next(s, MergeEvent::StepDone(Ok(())));
    assert!(matches!(a, MergeAction::Cleanup { ref branch } if branch == "feature"));
    let (s, a) = merge_next(s, MergeEvent::StepDone(Ok(())));
    assert!(matches!(a, MergeAction::ReadMainBranch));
    let (s, a) = merge_next(s, MergeEvent::MainBranch(Some("develop".to_string())));
    assert!(matches!(a, MergeAction::Switch { ref target } if target == "main"));
    let (s, a) = merge_next(s, MergeEvent::StepDone(Ok(())));
    assert!(matches!(a, MergeAction::Complete));
    assert_eq!(s.stage, MergeStage::Finished);
}

#[test]
fn merge_without_squash_and_with_keep() {
    let (s, _) = merge_next(merge_start(), begin(Some("feature"), "main", false, true));
    let (s, a) = merge_next(s, MergeEvent::Clean(true));
    assert!(matches!(a, MergeAction::Rebase { .. }));
    let (s, a) = merge_next(s, MergeEvent::StepDone(Ok(())));
    assert!(matches!(a, MergeAction::FastForward { .. }));
    let (s, a) = merge_next(s, MergeEvent::StepDone(Ok(())));
    assert!(matches!(a, MergeAction::Complete));
    assert_eq!(s.stage, MergeStage::Finished);
}

#[test]
fn merge_stops_early() {
    let (s, a) = merge_next(merge_start(), begin(None, "main", false, false));
    assert!(matches!(a, MergeAction::ReportDetachedHead));
    assert_eq!(s.stage, MergeStage::Finished);

    let (s, a) = merge_next(merge_start(), begin(Some("main"), "main", false, false));
    assert!(matches!(a, MergeAction::ReportAlreadyOnTarget { ref target } if target == "main"));
    assert_eq!(s.stage, MergeStage::Finished);

    let (s, _) = merge_next(merge_start(), begin(Some("feature"), "main", false, false));
    let (s, a) = merge_next(s, MergeEvent::Clean(false));
    assert!(matches!(a, MergeAction::ReportDirty));
    assert_eq!(s.stage, MergeStage::Finished);
}

#[test]
fn merge_step_failure_ends_the_merge() {
    let (s, _) = merge_next(merge_start(), begin(Some("feature"), "main", false, false));
    let (s, _) = merge_next(s, MergeEvent::Clean(true));
    let (s, a) = merge_next(s, MergeEvent::StepDone(Err("conflict".to_string())));
    assert!(matches!(a, MergeAction::ReportFailure { step: MergeStep::Rebase, ref error } if error == "conflict"));
    assert_eq!(s.stage, MergeStage::Finished);
    let (_, a) = merge_next(s, MergeEvent::Clean(true));
    assert!(matches!(a, MergeAction::Nothing));
}

#[test]
fn main_worktree_already_on_target_is_not_switched() {
    let (s, _) = merge_next(merge_start(), begin(Some("feature"), "main", false, false));
    let (s, _) = merge_next(s, MergeEvent::Clean(true));
    let (s, _) = merge_next(s, MergeEvent::StepDone(Ok(())));
    let (s, _) = merge_next(s, MergeEvent::StepDone(Ok(())));
    let (s, a) = merge_next(s, MergeEvent::StepDone(Ok(())));
    assert!(matches!(a, MergeAction::ReadMainBranch));
    let (_, a) = merge_next(s, MergeEvent::MainBranch(Some("main".to_string())));
    assert!(matches!(a, MergeAction::Complete));
}

#[test]
fn merge_failure_messages() {
    assert_eq!(merge_failure_message(MergeStep::Rebase, "main", "boom"), "Failed to rebase onto 'main': boom");
    assert_eq!(merge_failure_message(MergeStep::FastForward, "main", "boom"), "Failed to push to 'main': boom");
    assert_eq!(merge_failure_message(MergeStep::Switch, "main", "boom"), "Failed to switch to 'main': boom");
    assert_eq!(merge_failure_message(MergeStep::Squash, "main", "boom"), "boom");
}

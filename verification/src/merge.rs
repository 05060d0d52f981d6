//! Merging a branch into its target: whether and how commits are squashed,
//! the squash commit message, and the messages along the way.

use vstd::prelude::*;
use crate::styling::{
    bo, dim_style, paint, parts, pl, progress_message, progress_msg, style_prefix, style_suffix, styled_text,
    success_message, success_msg, AnsiColor, PartKind, TextStyle,
};
use crate::text::{decimal, decimal_string, push_str, str_eq, strings_view, trim, trim_str};

verus! {

/// Whether the merge has nothing to do: the current branch is the target.
pub fn already_on_target(current_branch: &str, target_branch: &str) -> (b: bool)
    ensures
        b == (current_branch@ == target_branch@),
{
    str_eq(current_branch, target_branch)
}

/// The message when the current branch is already the target.
pub fn already_on_target_message(target_branch: &str, color: bool) -> (res: String)
    ensures
        res@ == success_msg(color, seq![pl("Already on "@), bo(target_branch@), pl(", nothing to merge"@)]),
{
    success_message(&parts(&[("Already on ", PartKind::Plain), (target_branch, PartKind::Bold), (", nothing to merge", PartKind::Plain)]),
        color)
}

/// What squashing does, given the commits since the merge base and whether
/// changes are staged.
#[derive(Debug, Clone, Copy, PartialEq, Eq, Structural)]
pub enum SquashPlan {
    /// No commits and nothing staged: nothing to squash.
    NothingToSquash,
    /// Staged changes but no commits: they have to be committed first.
    StagedWithoutCommits,
    /// A single commit and nothing staged: no squashing needed.
    SingleCommit,
    /// Squash this many commits into one.
    Squash(usize),
}

/// The squash plan for `commits` commits since the merge base.
pub open spec fn squash_plan(commits: usize, has_staged: bool) -> SquashPlan {
    if commits == 0 && !has_staged {
        SquashPlan::NothingToSquash
    } else if commits == 0 {
        SquashPlan::StagedWithoutCommits
    } else if commits == 1 && !has_staged {
        SquashPlan::SingleCommit
    } else {
        SquashPlan::Squash(commits)
    }
}

/// Decide how to squash.
pub fn plan_squash(commit_count: usize, has_staged: bool) -> (res: SquashPlan)
    ensures
        res == squash_plan(commit_count, has_staged),
{
    if commit_count == 0 && !has_staged {
        SquashPlan::NothingToSquash
    } else if commit_count == 0 {
        SquashPlan::StagedWithoutCommits
    } else if commit_count == 1 && !has_staged {
        SquashPlan::SingleCommit
    } else {
        SquashPlan::Squash(commit_count)
    }
}

/// The progress message before squashing.
pub fn squashing_message(count: usize, color: bool) -> (res: String)
    ensures
        res@ == progress_msg(color, seq![pl("Squashing "@ + decimal(count as nat) + " commits into one..."@)]),
{
    let mut t = "Squashing ".to_owned();
    let n = decimal_string(count as u128);
    push_str(&mut t, n.as_str());
    push_str(&mut t, " commits into one...");
    progress_message(&parts(&[(t.as_str(), PartKind::Plain)]), color)
}

/// The success message after squashing.
pub fn squashed_message(count: usize, color: bool) -> (res: String)
    ensures
        res@ == success_msg(color, seq![pl("Squashed "@ + decimal(count as nat) + " commits into one"@)]),
{
    let mut t = "Squashed ".to_owned();
    let n = decimal_string(count as u128);
    push_str(&mut t, n.as_str());
    push_str(&mut t, " commits into one");
    success_message(&parts(&[(t.as_str(), PartKind::Plain)]), color)
}

/// The progress message while rebasing onto the target.
pub fn rebasing_message(target_branch: &str, color: bool) -> (res: String)
    ensures
        res@ == progress_msg(color, seq![pl("Rebasing onto "@), bo(target_branch@), pl("..."@)]),
{
    progress_message(&parts(&[("Rebasing onto ", PartKind::Plain), (target_branch, PartKind::Bold), ("...", PartKind::Plain)]), color)
}

/// The progress message while switching the main worktree to the target.
pub fn switching_message(target_branch: &str, color: bool) -> (res: String)
    ensures
        res@ == progress_msg(color, seq![pl("Switching to "@), bo(target_branch@), pl("..."@)]),
{
    progress_message(&parts(&[("Switching to ", PartKind::Plain), (target_branch, PartKind::Bold), ("...", PartKind::Plain)]), color)
}

/// Whether the main worktree has to be switched to the target after the
/// merge: it is not on the target branch.
pub fn needs_switch(main_branch: Option<&str>, target_branch: &str) -> (b: bool)
    ensures
        b == !(main_branch matches Some(m) && m@ == target_branch@),
{
    match main_branch {
        Some(m) => !str_eq(m, target_branch),
        None => true,
    }
}

/// A failure message of a git step: `Failed to <what> '<target>': <error>`.
pub fn step_failure(what: &str, target: &str, error: &str) -> (res: String)
    ensures
        res@ == "Failed to "@ + what@ + " '"@ + target@ + "': "@ + error@,
{
    let mut s = "Failed to ".to_owned();
    push_str(&mut s, what);
    push_str(&mut s, " '");
    push_str(&mut s, target);
    push_str(&mut s, "': ");
    push_str(&mut s, error);
    s
}

/// The revision range of the commits being squashed.
pub fn squash_range(merge_base: &str) -> (res: String)
    ensures
        res@ == merge_base@ + "..HEAD"@,
{
    let mut s = merge_base.to_owned();
    push_str(&mut s, "..HEAD");
    s
}

// ----------------------------------------------------------------------------
// The squash commit message
// ----------------------------------------------------------------------------

/// The commit subjects as a list, oldest first (`subjects` is newest first):
/// one `- subject` line each.
pub open spec fn subject_list(subjects: Seq<Seq<char>>) -> Seq<char>
    decreases subjects.len(),
{
    if subjects.len() == 0 {
        Seq::empty()
    } else {
        subject_list(subjects.drop_first()) + "- "@ + subjects[0] + seq!['\n']
    }
}

fn push_subjects(out: &mut String, subjects: &Vec<String>)
    ensures
        final(out)@ == old(out)@ + subject_list(strings_view(subjects@)),
{
    let ghost sv = strings_view(subjects@);
    let mut k: usize = subjects.len();
    assert(sv.skip(sv.len() as int) =~= Seq::<Seq<char>>::empty());
    while k > 0
        invariant
            k <= subjects@.len(),
            sv == strings_view(subjects@),
            out@ == old(out)@ + subject_list(sv.skip(k as int)),
        decreases k,
    {
        k = k - 1;
        assert(sv.skip(k as int).drop_first() =~= sv.skip(k + 1));
        assert(sv.skip(k as int)[0] == subjects@[k as int]@);
        push_str(out, "- ");
        push_str(out, subjects[k].as_str());
        push_str(out, "\n");
        proof { reveal_strlit("\n"); }
    }
    assert(sv.skip(0) =~= sv);
}

/// The deterministic squash commit message.
pub open spec fn squash_message(target: Seq<char>, subjects: Seq<Seq<char>>) -> Seq<char> {
    "Squash commits from "@ + target + "\n\n"@ + "Combined commits:\n"@ + subject_list(subjects)
}

/// The squash commit message built from the target branch and the commit
/// subjects (newest first, as `git log` lists them).
pub fn deterministic_squash_message(target_branch: &str, subjects: &Vec<String>) -> (res: String)
    ensures
        res@ == squash_message(target_branch@, strings_view(subjects@)),
{
    let mut m = "Squash commits from ".to_owned();
    push_str(&mut m, target_branch);
    push_str(&mut m, "\n\n");
    push_str(&mut m, "Combined commits:\n");
    push_subjects(&mut m, subjects);
    m
}

/// The prompt given to the commit message generator.
pub open spec fn llm_prompt_text(target: Seq<char>, subjects: Seq<Seq<char>>) -> Seq<char> {
    "Squashing commits on current branch since branching from "@ + target + "\n\n"@ + "Commits being combined:\n"@
        + subject_list(subjects) + "\n\n"@
        + "Generate a conventional commit message (feat/fix/docs/style/refactor) that combines these changes into one cohesive message. Output only the commit message without any explanation."@
}

/// The prompt given to the commit message generator.
pub fn llm_prompt(target_branch: &str, subjects: &Vec<String>) -> (res: String)
    ensures
        res@ == llm_prompt_text(target_branch@, strings_view(subjects@)),
{
    let mut m = "Squashing commits on current branch since branching from ".to_owned();
    push_str(&mut m, target_branch);
    push_str(&mut m, "\n\n");
    push_str(&mut m, "Commits being combined:\n");
    push_subjects(&mut m, subjects);
    push_str(&mut m, "\n\n");
    push_str(&mut m, "Generate a conventional commit message (feat/fix/docs/style/refactor) that combines these changes into one cohesive message. Output only the commit message without any explanation.");
    m
}

/// The generator's reply: its trimmed output when it succeeded with a
/// non-empty message, else the error.
pub open spec fn llm_reply_result(success: bool, stdout: Seq<char>, stderr: Seq<char>) -> Result<Seq<char>, Seq<char>> {
    if !success {
        Err("LLM command failed: "@ + stderr)
    } else if trim(stdout).len() == 0 {
        Err("LLM returned empty message"@)
    } else {
        Ok(trim(stdout))
    }
}

/// Interpret the generator's reply (its exit status and decoded output).
pub fn llm_reply(success: bool, stdout: &str, stderr: &str) -> (res: Result<String, String>)
    ensures
        (match res { Ok(m) => Ok(m@), Err(e) => Err(e@) }) == llm_reply_result(success, stdout@, stderr@),
{
    if !success {
        let mut e = "LLM command failed: ".to_owned();
        push_str(&mut e, stderr);
        return Err(e);
    }
    let m = trim_str(stdout);
    if m.as_str().is_empty() {
        return Err("LLM returned empty message".to_owned());
    }
    Ok(m)
}

/// The squash commit message: the generated one when generation succeeded
/// (`generated`, `None` when no generator is configured), else the
/// deterministic one.
pub fn generate_squash_message(target_branch: &str, subjects: &Vec<String>, generated: Option<Result<String, String>>) -> (res: String)
    ensures
        res@ == (match generated {
            Some(Ok(m)) => m@,
            _ => squash_message(target_branch@, strings_view(subjects@)),
        }),
{
    match generated {
        Some(Ok(m)) => m,
        _ => deterministic_squash_message(target_branch, subjects),
    }
}

/// The note when there is nothing to squash (dimmed).
pub fn nothing_to_squash_message(color: bool) -> (res: String)
    ensures
        res@ == styled_text(color, TextStyle { fg: None, bg: None, bold: false, dimmed: true },
            "No commits to squash - already at merge base"@),
{
    paint("No commits to squash - already at merge base", dim_style(), color)
}

/// The note when a single commit needs no squashing: dimmed, with the
/// target in bold cyan (the dimming ends with the target).
pub open spec fn single_commit_text(target_branch: Seq<char>, color: bool) -> Seq<char> {
    let dim = TextStyle { fg: None, bg: None, bold: false, dimmed: true };
    let emphasis = TextStyle { fg: Some(AnsiColor::Cyan), bg: None, bold: true, dimmed: false };
    if color {
        style_prefix(dim) + "Only 1 commit since "@ + style_prefix(emphasis) + target_branch + style_suffix(emphasis)
            + " - no squashing needed"@ + style_suffix(dim)
    } else {
        "Only 1 commit since "@ + target_branch + " - no squashing needed"@
    }
}

/// The note when a single commit needs no squashing.
pub fn single_commit_message(target_branch: &str, color: bool) -> (res: String)
    ensures
        res@ == single_commit_text(target_branch@, color),
{
    if color {
        let dim = dim_style();
        let emphasis = TextStyle { fg: Some(AnsiColor::Cyan), bg: None, bold: true, dimmed: false };
        let mut out = dim.render();
        push_str(&mut out, "Only 1 commit since ");
        let on = emphasis.render();
        push_str(&mut out, on.as_str());
        push_str(&mut out, target_branch);
        let off = emphasis.render_reset();
        push_str(&mut out, off.as_str());
        push_str(&mut out, " - no squashing needed");
        let end = dim.render_reset();
        push_str(&mut out, end.as_str());
        out
    } else {
        let mut out = "Only 1 commit since ".to_owned();
        push_str(&mut out, target_branch);
        push_str(&mut out, " - no squashing needed");
        out
    }
}

/// The progress message before the merged worktree is removed.
pub fn cleaning_up_message(color: bool) -> (res: String)
    ensures
        res@ == progress_msg(color, seq![pl("Cleaning up worktree..."@)]),
{
    progress_message(&parts(&[("Cleaning up worktree...", PartKind::Plain)]), color)
}

/// The message that ends a merge.
pub fn merge_complete_message(color: bool) -> (res: String)
    ensures
        res@ == success_msg(color, seq![pl("Merge complete"@)]),
{
    success_message(&parts(&[("Merge complete", PartKind::Plain)]), color)
}

// ----------------------------------------------------------------------------
// The merge workflow
// ----------------------------------------------------------------------------

/// Where a merge stands.
#[derive(Debug, Clone, Copy, PartialEq, Eq, Structural)]
pub enum MergeStage {
    /// Nothing done yet.
    Start,
    /// Waiting to learn whether the working tree is clean.
    CheckingClean,
    /// Waiting for the squash.
    Squashing,
    /// Waiting for the rebase onto the target.
    Rebasing,
    /// Waiting for the target to be fast-forwarded.
    FastForwarding,
    /// Waiting for the merged worktree to be removed.
    CleaningUp,
    /// Waiting to learn the branch of the main worktree.
    ReadingMainBranch,
    /// Waiting for the main worktree to switch to the target.
    Switching,
    /// The merge is over.
    Finished,
}

/// A merge in progress: its stage, the branch being merged, the target, and
/// the `--squash` and `--keep` flags.
pub struct MergeState {
    pub stage: MergeStage,
    pub current: String,
    pub target: String,
    pub squash: bool,
    pub keep: bool,
}

/// What happened since the last step.
pub enum MergeEvent {
    /// The merge starts: the current branch (`None` on a detached HEAD), the
    /// target branch and the flags.
    Begin { current: Option<String>, target: String, squash: bool, keep: bool },
    /// Whether the working tree is clean.
    Clean(bool),
    /// The outcome of the step that was asked for (the error's text).
    StepDone(Result<(), String>),
    /// The branch of the main worktree (`None` when detached).
    MainBranch(Option<String>),
}

/// A step of the merge that can fail.
#[derive(Debug, Clone, Copy, PartialEq, Eq, Structural)]
pub enum MergeStep {
    Squash,
    Rebase,
    FastForward,
    Cleanup,
    Switch,
}

/// What to do next.
pub enum MergeAction {
    /// Report that HEAD is detached; the merge fails.
    ReportDetachedHead,
    /// Report that the current branch is the target; the merge is done.
    ReportAlreadyOnTarget { target: String },
    /// Find out whether the working tree is clean.
    CheckClean,
    /// Report uncommitted changes; the merge fails.
    ReportDirty,
    /// Squash the commits since the merge base with the target.
    Squash { target: String },
    /// Rebase the current branch onto the target.
    Rebase { target: String },
    /// Fast-forward the target to the current branch.
    FastForward { branch: String, target: String },
    /// Remove the merged worktree (keeping its branch).
    Cleanup { branch: String },
    /// Find out the branch of the main worktree.
    ReadMainBranch,
    /// Switch the main worktree to the target.
    Switch { target: String },
    /// Report that a step failed; the merge fails.
    ReportFailure { step: MergeStep, error: String },
    /// Report that the merge is complete.
    Complete,
    /// The event does not fit the stage: nothing to do.
    Nothing,
}

/// A merge state at another stage.
pub open spec fn at(state: MergeState, stage: MergeStage) -> MergeState {
    MergeState { stage, ..state }
}

/// A step's failure ends the merge.
pub open spec fn failed(state: MergeState, step: MergeStep, error: String) -> (MergeState, MergeAction) {
    (at(state, MergeStage::Finished), MergeAction::ReportFailure { step, error })
}

/// The merge workflow. A detached HEAD fails and a current branch equal to
/// the target ends it at once; a dirty working tree fails; then come the
/// squash (with `--squash`), the rebase onto the target and the fast-forward
/// of the target; without `--keep` the merged worktree is removed and the
/// main worktree switched to the target unless it is on it already. A step
/// that fails ends the merge with its error. An event that does not fit the
/// stage changes nothing.
pub open spec fn merge_transition(state: MergeState, event: MergeEvent) -> (MergeState, MergeAction) {
    match (state.stage, event) {
        (MergeStage::Start, MergeEvent::Begin { current, target, squash, keep }) => match current {
            None => (MergeState { stage: MergeStage::Finished, current: state.current, target, squash, keep },
                MergeAction::ReportDetachedHead),
            Some(c) => if c@ == target@ {
                (MergeState { stage: MergeStage::Finished, current: c, target, squash, keep },
                    MergeAction::ReportAlreadyOnTarget { target })
            } else {
                (MergeState { stage: MergeStage::CheckingClean, current: c, target, squash, keep }, MergeAction::CheckClean)
            },
        },
        (MergeStage::CheckingClean, MergeEvent::Clean(clean)) => if !clean {
            (at(state, MergeStage::Finished), MergeAction::ReportDirty)
        } else if state.squash {
            (at(state, MergeStage::Squashing), MergeAction::Squash { target: state.target })
        } else {
            (at(state, MergeStage::Rebasing), MergeAction::Rebase { target: state.target })
        },
        (MergeStage::Squashing, MergeEvent::StepDone(r)) => match r {
            Ok(_) => (at(state, MergeStage::Rebasing), MergeAction::Rebase { target: state.target }),
            Err(e) => failed(state, MergeStep::Squash, e),
        },
        (MergeStage::Rebasing, MergeEvent::StepDone(r)) => match r {
            Ok(_) => (at(state, MergeStage::FastForwarding),
                MergeAction::FastForward { branch: state.current, target: state.target }),
            Err(e) => failed(state, MergeStep::Rebase, e),
        },
        (MergeStage::FastForwarding, MergeEvent::StepDone(r)) => match r {
            Ok(_) => if state.keep {
                (at(state, MergeStage::Finished), MergeAction::Complete)
            } else {
                (at(state, MergeStage::CleaningUp), MergeAction::Cleanup { branch: state.current })
            },
            Err(e) => failed(state, MergeStep::FastForward, e),
        },
        (MergeStage::CleaningUp, MergeEvent::StepDone(r)) => match r {
            Ok(_) => (at(state, MergeStage::ReadingMainBranch), MergeAction::ReadMainBranch),
            Err(e) => failed(state, MergeStep::Cleanup, e),
        },
        (MergeStage::ReadingMainBranch, MergeEvent::MainBranch(m)) =>
            if m matches Some(b) && b@ == state.target@ {
                (at(state, MergeStage::Finished), MergeAction::Complete)
            } else {
                (at(state, MergeStage::Switching), MergeAction::Switch { target: state.target })
            },
        (MergeStage::Switching, MergeEvent::StepDone(r)) => match r {
            Ok(_) => (at(state, MergeStage::Finished), MergeAction::Complete),
            Err(e) => failed(state, MergeStep::Switch, e),
        },
        _ => (state, MergeAction::Nothing),
    }
}

/// A merge that has not started.
pub fn merge_start() -> (res: MergeState)
    ensures
        res.stage == MergeStage::Start,
        res.current@.len() == 0 && res.target@.len() == 0,
{
    MergeState { stage: MergeStage::Start, current: String::new(), target: String::new(), squash: false, keep: false }
}

/// Take the next step of a merge.
pub fn merge_next(state: MergeState, event: MergeEvent) -> (res: (MergeState, MergeAction))
    ensures
        res == merge_transition(state, event),
{
    match (state.stage, event) {
        (MergeStage::Start, MergeEvent::Begin { current, target, squash, keep }) => match current {
            None => (MergeState { stage: MergeStage::Finished, current: state.current, target, squash, keep },
                MergeAction::ReportDetachedHead),
            Some(c) => if already_on_target(c.as_str(), target.as_str()) {
                let t = target.clone();
                (MergeState { stage: MergeStage::Finished, current: c, target, squash, keep },
                    MergeAction::ReportAlreadyOnTarget { target: t })
            } else {
                (MergeState { stage: MergeStage::CheckingClean, current: c, target, squash, keep }, MergeAction::CheckClean)
            },
        },
        (MergeStage::CheckingClean, MergeEvent::Clean(clean)) => if !clean {
            (MergeState { stage: MergeStage::Finished, ..state }, MergeAction::ReportDirty)
        } else if state.squash {
            let t = state.target.clone();
            (MergeState { stage: MergeStage::Squashing, ..state }, MergeAction::Squash { target: t })
        } else {
            let t = state.target.clone();
            (MergeState { stage: MergeStage::Rebasing, ..state }, MergeAction::Rebase { target: t })
        },
        (MergeStage::Squashing, MergeEvent::StepDone(r)) => match r {
            Ok(_) => {
                let t = state.target.clone();
                (MergeState { stage: MergeStage::Rebasing, ..state }, MergeAction::Rebase { target: t })
            },
            Err(e) => (MergeState { stage: MergeStage::Finished, ..state },
                MergeAction::ReportFailure { step: MergeStep::Squash, error: e }),
        },
        (MergeStage::Rebasing, MergeEvent::StepDone(r)) => match r {
            Ok(_) => {
                let b = state.current.clone();
                let t = state.target.clone();
                (MergeState { stage: MergeStage::FastForwarding, ..state }, MergeAction::FastForward { branch: b, target: t })
            },
            Err(e) => (MergeState { stage: MergeStage::Finished, ..state },
                MergeAction::ReportFailure { step: MergeStep::Rebase, error: e }),
        },
        (MergeStage::FastForwarding, MergeEvent::StepDone(r)) => match r {
            Ok(_) => if state.keep {
                (MergeState { stage: MergeStage::Finished, ..state }, MergeAction::Complete)
            } else {
                let b = state.current.clone();
                (MergeState { stage: MergeStage::CleaningUp, ..state }, MergeAction::Cleanup { branch: b })
            },
            Err(e) => (MergeState { stage: MergeStage::Finished, ..state },
                MergeAction::ReportFailure { step: MergeStep::FastForward, error: e }),
        },
        (MergeStage::CleaningUp, MergeEvent::StepDone(r)) => match r {
            Ok(_) => (MergeState { stage: MergeStage::ReadingMainBranch, ..state }, MergeAction::ReadMainBranch),
            Err(e) => (MergeState { stage: MergeStage::Finished, ..state },
                MergeAction::ReportFailure { step: MergeStep::Cleanup, error: e }),
        },
        (MergeStage::ReadingMainBranch, MergeEvent::MainBranch(m)) => {
            let on_target = match &m {
                Some(b) => str_eq(b.as_str(), state.target.as_str()),
                None => false,
            };
            if !on_target {
                let t = state.target.clone();
                (MergeState { stage: MergeStage::Switching, ..state }, MergeAction::Switch { target: t })
            } else {
                (MergeState { stage: MergeStage::Finished, ..state }, MergeAction::Complete)
            }
        },
        (MergeStage::Switching, MergeEvent::StepDone(r)) => match r {
            Ok(_) => (MergeState { stage: MergeStage::Finished, ..state }, MergeAction::Complete),
            Err(e) => (MergeState { stage: MergeStage::Finished, ..state },
                MergeAction::ReportFailure { step: MergeStep::Switch, error: e }),
        },
        _ => (state, MergeAction::Nothing),
    }
}

/// The message of a failed step: the squash's and the cleanup's errors as
/// they are, `Failed to rebase onto '<target>': <error>` and the like for the
/// others.
pub fn merge_failure_message(step: MergeStep, target: &str, error: &str) -> (res: String)
    ensures
        res@ == (match step {
            MergeStep::Squash => error@,
            MergeStep::Cleanup => error@,
            MergeStep::Rebase => "Failed to "@ + "rebase onto"@ + " '"@ + target@ + "': "@ + error@,
            MergeStep::FastForward => "Failed to "@ + "push to"@ + " '"@ + target@ + "': "@ + error@,
            MergeStep::Switch => "Failed to "@ + "switch to"@ + " '"@ + target@ + "': "@ + error@,
        }),
{
    match step {
        MergeStep::Squash => error.to_owned(),
        MergeStep::Cleanup => error.to_owned(),
        MergeStep::Rebase => step_failure("rebase onto", target, error),
        MergeStep::FastForward => step_failure("push to", target, error),
        MergeStep::Switch => step_failure("switch to", target, error),
    }
}

} // verus!

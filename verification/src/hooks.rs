//! Running hook commands: choosing commands by name, and what a failure does
//! under each failure strategy.

use vstd::prelude::*;
use crate::error::{GitError, WorktrunkError};
use crate::git::HookType;
use crate::styling::{bo, parts, pl, warning_message, warning_msg, PartKind};
use crate::path::{file_name, path_file_name, worktree_basename};
use crate::expansion::{command_vars, expand_template, expanded, pairs_view, sanitize_branch_name};
use crate::text::{chars_of, push_str, str_eq, string_of, strings_view};

verus! {

/// A hook command ready to run: its name (if it has one) and its expanded
/// command line.
#[derive(Debug)]
pub struct PreparedCommand {
    pub name: Option<String>,
    pub expanded: String,
}

/// The view of an optional string.
pub open spec fn name_view(n: Option<String>) -> Option<Seq<char>> {
    match n {
        Some(s) => Some(s@),
        None => None,
    }
}

/// Whether a command has the given name.
pub open spec fn named(c: PreparedCommand, name: Seq<char>) -> bool {
    name_view(c.name) == Some(name)
}

/// The names of the commands that have one, in order.
pub open spec fn command_names(cs: Seq<PreparedCommand>) -> Seq<Seq<char>>
    decreases cs.len(),
{
    if cs.len() == 0 {
        Seq::empty()
    } else {
        match cs.last().name {
            Some(n) => command_names(cs.drop_last()).push(n@),
            None => command_names(cs.drop_last()),
        }
    }
}

/// The commands with the given name, in order.
pub open spec fn commands_named(cs: Seq<PreparedCommand>, name: Seq<char>) -> Seq<PreparedCommand> {
    cs.filter(|c: PreparedCommand| named(c, name))
}

/// Keep the commands named `name_filter` (all commands without a filter).
/// A filter that matches no command fails with `HookCommandNotFound`, which
/// lists the names that exist.
pub fn filter_by_name(commands: Vec<PreparedCommand>, name_filter: Option<&str>) -> (res: Result<Vec<PreparedCommand>, GitError>)
    ensures
        name_filter is None ==> res == Ok::<Vec<PreparedCommand>, GitError>(commands),
        name_filter matches Some(f) ==> {
            &&& (commands_named(commands@, f@).len() == 0 <==> res is Err)
            &&& (res matches Ok(v) ==> v@ == commands_named(commands@, f@))
            &&& (res matches Err(e) ==> e matches GitError::HookCommandNotFound { name, available }
                && name@ == f@ && strings_view(available@) == command_names(commands@))
        },
{
    match name_filter {
        None => Ok(commands),
        Some(f) => {
            let ghost cs = commands@;
            let ghost keep = |c: PreparedCommand| named(c, f@);
            let mut available: Vec<String> = Vec::new();
            let mut kept: Vec<PreparedCommand> = Vec::new();
            for c in it: commands
                invariant
                    it.seq() == cs,
                    keep == (|c: PreparedCommand| named(c, f@)),
                    strings_view(available@) == command_names(cs.take(it.index() as int)),
                    kept@ == cs.take(it.index() as int).filter(keep),
            {
                let ghost k = it.index() as int;
                proof {
                    assert(cs.take(k + 1).drop_last() =~= cs.take(k));
                    reveal(Seq::filter);
                }
                let ghost before_names = strings_view(available@);
                let ghost before_kept = kept@;
                match &c.name {
                    Some(nm) => {
                        available.push(nm.clone());
                        assert(strings_view(available@) =~= before_names.push(nm@));
                    },
                    None => {},
                }
                let matches = match &c.name {
                    Some(nm) => str_eq(nm.as_str(), f),
                    None => false,
                };
                if matches {
                    kept.push(c);
                    assert(kept@ =~= before_kept.push(cs[k]));
                }
            }
            assert(cs.take(cs.len() as int) =~= cs);
            if kept.len() == 0 {
                Err(GitError::HookCommandNotFound { name: f.to_owned(), available })
            } else {
                Ok(kept)
            }
        },
    }
}

/// How hook execution responds to failures.
#[derive(Debug, Clone, Copy, PartialEq, Eq, Structural)]
pub enum HookFailureStrategy {
    /// Stop at the first failure with a `HookCommandFailed` error.
    FailFast,
    /// Warn and go on with the remaining commands; for post-merge hooks the
    /// first failure is reported once all commands ran.
    Warn,
}

/// What to do after a hook command ran.
pub enum HookStep {
    /// Go on with the next command.
    Continue,
    /// Show the warning, then go on with the next command.
    Warn(String),
    /// Stop with this error.
    Fail(WorktrunkError),
}

/// Running the commands of one hook, one after the other.
pub struct HookRun {
    pub hook_type: HookType,
    pub strategy: HookFailureStrategy,
    /// The first failure that is reported at the end: (error, command name,
    /// exit code).
    pub first_failure: Option<(String, Option<String>, i32)>,
}

/// The warning about a failed command.
pub open spec fn failure_warning(name: Option<Seq<char>>, error: Seq<char>, color: bool) -> Seq<char> {
    match name {
        Some(n) => warning_msg(color, seq![pl("Command "@), bo(n), pl(" failed: "@ + error)]),
        None => warning_msg(color, seq![pl("Command failed: "@ + error)]),
    }
}

/// The view of a recorded failure.
pub open spec fn failure_view(f: Option<(String, Option<String>, i32)>) -> Option<(Seq<char>, Option<Seq<char>>, i32)> {
    match f {
        Some((e, n, c)) => Some((e@, name_view(n), c)),
        None => None,
    }
}

impl HookRun {
    /// Start running a hook's commands.
    pub fn new(hook_type: HookType, strategy: HookFailureStrategy) -> (res: Self)
        ensures
            res.hook_type == hook_type,
            res.strategy == strategy,
            res.first_failure is None,
    {
        HookRun { hook_type, strategy, first_failure: None }
    }

    /// Record how a command ended (`Err` holds the error message and the
    /// exit code, if any) and decide what comes next. Under `FailFast` a
    /// failure stops the run; under `Warn` it is shown, and for a post-merge
    /// hook the first one is kept for the end.
    pub fn record(&mut self, name: Option<String>, outcome: Result<(), (String, Option<i32>)>, color: bool) -> (res: HookStep)
        ensures
            final(self).hook_type == old(self).hook_type,
            final(self).strategy == old(self).strategy,
            outcome is Ok ==> res is Continue && final(self).first_failure == old(self).first_failure,
            outcome matches Err((msg, code)) ==> match old(self).strategy {
                HookFailureStrategy::FailFast => {
                    &&& final(self).first_failure == old(self).first_failure
                    &&& res matches HookStep::Fail(e) && e matches WorktrunkError::HookCommandFailed {
                        hook_type, command_name, error, exit_code }
                        && hook_type == old(self).hook_type && name_view(command_name) == name_view(name)
                        && error@ == msg@ && exit_code == code
                },
                HookFailureStrategy::Warn => {
                    &&& res matches HookStep::Warn(w) && w@ == failure_warning(name_view(name), msg@, color)
                    &&& failure_view(final(self).first_failure) == (
                        if old(self).first_failure is None && old(self).hook_type == HookType::PostMerge {
                            Some((msg@, name_view(name), match code { Some(c) => c, None => 1i32 }))
                        } else {
                            failure_view(old(self).first_failure)
                        })
                },
            },
    {
        match outcome {
            Ok(()) => HookStep::Continue,
            Err((msg, code)) => {
                match self.strategy {
                    HookFailureStrategy::FailFast => HookStep::Fail(WorktrunkError::HookCommandFailed {
                        hook_type: self.hook_type,
                        command_name: name,
                        error: msg,
                        exit_code: code,
                    }),
                    HookFailureStrategy::Warn => {
                        let w = match &name {
                            Some(n) => {
                                let mut tail = " failed: ".to_owned();
                                push_str(&mut tail, msg.as_str());
                                warning_message(&parts(&[("Command ", PartKind::Plain), (n.as_str(), PartKind::Bold),
                                    (tail.as_str(), PartKind::Plain)]), color)
                            },
                            None => {
                                let mut text = "Command failed: ".to_owned();
                                push_str(&mut text, msg.as_str());
                                warning_message(&parts(&[(text.as_str(), PartKind::Plain)]), color)
                            },
                        };
                        if self.first_failure.is_none() && self.hook_type == HookType::PostMerge {
                            let c = match code {
                                Some(c) => c,
                                None => 1i32,
                            };
                            self.first_failure = Some((msg, name, c));
                        }
                        HookStep::Warn(w)
                    },
                }
            },
        }
    }

    /// Finish the run: the kept failure, if any, becomes the error.
    pub fn finish(self) -> (res: Result<(), WorktrunkError>)
        ensures
            self.first_failure is None <==> res is Ok,
            res matches Err(e) ==> e matches WorktrunkError::HookCommandFailed { hook_type, command_name, error, exit_code }
                && hook_type == self.hook_type
                && failure_view(self.first_failure) == Some((error@, name_view(command_name), exit_code->0))
                && exit_code is Some,
    {
        match self.first_failure {
            Some((error, command_name, code)) => Err(WorktrunkError::HookCommandFailed {
                hook_type: self.hook_type,
                command_name,
                error,
                exit_code: Some(code),
            }),
            None => Ok(()),
        }
    }
}

/// The operation name of a background hook command: `post-start-` and the
/// command's name (`cmd` for an unnamed command).
pub fn background_operation_name(name: Option<&str>) -> (res: String)
    ensures
        res@ == "post-start-"@ + (match name { Some(n) => n@, None => "cmd"@ }),
{
    let mut s = "post-start-".to_owned();
    match name {
        Some(n) => push_str(&mut s, n),
        None => push_str(&mut s, "cmd"),
    }
    s
}

/// The warning when a background command could not be started.
pub fn spawn_failure_message(name: Option<&str>, error: &str, color: bool) -> (res: String)
    ensures
        res@ == warning_msg(color, seq![pl(match name {
            Some(n) => "Failed to spawn \""@ + n@ + "\": "@ + error@,
            None => "Failed to spawn command: "@ + error@,
        })]),
{
    let mut text = match name {
        Some(n) => {
            let mut t = "Failed to spawn \"".to_owned();
            push_str(&mut t, n);
            push_str(&mut t, "\": ");
            t
        },
        None => "Failed to spawn command: ".to_owned(),
    };
    push_str(&mut text, error);
    warning_message(&parts(&[(text.as_str(), PartKind::Plain)]), color)
}

/// The extra template variables of pre-commit hooks: `target` when there is
/// a target branch.
pub fn pre_commit_vars(target_branch: Option<&str>) -> (res: Vec<(String, String)>)
    ensures
        target_branch is None ==> res@.len() == 0,
        target_branch matches Some(t) ==> res@.len() == 1 && res@[0].0@ == "target"@ && res@[0].1@ == t@,
{
    let mut v: Vec<(String, String)> = Vec::new();
    if let Some(t) = target_branch {
        v.push(("target".to_owned(), t.to_owned()));
    }
    v
}

/// The name of a repository: the file name of its root (`root` is `None`
/// when the path is not valid UTF-8), else `unknown`.
pub fn repo_name_of(root: Option<&str>) -> (res: String)
    ensures
        res@ == (match root {
            Some(r) => match file_name(r@) { Some(n) => n, None => "unknown"@ },
            None => "unknown"@,
        }),
{
    match root {
        Some(r) => match path_file_name(r) {
            Some(n) => n,
            None => "unknown".to_owned(),
        },
        None => "unknown".to_owned(),
    }
}

/// The template variables of hook commands: `repo`, `branch` (sanitized),
/// `worktree`, `worktree_name` and `repo_root`, then the extra variables (which take
/// precedence over earlier ones of the same name).
pub fn hook_vars(repo: &str, branch: &str, worktree: &str, repo_root: &str, extra: &Vec<(String, String)>)
    -> (res: Vec<(String, String)>)
    ensures
        pairs_view(res@) == command_vars(repo@, branch@, worktree@, repo_root@, None) + pairs_view(extra@),
{
    let mut v: Vec<(String, String)> = Vec::new();
    v.push(("repo".to_owned(), repo.to_owned()));
    v.push(("branch".to_owned(), sanitize_branch_name(branch)));
    v.push(("worktree".to_owned(), worktree.to_owned()));
    v.push(("worktree_name".to_owned(), worktree_basename(worktree)));
    v.push(("repo_root".to_owned(), repo_root.to_owned()));
    let ghost base = pairs_view(v@);
    assert(base =~= command_vars(repo@, branch@, worktree@, repo_root@, None));
    let mut k: usize = 0;
    while k < extra.len()
        invariant
            k <= extra@.len(),
            pairs_view(v@) == base + pairs_view(extra@.take(k as int)),
        decreases extra@.len() - k,
    {
        let ghost before = v@;
        v.push((extra[k].0.clone(), extra[k].1.clone()));
        assert(extra@.take(k + 1) =~= extra@.take(k as int).push(extra@[k as int]));
        assert(pairs_view(extra@.take(k + 1)) =~= pairs_view(extra@.take(k as int)).push((extra@[k as int].0@, extra@[k as int].1@)));
        assert(pairs_view(v@) =~= pairs_view(before).push((extra@[k as int].0@, extra@[k as int].1@)));
        assert(pairs_view(v@) =~= base + pairs_view(extra@.take(k + 1)));
        k = k + 1;
    }
    assert(extra@.take(extra@.len() as int) =~= extra@);
    v
}

/// A configured project command: an optional name and its template.
#[derive(Debug, Clone)]
pub struct CommandTemplate {
    pub name: Option<String>,
    pub template: String,
}

/// The view of a configured command.
pub open spec fn template_view(c: CommandTemplate) -> (Option<Seq<char>>, Seq<char>) {
    (name_view(c.name), c.template@)
}

/// The view of a prepared command.
pub open spec fn prepared_view(c: PreparedCommand) -> (Option<Seq<char>>, Seq<char>) {
    (name_view(c.name), c.expanded@)
}

/// The views of configured commands.
pub open spec fn templates_view(cs: Seq<CommandTemplate>) -> Seq<(Option<Seq<char>>, Seq<char>)> {
    cs.map_values(|c: CommandTemplate| template_view(c))
}

/// The views of prepared commands.
pub open spec fn prepared_views(cs: Seq<PreparedCommand>) -> Seq<(Option<Seq<char>>, Seq<char>)> {
    cs.map_values(|c: PreparedCommand| prepared_view(c))
}

/// Each command expanded with `vars` (values shell-escaped), in order, names
/// kept; the first command whose template fails to expand gives the error.
pub open spec fn expanded_commands(cmds: Seq<(Option<Seq<char>>, Seq<char>)>, vars: Seq<(Seq<char>, Seq<char>)>)
    -> Result<Seq<(Option<Seq<char>>, Seq<char>)>, Seq<char>>
    decreases cmds.len(),
{
    if cmds.len() == 0 {
        Ok(Seq::empty())
    } else {
        match expanded_commands(cmds.drop_last(), vars) {
            Err(e) => Err(e),
            Ok(done) => match expanded(cmds.last().1, vars, true) {
                Ok(x) => Ok(done.push((cmds.last().0, x))),
                Err(e) => Err(e),
            },
        }
    }
}

/// Expand the configured commands of a hook with the variables `repo`,
/// `branch` (sanitized), `worktree`, `repo_root` and then the extra
/// variables.
pub fn expand_commands(
    commands: &Vec<CommandTemplate>,
    repo: &str,
    branch: &str,
    worktree: &str,
    repo_root: &str,
    extra: &Vec<(String, String)>,
) -> (res: Result<Vec<PreparedCommand>, String>)
    ensures
        ({
            let want = expanded_commands(templates_view(commands@),
                command_vars(repo@, branch@, worktree@, repo_root@, None) + pairs_view(extra@));
            match res {
                Ok(v) => want == Ok::<Seq<(Option<Seq<char>>, Seq<char>)>, Seq<char>>(
                    prepared_views(v@)),
                Err(e) => want == Err::<Seq<(Option<Seq<char>>, Seq<char>)>, Seq<char>>(e@),
            }
        }),
{
    let ghost cmds = templates_view(commands@);
    let vars = hook_vars(repo, branch, worktree, repo_root, extra);
    let mut out: Vec<PreparedCommand> = Vec::new();
    let mut i: usize = 0;
    assert(cmds.take(0) =~= Seq::<(Option<Seq<char>>, Seq<char>)>::empty());
    assert(prepared_views(out@) =~= Seq::<(Option<Seq<char>>, Seq<char>)>::empty());
    while i < commands.len()
        invariant
            i <= commands@.len(),
            cmds == templates_view(commands@),
            pairs_view(vars@) == command_vars(repo@, branch@, worktree@, repo_root@, None) + pairs_view(extra@),
            expanded_commands(cmds.take(i as int), pairs_view(vars@))
                == Ok::<Seq<(Option<Seq<char>>, Seq<char>)>, Seq<char>>(prepared_views(out@)),
        decreases commands@.len() - i,
    {
        assert(cmds.take(i + 1).drop_last() =~= cmds.take(i as int));
        let c = &commands[i];
        match expand_template(c.template.as_str(), &vars, true) {
            Ok(x) => {
                let ghost before = out@;
                out.push(PreparedCommand { name: c.name.clone(), expanded: x });
                assert(prepared_views(out@)
                    =~= prepared_views(before).push((cmds[i as int].0, x@)));
            },
            Err(e) => {
                proof { lemma_expanded_commands_stop(cmds, pairs_view(vars@), i as int + 1, e@); }
                return Err(e);
            },
        }
        i = i + 1;
    }
    assert(cmds.take(i as int) =~= cmds);
    Ok(out)
}

/// Once a prefix of the commands fails to expand, so do all of them.
proof fn lemma_expanded_commands_stop(cmds: Seq<(Option<Seq<char>>, Seq<char>)>, vars: Seq<(Seq<char>, Seq<char>)>,
    n: int, e: Seq<char>)
    requires
        0 <= n <= cmds.len(),
        expanded_commands(cmds.take(n), vars) == Err::<Seq<(Option<Seq<char>>, Seq<char>)>, Seq<char>>(e),
    ensures
        expanded_commands(cmds, vars) == Err::<Seq<(Option<Seq<char>>, Seq<char>)>, Seq<char>>(e),
    decreases cmds.len() - n,
{
    if n < cmds.len() {
        assert(cmds.take(n + 1).drop_last() =~= cmds.take(n));
        lemma_expanded_commands_stop(cmds, vars, n + 1, e);
    } else {
        assert(cmds.take(n) =~= cmds);
    }
}

} // verus!

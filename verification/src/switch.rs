//! Switching worktrees: which hooks need approval, the template variables of
//! a new worktree's base, and the command line of `--execute`.

use vstd::prelude::*;
use crate::expansion::{expand_template, expanded, pairs_view};
use crate::git::HookType;
use crate::styling::{
    bo, hint_message, hint_msg, info_message, parts, pl, rich_message, rich_message_exec, success_message, success_msg,
    warning_message, warning_msg, PartKind, TextStyle, INFO_EMOJI,
};
use crate::text::{join_seqs, join_strings, push_str, strings_view};

verus! {

/// Options for the switch command.
pub struct SwitchOptions<'a> {
    pub branch: &'a str,
    pub create: bool,
    pub base: Option<&'a str>,
    pub execute: Option<&'a str>,
    pub execute_args: &'a [String],
    pub yes: bool,
    pub clobber: bool,
    pub verify: bool,
}

/// The hooks approved before switching: post-create, post-start and
/// post-switch when a worktree is created, else post-switch only.
pub open spec fn hooks_for_switch(is_create: bool) -> Seq<HookType> {
    if is_create {
        seq![HookType::PostCreate, HookType::PostStart, HookType::PostSwitch]
    } else {
        seq![HookType::PostSwitch]
    }
}

/// The hooks to approve before switching.
pub fn hooks_to_approve(is_create: bool) -> (res: Vec<HookType>)
    ensures
        res@ == hooks_for_switch(is_create),
{
    if is_create {
        vec![HookType::PostCreate, HookType::PostStart, HookType::PostSwitch]
    } else {
        vec![HookType::PostSwitch]
    }
}

/// Whether hooks are skipped: with `--no-verify` or when the user declined.
pub fn hooks_skipped(verify: bool, approved: bool) -> (b: bool)
    ensures
        b == (!verify || !approved),
{
    !verify || !approved
}

/// The background hooks started after a switch: none when hooks are
/// skipped, else post-switch, followed by post-start when the switch created
/// the worktree.
pub open spec fn spawned_hooks(verify: bool, approved: bool, created: bool) -> Seq<HookType> {
    if !verify || !approved {
        Seq::empty()
    } else if created {
        seq![HookType::PostSwitch, HookType::PostStart]
    } else {
        seq![HookType::PostSwitch]
    }
}

/// The background hooks to start after a switch.
pub fn switch_hooks_to_spawn(verify: bool, approved: bool, created: bool) -> (res: Vec<HookType>)
    ensures
        res@ == spawned_hooks(verify, approved, created),
{
    if hooks_skipped(verify, approved) {
        let v: Vec<HookType> = Vec::new();
        assert(v@ =~= Seq::<HookType>::empty());
        v
    } else if created {
        vec![HookType::PostSwitch, HookType::PostStart]
    } else {
        vec![HookType::PostSwitch]
    }
}

/// The steps a switch takes once it is planned.
pub struct SwitchSteps {
    /// Whether the user is asked to approve the hooks.
    pub ask_approval: bool,
    /// Whether the switch is carried out.
    pub execute: bool,
    /// Whether the switch is carried out with hooks skipped.
    pub skip_hooks: bool,
    /// The background hooks started afterwards, in order.
    pub hooks: Vec<HookType>,
    /// Whether the `--execute` command runs after the switch (whether or not
    /// hooks were approved).
    pub run_execute: bool,
}

/// The steps of a switch: a plan that failed stops it before anything else;
/// otherwise approval is asked exactly when hooks are verified, the switch
/// runs (with hooks skipped under `--no-verify` or when declined), and the
/// hooks of `spawned_hooks` start; then the `--execute` command runs, when
/// one was given, approved hooks or not. `approved` is the user's answer
/// (ignored when nothing was asked), `created` whether the switch created the
/// worktree, `has_execute` whether `--execute` was given.
pub fn switch_steps(plan_ok: bool, verify: bool, approved: bool, created: bool, has_execute: bool) -> (res: SwitchSteps)
    ensures
        res.ask_approval == (plan_ok && verify),
        res.execute == plan_ok,
        res.skip_hooks == (!verify || !approved),
        res.hooks@ == (if plan_ok { spawned_hooks(verify, approved, created) } else { Seq::empty() }),
        res.run_execute == (plan_ok && has_execute),
{
    if !plan_ok {
        let hooks: Vec<HookType> = Vec::new();
        assert(hooks@ =~= Seq::<HookType>::empty());
        return SwitchSteps { ask_approval: false, execute: false, skip_hooks: !verify || !approved, hooks, run_execute: false };
    }
    SwitchSteps {
        ask_approval: verify,
        execute: true,
        skip_hooks: hooks_skipped(verify, approved),
        hooks: switch_hooks_to_spawn(verify, approved, created),
        run_execute: has_execute,
    }
}

/// The notice when the user declined the hooks.
pub fn declined_notice(is_create: bool) -> (res: String)
    ensures
        res@ == seq![INFO_EMOJI, ' '] + (if is_create { "Commands declined, continuing worktree creation"@ } else { "Commands declined"@ }),
{
    info_message(if is_create { "Commands declined, continuing worktree creation" } else { "Commands declined" })
}

/// The template variables describing the base of a new worktree: `base`
/// (the branch it was created from) and `base_worktree_path`, each when
/// known.
pub open spec fn base_var_pairs(base_branch: Option<Seq<char>>, base_worktree_path: Option<Seq<char>>) -> Seq<(Seq<char>, Seq<char>)> {
    let b = match base_branch {
        Some(v) => seq![("base"@, v)],
        None => Seq::empty(),
    };
    match base_worktree_path {
        Some(p) => b.push(("base_worktree_path"@, p)),
        None => b,
    }
}

/// The template variables describing the base of a new worktree.
pub fn base_vars(base_branch: Option<&str>, base_worktree_path: Option<&str>) -> (res: Vec<(String, String)>)
    ensures
        pairs_view(res@) == base_var_pairs(
            match base_branch { Some(v) => Some(v@), None => None },
            match base_worktree_path { Some(p) => Some(p@), None => None },
        ),
{
    let mut v: Vec<(String, String)> = Vec::new();
    if let Some(b) = base_branch {
        v.push(("base".to_owned(), b.to_owned()));
    }
    if let Some(p) = base_worktree_path {
        v.push(("base_worktree_path".to_owned(), p.to_owned()));
    }
    assert(pairs_view(v@) =~= base_var_pairs(
        match base_branch { Some(v) => Some(v@), None => None },
        match base_worktree_path { Some(p) => Some(p@), None => None },
    ));
    v
}

/// `shlex::try_quote`'s result for a non-empty word without NUL: a string
/// that a POSIX shell reads back as that word.
pub uninterp spec fn shlex_quoted(word: Seq<char>) -> Seq<char>;

/// The quoted empty word: two single quotes.
pub open spec fn empty_word_quoted() -> Seq<char> {
    seq!['\'', '\'']
}

/// Whether a word holds a NUL character.
pub open spec fn has_nul(word: Seq<char>) -> bool {
    word.contains('\0')
}

/// `shlex::try_quote`: the empty word becomes `''`; a word holding a NUL
/// character cannot be quoted (`None`); any other word is quoted as
/// `shlex_quoted` names it.
#[verifier::external_body]
fn shlex_try_quote(word: &str) -> (res: Option<String>)
    ensures
        word@.len() == 0 ==> res is Some && res->0@ == empty_word_quoted(),
        word@.len() > 0 ==> (res is None <==> has_nul(word@)),
        word@.len() > 0 && res is Some ==> res->0@ == shlex_quoted(word@),
{
    shlex::try_quote(word).ok().map(|q| q.into_owned())
}

/// An argument as appended to the `--execute` command: quoted for the shell,
/// or as it is when it cannot be quoted.
pub open spec fn quoted_arg(word: Seq<char>) -> Seq<char> {
    if word.len() == 0 {
        empty_word_quoted()
    } else if has_nul(word) {
        word
    } else {
        shlex_quoted(word)
    }
}

/// The `--execute` arguments expanded (values substituted literally) and
/// quoted, from the `i`-th on; the first failing expansion is the error.
pub open spec fn expanded_args(args: Seq<Seq<char>>, vars: Seq<(Seq<char>, Seq<char>)>) -> Result<Seq<Seq<char>>, Seq<char>>
    decreases args.len(),
{
    if args.len() == 0 {
        Ok(Seq::empty())
    } else {
        match expanded_args(args.drop_last(), vars) {
            Err(e) => Err(e),
            Ok(done) => match expanded(args.last(), vars, false) {
                Ok(a) => Ok(done.push(quoted_arg(a))),
                Err(e) => Err(e),
            },
        }
    }
}

/// The full `--execute` command: the command expanded with shell-escaped
/// values, followed by the expanded and quoted arguments, space-separated.
pub open spec fn execute_command(cmd: Seq<char>, args: Seq<Seq<char>>, vars: Seq<(Seq<char>, Seq<char>)>) -> Result<Seq<char>, Seq<char>> {
    match expanded(cmd, vars, true) {
        Err(e) => Err("Failed to expand --execute template: "@ + e),
        Ok(c) => if args.len() == 0 {
            Ok(c)
        } else {
            match expanded_args(args, vars) {
                Err(e) => Err("Failed to expand argument template: "@ + e),
                Ok(qs) => Ok(c + " "@ + join_seqs(qs, " "@)),
            }
        },
    }
}

/// Build the `--execute` command line from the command template, the
/// trailing arguments and the template variables.
pub fn build_execute_command(cmd: &str, execute_args: &[String], vars: &Vec<(String, String)>) -> (res: Result<String, String>)
    ensures
        (match res { Ok(c) => Ok(c@), Err(e) => Err(e@) })
            == execute_command(cmd@, execute_args@.map_values(|a: String| a@), pairs_view(vars@)),
{
    let ghost av = execute_args@.map_values(|a: String| a@);
    let ghost pv = pairs_view(vars@);
    let expanded_cmd = match expand_template(cmd, vars, true) {
        Ok(c) => c,
        Err(e) => {
            let mut m = "Failed to expand --execute template: ".to_owned();
            push_str(&mut m, e.as_str());
            return Err(m);
        },
    };
    if execute_args.len() == 0 {
        return Ok(expanded_cmd);
    }
    let mut quoted: Vec<String> = Vec::new();
    let mut k: usize = 0;
    assert(av.take(0) =~= Seq::<Seq<char>>::empty());
    assert(strings_view(quoted@) =~= Seq::<Seq<char>>::empty());
    while k < execute_args.len()
        invariant
            k <= execute_args@.len(),
            av.len() > 0,
            expanded(cmd@, pv, true) == Ok::<Seq<char>, Seq<char>>(expanded_cmd@),
            av == execute_args@.map_values(|a: String| a@),
            pv == pairs_view(vars@),
            expanded_args(av.take(k as int), pv) == Ok::<Seq<Seq<char>>, Seq<char>>(strings_view(quoted@)),
        decreases execute_args@.len() - k,
    {
        assert(av.take(k + 1).drop_last() =~= av.take(k as int));
        assert(av.take(k + 1).last() == execute_args@[k as int]@);
        match expand_template(execute_args[k].as_str(), vars, false) {
            Ok(a) => {
                let q = match shlex_try_quote(a.as_str()) {
                    Some(q) => q,
                    None => a,
                };
                let ghost before = strings_view(quoted@);
                quoted.push(q);
                assert(strings_view(quoted@) =~= before.push(quoted_arg(expanded(av[k as int], pv, false)->Ok_0)));
            },
            Err(e) => {
                proof {
                    lemma_expanded_args_err(av, pv, k as int, e@);
                }
                let mut m = "Failed to expand argument template: ".to_owned();
                push_str(&mut m, e.as_str());
                return Err(m);
            },
        }
        k = k + 1;
    }
    assert(av.take(execute_args@.len() as int) =~= av);
    let joined = join_strings(&quoted, " ");
    let mut full = expanded_cmd;
    push_str(&mut full, " ");
    push_str(&mut full, joined.as_str());
    Ok(full)
}

/// Once an argument fails to expand, the whole expansion fails with its
/// error.
proof fn lemma_expanded_args_err(args: Seq<Seq<char>>, vars: Seq<(Seq<char>, Seq<char>)>, k: int, e: Seq<char>)
    requires
        0 <= k < args.len(),
        expanded_args(args.take(k), vars) is Ok,
        expanded(args[k], vars, false) == Err::<Seq<char>, Seq<char>>(e),
    ensures
        expanded_args(args, vars) == Err::<Seq<Seq<char>>, Seq<char>>(e),
    decreases args.len() - k,
{
    assert(args.take(k + 1).drop_last() =~= args.take(k));
    assert(args.take(k + 1).last() == args[k]);
    lemma_expanded_args_err_extend(args, vars, k + 1, e);
}

proof fn lemma_expanded_args_err_extend(args: Seq<Seq<char>>, vars: Seq<(Seq<char>, Seq<char>)>, n: int, e: Seq<char>)
    requires
        0 <= n <= args.len(),
        expanded_args(args.take(n), vars) == Err::<Seq<Seq<char>>, Seq<char>>(e),
    ensures
        expanded_args(args, vars) == Err::<Seq<Seq<char>>, Seq<char>>(e),
    decreases args.len() - n,
{
    if n < args.len() {
        assert(args.take(n + 1).drop_last() =~= args.take(n));
        lemma_expanded_args_err_extend(args, vars, n + 1, e);
    } else {
        assert(args.take(n) =~= args);
    }
}

/// What kind of switch happened.
#[derive(Debug, Clone, Copy, PartialEq, Eq, Structural)]
pub enum SwitchKind {
    /// The shell is already in the target worktree.
    AlreadyAt,
    /// An existing worktree was switched to.
    Existing,
    /// A worktree was created.
    Created,
}

/// What the user is told after a switch.
#[derive(Debug, Clone, Copy, PartialEq, Eq, Structural)]
pub enum SwitchNotice {
    /// Already there: an informational message.
    AlreadyAt,
    /// Success, with the hint about shell integration when `hint` is set.
    Success { hint: bool },
    /// The shell cannot change directory: a warning and the hint.
    CannotCd,
}

/// The notice after a switch: an existing worktree can be entered only with
/// shell integration (active or configured) or an `--execute` command;
/// after creating one, the hint is shown unless shell integration is active
/// or a command is executed.
pub open spec fn notice_for(kind: SwitchKind, directive_mode: bool, has_execute: bool, configured: bool) -> SwitchNotice {
    match kind {
        SwitchKind::AlreadyAt => SwitchNotice::AlreadyAt,
        SwitchKind::Existing => if directive_mode || has_execute || configured {
            SwitchNotice::Success { hint: false }
        } else {
            SwitchNotice::CannotCd
        },
        SwitchKind::Created => SwitchNotice::Success { hint: !directive_mode && !has_execute },
    }
}

/// Decide what to tell the user after a switch.
pub fn switch_notice(kind: SwitchKind, directive_mode: bool, has_execute: bool, configured: bool) -> (res: SwitchNotice)
    ensures
        res == notice_for(kind, directive_mode, has_execute, configured),
{
    match kind {
        SwitchKind::AlreadyAt => SwitchNotice::AlreadyAt,
        SwitchKind::Existing => if directive_mode || has_execute || configured {
            SwitchNotice::Success { hint: false }
        } else {
            SwitchNotice::CannotCd
        },
        SwitchKind::Created => SwitchNotice::Success { hint: !directive_mode && !has_execute },
    }
}

/// The message when the shell is already in the target worktree.
pub fn already_at_message(branch: &str, path: &str, color: bool) -> (res: String)
    ensures
        res@ == rich_message(color, TextStyle { fg: None, bg: None, bold: false, dimmed: false }, INFO_EMOJI,
            seq![pl("Already on worktree for "@), bo(branch@), pl(" at "@), bo(path@)]),
{
    let ps = parts(&[("Already on worktree for ", PartKind::Plain), (branch, PartKind::Bold), (" at ", PartKind::Plain),
        (path, PartKind::Bold)]);
    rich_message_exec(color, TextStyle::plain(), INFO_EMOJI, &ps)
}

/// The warning when the shell cannot change to the worktree.
pub fn cannot_cd_warning(branch: &str, path: &str, color: bool) -> (res: String)
    ensures
        res@ == warning_msg(color, seq![pl("Worktree for "@), bo(branch@), pl(" at "@), bo(path@),
            pl("; cannot cd (no shell integration)"@)]),
{
    warning_message(&parts(&[("Worktree for ", PartKind::Plain), (branch, PartKind::Bold), (" at ", PartKind::Plain),
        (path, PartKind::Bold), ("; cannot cd (no shell integration)", PartKind::Plain)]), color)
}

/// The hint about installing shell integration.
pub fn shell_integration_hint(color: bool) -> (res: String)
    ensures
        res@ == hint_msg(color, seq![pl("Run `wt config shell install` to enable automatic cd"@)]),
{
    hint_message(&parts(&[("Run `wt config shell install` to enable automatic cd", PartKind::Plain)]), color)
}

/// The action and the source named by a switch's success message: a branch
/// created with `--create` names its base, a worktree created from a remote
/// branch names the remote, and a switch to an existing worktree names none.
pub open spec fn switch_action(created_branch: bool, base_branch: Option<Seq<char>>, from_remote: Option<Seq<char>>)
    -> (Seq<char>, Option<Seq<char>>)
{
    if created_branch {
        ("Created new worktree for "@, base_branch)
    } else if from_remote is Some {
        ("Created worktree for "@, from_remote)
    } else {
        ("Switched to worktree for "@, None)
    }
}

/// The parts of a switch's success message.
pub open spec fn switch_success_parts(branch: Seq<char>, path: Seq<char>, created_branch: bool,
    base_branch: Option<Seq<char>>, from_remote: Option<Seq<char>>) -> Seq<(Seq<char>, PartKind)>
{
    let (action, source) = switch_action(created_branch, base_branch, from_remote);
    match source {
        Some(src) => seq![pl(action), bo(branch), pl(" from "@), bo(src), pl(" at "@), bo(path)],
        None => seq![pl(action), bo(branch), pl(" at "@), bo(path)],
    }
}

/// The success message of a switch; `path` is the worktree's path as shown.
pub fn format_switch_success_message(
    branch: &str,
    path: &str,
    created_branch: bool,
    base_branch: Option<&str>,
    from_remote: Option<&str>,
    color: bool,
) -> (res: String)
    ensures
        res@ == success_msg(color, switch_success_parts(branch@, path@, created_branch,
            match base_branch { Some(b) => Some(b@), None => None },
            match from_remote { Some(r) => Some(r@), None => None })),
{
    let (action, source): (&str, Option<&str>) = if created_branch {
        ("Created new worktree for ", base_branch)
    } else if let Some(remote) = from_remote {
        ("Created worktree for ", Some(remote))
    } else {
        ("Switched to worktree for ", None)
    };
    let ps = match source {
        Some(src) => parts(&[(action, PartKind::Plain), (branch, PartKind::Bold), (" from ", PartKind::Plain),
            (src, PartKind::Bold), (" at ", PartKind::Plain), (path, PartKind::Bold)]),
        None => parts(&[(action, PartKind::Plain), (branch, PartKind::Bold), (" at ", PartKind::Plain),
            (path, PartKind::Bold)]),
    };
    success_message(&ps, color)
}

} // verus!

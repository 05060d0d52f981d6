//! Approving project commands: which commands still need approval, how the
//! prompt and a refusal read, what the answer means, and how approvals are
//! remembered.

use vstd::prelude::*;
use crate::git::{hook_type_name, HookType};
use crate::styling::{
    bold_style, style_prefix, style_suffix, AnsiColor, TextStyle, HINT_EMOJI, INFO_EMOJI, PROGRESS_EMOJI, WARNING_EMOJI,
};
use crate::text::{
    decimal, decimal_string, eq_ascii_ci, eq_ignore_ascii_case, push_char, push_str, split_at_char, split_char,
    str_eq, strings_view, trim, trim_str,
};

verus! {

/// A project command as shown for approval.
pub struct ApprovalCommand {
    pub name: Option<String>,
    /// The command as written in the project configuration; approvals are
    /// remembered by it.
    pub template: String,
    /// The command with its variables filled in, as shown to the user.
    pub expanded: String,
    pub phase: HookType,
}

/// The commands that still need approval: all of them when they were
/// already filtered, else those whose template is not approved yet.
pub open spec fn needing_approval(cs: Seq<ApprovalCommand>, approved: Seq<Seq<char>>, filtered: bool) -> Seq<ApprovalCommand> {
    cs.filter(|c: ApprovalCommand| filtered || !approved.contains(c.template@))
}

fn contains_str_in(v: &Vec<String>, s: &str) -> (b: bool)
    ensures
        b == strings_view(v@).contains(s@),
{
    let mut k: usize = 0;
    while k < v.len()
        invariant
            k <= v@.len(),
            forall|m: int| 0 <= m < k ==> strings_view(v@)[m] != s@,
        decreases v@.len() - k,
    {
        if str_eq(v[k].as_str(), s) {
            assert(strings_view(v@)[k as int] == s@);
            return true;
        }
        k = k + 1;
    }
    false
}

/// The indices of the commands that still need approval, given the
/// templates approved for the project.
pub fn commands_needing_approval(commands: &Vec<ApprovalCommand>, approved: &Vec<String>, already_filtered: bool) -> (res: Vec<usize>)
    ensures
        res@.len() == needing_approval(commands@, strings_view(approved@), already_filtered).len(),
        forall|i: int| 0 <= i < res@.len() ==> #[trigger] res@[i] < commands@.len()
            && commands@[res@[i] as int] == needing_approval(commands@, strings_view(approved@), already_filtered)[i],
{
    let ghost cs = commands@;
    let ghost av = strings_view(approved@);
    let ghost keep = |c: ApprovalCommand| already_filtered || !av.contains(c.template@);
    let mut out: Vec<usize> = Vec::new();
    let mut k: usize = 0;
    while k < commands.len()
        invariant
            k <= cs.len(),
            cs == commands@,
            av == strings_view(approved@),
            keep == (|c: ApprovalCommand| already_filtered || !av.contains(c.template@)),
            out@.len() == cs.take(k as int).filter(keep).len(),
            forall|i: int| 0 <= i < out@.len() ==> #[trigger] out@[i] < k
                && cs[out@[i] as int] == cs.take(k as int).filter(keep)[i],
        decreases cs.len() - k,
    {
        proof {
            assert(cs.take(k + 1).drop_last() =~= cs.take(k as int));
            reveal(Seq::filter);
        }
        if already_filtered || !contains_str_in(approved, commands[k].template.as_str()) {
            out.push(k);
        }
        k = k + 1;
    }
    assert(cs.take(cs.len() as int) =~= cs);
    out
}

/// Every template of a batch in the approved list leaves none of the batch's
/// commands needing approval.
proof fn lemma_all_approved(cs: Seq<ApprovalCommand>, approved: Seq<Seq<char>>)
    requires
        forall|i: int| 0 <= i < cs.len() ==> approved.contains(#[trigger] cs[i].template@),
    ensures
        needing_approval(cs, approved, false).len() == 0,
    decreases cs.len(),
{
    reveal(Seq::filter);
    if cs.len() > 0 {
        let rest = cs.drop_last();
        assert forall|i: int| 0 <= i < rest.len() implies approved.contains(#[trigger] rest[i].template@) by {
            assert(rest[i] == cs[i]);
        }
        lemma_all_approved(rest, approved);
        assert(approved.contains(cs[cs.len() - 1].template@));
    }
}

/// Remembering templates keeps what was approved and adds every template.
proof fn lemma_with_approvals_contains(approved: Seq<Seq<char>>, templates: Seq<Seq<char>>)
    ensures
        forall|x: Seq<char>| approved.contains(x) ==> with_approvals(approved, templates).contains(x),
        forall|i: int| 0 <= i < templates.len() ==> with_approvals(approved, templates).contains(#[trigger] templates[i]),
    decreases templates.len(),
{
    if templates.len() > 0 {
        let init = templates.drop_last();
        lemma_with_approvals_contains(approved, init);
        let before = with_approvals(approved, init);
        let after = with_approvals(approved, templates);
        assert forall|x: Seq<char>| before.contains(x) implies after.contains(x) by {
            if !before.contains(templates.last()) {
                let j = choose|j: int| 0 <= j < before.len() && before[j] == x;
                assert(after[j] == x);
            }
        }
        assert forall|i: int| 0 <= i < templates.len() implies after.contains(#[trigger] templates[i]) by {
            if i < init.len() {
                assert(init[i] == templates[i]);
                assert(before.contains(init[i]));
            } else if !before.contains(templates.last()) {
                assert(after[before.len() as int] == templates.last());
            }
        }
    }
}

/// Approvals are remembered: after the templates of a batch are recorded
/// (as `record_approvals` records them), none of the batch's commands needs
/// approval again.
pub proof fn lemma_recorded_approvals_suffice(cs: Seq<ApprovalCommand>, approved: Seq<Seq<char>>)
    ensures
        needing_approval(cs, with_approvals(approved, cs.map_values(|c: ApprovalCommand| c.template@)), false).len() == 0,
{
    let ts = cs.map_values(|c: ApprovalCommand| c.template@);
    lemma_with_approvals_contains(approved, ts);
    let after = with_approvals(approved, ts);
    assert forall|i: int| 0 <= i < cs.len() implies after.contains(#[trigger] cs[i].template@) by {
        assert(ts[i] == cs[i].template@);
    }
    lemma_all_approved(cs, after);
}

/// The phase named when commands are declined: the phase of the only
/// command, or the common phase of all, else `commands`.
pub open spec fn declined_phase(phases: Seq<HookType>) -> Seq<char> {
    if phases.len() > 0 && forall|i: int| 0 <= i < phases.len() ==> #[trigger] phases[i] == phases[0] {
        hook_type_name(phases[0])
    } else {
        "commands"@
    }
}

/// The notice shown when the user declines: the phase (as `declined_phase`
/// names it) and `declined`, dimmed when colored.
pub open spec fn declined_notice(phases: Seq<HookType>, color: bool) -> Seq<char> {
    if color {
        seq![INFO_EMOJI, ' '] + seq!['\x1b', '[', '2', 'm'] + declined_phase(phases) + " declined"@ + seq!['\x1b', '[', '0', 'm']
    } else {
        seq![INFO_EMOJI, ' '] + declined_phase(phases) + " declined"@
    }
}

/// The notice shown when the user declines the commands.
pub fn declined_message(commands: &Vec<ApprovalCommand>, color: bool) -> (res: String)
    ensures
        res@ == declined_notice(commands@.map_values(|c: ApprovalCommand| c.phase), color),
{
    let ghost phases = commands@.map_values(|c: ApprovalCommand| c.phase);
    let mut same = commands.len() > 0;
    if same {
        let first = commands[0].phase;
        let mut k: usize = 1;
        while k < commands.len()
            invariant
                1 <= k <= commands@.len(),
                phases == commands@.map_values(|c: ApprovalCommand| c.phase),
                first == phases[0],
                same == forall|i: int| 0 <= i < k ==> #[trigger] phases[i] == phases[0],
            decreases commands@.len() - k,
        {
            assert(phases[k as int] == commands@[k as int].phase);
            if commands[k].phase != first {
                same = false;
            }
            k = k + 1;
        }
    }
    let phase: &str = if same { commands[0].phase.name() } else { "commands" };
    let mut out = String::new();
    push_char(&mut out, INFO_EMOJI);
    push_char(&mut out, ' ');
    if color {
        push_str(&mut out, "\x1b[2m");
        proof { reveal_strlit("\x1b[2m"); }
    }
    push_str(&mut out, phase);
    push_str(&mut out, " declined");
    if color {
        push_str(&mut out, "\x1b[0m");
        proof { reveal_strlit("\x1b[0m"); }
    }
    out
}

/// The project's name as shown in the prompt: the last `/`-separated piece
/// of its identifier.
pub open spec fn project_name(project_id: Seq<char>) -> Seq<char> {
    split_at_char(project_id, '/').last()
}

/// The project's name as shown in the prompt.
pub fn project_display_name(project_id: &str) -> (res: String)
    ensures
        res@ == project_name(project_id@),
{
    let mut pieces = split_char(project_id, '/');
    proof {
        assert(split_at_char(project_id@, '/').len() > 0) by {
            crate::text::lemma_find_char(project_id@, '/');
        }
    }
    let ghost whole = strings_view(pieces@);
    let last = pieces.pop().unwrap();
    assert(whole.last() == last@);
    last
}

/// Codes that switch into a style, when colored.
pub open spec fn on(color: bool, style: TextStyle) -> Seq<char> {
    if color { style_prefix(style) } else { Seq::empty() }
}

/// Codes that end a style, when colored.
pub open spec fn off(color: bool, style: TextStyle) -> Seq<char> {
    if color { style_suffix(style) } else { Seq::empty() }
}

/// The warning style of the prompt (yellow) and its emphasis (bold yellow).
pub open spec fn prompt_style(emphasis: bool) -> TextStyle {
    TextStyle { fg: Some(AnsiColor::Yellow), bg: None, bold: emphasis, dimmed: false }
}

/// The head line of the approval prompt: who wants to run how many commands,
/// the project and the count emphasized.
pub open spec fn prompt_header(project: Seq<char>, count: nat, color: bool) -> Seq<char> {
    seq![WARNING_EMOJI, ' '] + on(color, prompt_style(false)) + on(color, prompt_style(true)) + project
        + off(color, prompt_style(true)) + " wants to execute "@ + on(color, prompt_style(true)) + decimal(count)
        + off(color, prompt_style(true)) + " command"@ + (if count == 1 { ""@ } else { "s"@ }) + ":"@
        + off(color, prompt_style(false))
}

/// Append a style's codes, when colored.
fn push_on(out: &mut String, color: bool, style: TextStyle)
    ensures
        final(out)@ == old(out)@ + on(color, style),
{
    if color {
        let c = style.render();
        push_str(out, c.as_str());
    } else {
        assert(old(out)@ + Seq::<char>::empty() =~= old(out)@);
    }
}

/// Append the codes that end a style, when colored.
fn push_off(out: &mut String, color: bool, style: TextStyle)
    ensures
        final(out)@ == old(out)@ + off(color, style),
{
    if color {
        let c = style.render_reset();
        push_str(out, c.as_str());
    } else {
        assert(old(out)@ + Seq::<char>::empty() =~= old(out)@);
    }
}

/// The head line of the approval prompt.
pub fn approval_prompt_header(project_id: &str, count: usize, color: bool) -> (res: String)
    ensures
        res@ == prompt_header(project_name(project_id@), count as nat, color),
{
    let plain = TextStyle { fg: Some(AnsiColor::Yellow), bg: None, bold: false, dimmed: false };
    let strong = TextStyle { fg: Some(AnsiColor::Yellow), bg: None, bold: true, dimmed: false };
    let name = project_display_name(project_id);
    let mut out = String::new();
    push_char(&mut out, WARNING_EMOJI);
    push_char(&mut out, ' ');
    push_on(&mut out, color, plain);
    push_on(&mut out, color, strong);
    push_str(&mut out, name.as_str());
    push_off(&mut out, color, strong);
    push_str(&mut out, " wants to execute ");
    push_on(&mut out, color, strong);
    let n = decimal_string(count as u128);
    push_str(&mut out, n.as_str());
    push_off(&mut out, color, strong);
    push_str(&mut out, " command");
    proof { reveal_strlit(""); }
    if count != 1 {
        push_str(&mut out, "s");
    }
    push_str(&mut out, ":");
    push_off(&mut out, color, plain);
    out
}

/// The bold style of command names in the prompt.
pub open spec fn strong() -> TextStyle {
    TextStyle { fg: None, bg: None, bold: true, dimmed: false }
}

/// The label of a command in the prompt: its phase and its name in bold.
pub fn approval_command_label(cmd: &ApprovalCommand, color: bool) -> (res: String)
    ensures
        res@ == seq![PROGRESS_EMOJI, ' '] + hook_type_name(cmd.phase) + (match cmd.name {
            Some(n) => " "@ + on(color, strong()) + n@ + off(color, strong()) + ":"@,
            None => ":"@,
        }),
{
    let mut out = String::new();
    push_char(&mut out, PROGRESS_EMOJI);
    push_char(&mut out, ' ');
    push_str(&mut out, cmd.phase.name());
    match &cmd.name {
        Some(n) => {
            push_str(&mut out, " ");
            push_on(&mut out, color, bold_style());
            push_str(&mut out, n.as_str());
            push_off(&mut out, color, bold_style());
            push_str(&mut out, ":");
        },
        None => push_str(&mut out, ":"),
    }
    out
}

/// The question that ends the approval prompt.
pub fn approval_question(color: bool) -> (res: String)
    ensures
        res@ == seq![HINT_EMOJI, ' '] + "Allow and remember? "@ + on(color, strong()) + "[y/N]"@
            + off(color, strong()) + " "@,
{
    let mut out = String::new();
    push_char(&mut out, HINT_EMOJI);
    push_char(&mut out, ' ');
    push_str(&mut out, "Allow and remember? ");
    push_on(&mut out, color, bold_style());
    push_str(&mut out, "[y/N]");
    push_off(&mut out, color, bold_style());
    push_str(&mut out, " ");
    out
}

/// Whether the answer to the prompt approves: `y` in either case, ignoring
/// surrounding whitespace.
pub fn approval_answer(response: &str) -> (b: bool)
    ensures
        b == eq_ascii_ci(trim(response@), "y"@),
{
    let t = trim_str(response);
    eq_ignore_ascii_case(t.as_str(), "y")
}

/// The approved templates after remembering `templates`: each template not
/// yet in the list (nor added before it) is appended once, in order.
pub open spec fn with_approvals(approved: Seq<Seq<char>>, templates: Seq<Seq<char>>) -> Seq<Seq<char>>
    decreases templates.len(),
{
    if templates.len() == 0 {
        approved
    } else {
        let before = with_approvals(approved, templates.drop_last());
        if before.contains(templates.last()) { before } else { before.push(templates.last()) }
    }
}

/// Remember newly approved templates: each one not yet in `approved` is
/// appended once, in order. Returns whether anything was added.
pub fn record_approvals(approved: &mut Vec<String>, templates: &Vec<String>) -> (updated: bool)
    ensures
        strings_view(final(approved)@) == with_approvals(strings_view(old(approved)@), strings_view(templates@)),
        updated <==> final(approved)@.len() > old(approved)@.len(),
{
    let ghost start = strings_view(approved@);
    let ghost tv = strings_view(templates@);
    let mut updated = false;
    let mut k: usize = 0;
    assert(tv.take(0) =~= Seq::<Seq<char>>::empty());
    while k < templates.len()
        invariant
            k <= templates@.len(),
            tv == strings_view(templates@),
            strings_view(approved@) == with_approvals(start, tv.take(k as int)),
            approved@.len() >= start.len(),
            updated <==> approved@.len() > start.len(),
        decreases templates@.len() - k,
    {
        assert(tv.take(k + 1).drop_last() =~= tv.take(k as int));
        assert(tv.take(k + 1).last() == templates@[k as int]@);
        let ghost before = approved@;
        if !contains_str_in(approved, templates[k].as_str()) {
            approved.push(templates[k].clone());
            updated = true;
            assert(strings_view(approved@) =~= strings_view(before).push(templates@[k as int]@));
        }
        k = k + 1;
    }
    assert(tv.take(templates@.len() as int) =~= tv);
    updated
}

/// Whether the user is asked to approve a batch: not under `--force` and
/// not when no command needs approval.
pub fn batch_needs_prompt(force: bool, needing: usize) -> (b: bool)
    ensures
        b == (!force && needing > 0),
{
    !force && needing > 0
}

/// The outcome of approving a batch: (approved, whether the approvals are
/// saved). With nothing needing approval or under `--force` the batch is
/// approved and nothing is saved; otherwise the user's answer (`None` when
/// none could be read) decides, and an approval is saved.
pub open spec fn batch_result(force: bool, needing: nat, answer: Option<Seq<char>>) -> (bool, bool) {
    if needing == 0 || force {
        (true, false)
    } else {
        match answer {
            Some(r) => {
                let yes = eq_ascii_ci(trim(r), "y"@);
                (yes, yes)
            },
            None => (false, false),
        }
    }
}

/// Decide a batch approval.
pub fn batch_approval(force: bool, needing: usize, answer: Option<&str>) -> (res: (bool, bool))
    ensures
        res == batch_result(force, needing as nat, match answer { Some(r) => Some(r@), None => None }),
{
    if needing == 0 || force {
        (true, false)
    } else {
        match answer {
            Some(r) => {
                let yes = approval_answer(r);
                (yes, yes)
            },
            None => (false, false),
        }
    }
}

} // verus!

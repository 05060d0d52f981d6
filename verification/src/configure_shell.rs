//! Shell configuration: the shells that can be configured, their startup
//! files, the line that enables the `init` integration, and what configuring
//! one startup file does.

use vstd::prelude::*;
use crate::styling::{bo, parts, pl, success_message, success_msg, PartKind};
use crate::text::{
    ascii_lower, contains_seq, contains_str, eq_ascii_ci, eq_ignore_ascii_case, has_prefix, is_ws, join_path, join_seqs,
    join_strings, lemma_lines_appended, lemma_lines_cons, lines, path_join, push_char, push_str, split_lines, starts_with,
    strip_cr, strings_view, trim, trim_end, trim_start, trim_str,
};

verus! {

/// Supported shells.
#[derive(Debug, Clone, Copy, PartialEq, Eq, Structural)]
pub enum Shell {
    Bash,
    Elvish,
    Fish,
    Nushell,
    Oil,
    Powershell,
    Xonsh,
    Zsh,
}

/// The lowercase name of a shell.
pub open spec fn shell_name(s: Shell) -> Seq<char> {
    match s {
        Shell::Bash => "bash"@,
        Shell::Elvish => "elvish"@,
        Shell::Fish => "fish"@,
        Shell::Nushell => "nushell"@,
        Shell::Oil => "oil"@,
        Shell::Powershell => "powershell"@,
        Shell::Xonsh => "xonsh"@,
        Shell::Zsh => "zsh"@,
    }
}

/// The shell whose name is `s` in any letter case.
pub open spec fn parse_shell(s: Seq<char>) -> Option<Shell> {
    if eq_ascii_ci(s, "bash"@) {
        Some(Shell::Bash)
    } else if eq_ascii_ci(s, "elvish"@) {
        Some(Shell::Elvish)
    } else if eq_ascii_ci(s, "fish"@) {
        Some(Shell::Fish)
    } else if eq_ascii_ci(s, "nushell"@) {
        Some(Shell::Nushell)
    } else if eq_ascii_ci(s, "oil"@) {
        Some(Shell::Oil)
    } else if eq_ascii_ci(s, "powershell"@) {
        Some(Shell::Powershell)
    } else if eq_ascii_ci(s, "xonsh"@) {
        Some(Shell::Xonsh)
    } else if eq_ascii_ci(s, "zsh"@) {
        Some(Shell::Zsh)
    } else {
        None
    }
}

/// The operating system the program runs on, as far as startup file
/// locations depend on it.
#[derive(Debug, Clone, Copy, PartialEq, Eq, Structural)]
pub enum HostOs {
    MacOs,
    Windows,
    Other,
}

/// What startup file locations depend on: the `HOME`, `ZDOTDIR` and
/// `USERPROFILE` variables (each `None` when unset) and the host system.
#[derive(Debug)]
pub struct ShellEnv {
    pub home: Option<String>,
    pub zdotdir: Option<String>,
    pub userprofile: Option<String>,
    pub os: HostOs,
}

/// A variable's value, or `.` when it is unset.
pub open spec fn or_dot(v: Option<String>) -> Seq<char> {
    match v {
        Some(s) => s@,
        None => "."@,
    }
}

/// The startup files of a shell, in order of preference.
pub open spec fn shell_config_paths(shell: Shell, prefix: Seq<char>, env: ShellEnv) -> Seq<Seq<char>> {
    let home = or_dot(env.home);
    match shell {
        Shell::Bash => if env.os == HostOs::MacOs {
            seq![path_join(home, ".bash_profile"@), path_join(home, ".profile"@)]
        } else {
            seq![path_join(home, ".bashrc"@), path_join(home, ".bash_profile"@)]
        },
        Shell::Zsh => seq![path_join(match env.zdotdir { Some(z) => z@, None => home }, ".zshrc"@)],
        Shell::Fish => seq![path_join(path_join(home, ".config/fish/conf.d"@), prefix + ".fish"@)],
        Shell::Nushell => seq![path_join(home, ".config/nushell/config.nu"@)],
        Shell::Powershell => if env.os == HostOs::Windows {
            seq![path_join(or_dot(env.userprofile), "Documents/PowerShell/Microsoft.PowerShell_profile.ps1"@)]
        } else {
            seq![path_join(home, ".config/powershell/Microsoft.PowerShell_profile.ps1"@)]
        },
        Shell::Oil => seq![path_join(home, ".config/oil/oshrc"@)],
        Shell::Elvish => seq![path_join(home, ".config/elvish/rc.elv"@)],
        Shell::Xonsh => seq![path_join(home, ".xonshrc"@)],
    }
}

/// The text before the command name in a shell's integration line.
pub open spec fn line_head(shell: Shell) -> Seq<char> {
    match shell {
        Shell::Elvish => "eval ("@,
        Shell::Xonsh => "execx($("@,
        Shell::Powershell => ""@,
        _ => "eval \"$("@,
    }
}

/// The text after the command name in a shell's integration line.
pub open spec fn line_tail(shell: Shell) -> Seq<char> {
    match shell {
        Shell::Bash => " init bash)\""@,
        Shell::Elvish => " init elvish | slurp)"@,
        Shell::Fish => " init fish | source"@,
        Shell::Nushell => " init nushell)\""@,
        Shell::Oil => " init oil)\""@,
        Shell::Powershell => " init powershell | Out-String | Invoke-Expression"@,
        Shell::Xonsh => " init xonsh))"@,
        Shell::Zsh => " init zsh)\""@,
    }
}

/// The text that enables the integration, as the installation instructions
/// give it for each shell: `eval "$(wt init bash)"` and the like for bash,
/// zsh, oil and nushell, `eval (wt init elvish | slurp)` for elvish,
/// `execx($(wt init xonsh))` for xonsh and
/// `wt init powershell | Out-String | Invoke-Expression` for PowerShell.
/// Fish gets a file of its own: the generated fish script (`generated`),
/// else `wt init fish | source`.
pub open spec fn shell_config_line(shell: Shell, prefix: Seq<char>, generated: Option<Seq<char>>) -> Seq<char> {
    match shell {
        Shell::Fish => match generated {
            Some(g) => g,
            None => prefix + line_tail(Shell::Fish),
        },
        _ => line_head(shell) + prefix + line_tail(shell),
    }
}

/// The two literal parts of a shell's integration line.
fn line_parts(shell: Shell) -> (res: (&'static str, &'static str))
    ensures
        res.0@ == line_head(shell),
        res.1@ == line_tail(shell),
{
    match shell {
        Shell::Bash => ("eval \"$(", " init bash)\""),
        Shell::Elvish => ("eval (", " init elvish | slurp)"),
        Shell::Fish => ("eval \"$(", " init fish | source"),
        Shell::Nushell => ("eval \"$(", " init nushell)\""),
        Shell::Oil => ("eval \"$(", " init oil)\""),
        Shell::Powershell => ("", " init powershell | Out-String | Invoke-Expression"),
        Shell::Xonsh => ("execx($(", " init xonsh))"),
        Shell::Zsh => ("eval \"$(", " init zsh)\""),
    }
}

impl Shell {
    /// Parse a shell name in any letter case.
    pub fn parse(s: &str) -> (res: Result<Shell, String>)
        ensures
            parse_shell(s@) is Some <==> res is Ok,
            res matches Ok(sh) ==> parse_shell(s@) == Some(sh),
            res matches Err(m) ==> m@ == "Unsupported shell: "@ + s@,
    {
        if eq_ignore_ascii_case(s, "bash") {
            Ok(Shell::Bash)
        } else if eq_ignore_ascii_case(s, "elvish") {
            Ok(Shell::Elvish)
        } else if eq_ignore_ascii_case(s, "fish") {
            Ok(Shell::Fish)
        } else if eq_ignore_ascii_case(s, "nushell") {
            Ok(Shell::Nushell)
        } else if eq_ignore_ascii_case(s, "oil") {
            Ok(Shell::Oil)
        } else if eq_ignore_ascii_case(s, "powershell") {
            Ok(Shell::Powershell)
        } else if eq_ignore_ascii_case(s, "xonsh") {
            Ok(Shell::Xonsh)
        } else if eq_ignore_ascii_case(s, "zsh") {
            Ok(Shell::Zsh)
        } else {
            let mut m = "Unsupported shell: ".to_owned();
            push_str(&mut m, s);
            Err(m)
        }
    }

    /// The lowercase name of the shell.
    pub fn name(&self) -> (res: &'static str)
        ensures
            res@ == shell_name(*self),
    {
        match self {
            Shell::Bash => "bash",
            Shell::Elvish => "elvish",
            Shell::Fish => "fish",
            Shell::Nushell => "nushell",
            Shell::Oil => "oil",
            Shell::Powershell => "powershell",
            Shell::Xonsh => "xonsh",
            Shell::Zsh => "zsh",
        }
    }

    /// The lowercase name of the shell, as an owned string.
    pub fn to_string(&self) -> (res: String)
        ensures
            res@ == shell_name(*self),
    {
        self.name().to_owned()
    }

    /// Whether completion generation is supported for this shell.
    pub fn supports_completion(&self) -> (b: bool)
        ensures
            b <==> (*self == Shell::Bash || *self == Shell::Fish || *self == Shell::Zsh || *self == Shell::Oil),
    {
        match self {
            Shell::Bash | Shell::Fish | Shell::Zsh | Shell::Oil => true,
            _ => false,
        }
    }

    /// The startup files of this shell, in order of preference; for fish the
    /// file in `conf.d` is named after `cmd_prefix`.
    pub fn config_paths(&self, cmd_prefix: &str, env: &ShellEnv) -> (res: Vec<String>)
        ensures
            strings_view(res@) == shell_config_paths(*self, cmd_prefix@, *env),
    {
        let home: String = match &env.home {
            Some(h) => h.clone(),
            None => ".".to_owned(),
        };
        let mut v: Vec<String> = Vec::new();
        match self {
            Shell::Bash => {
                if env.os == HostOs::MacOs {
                    v.push(join_path(home.as_str(), ".bash_profile"));
                    v.push(join_path(home.as_str(), ".profile"));
                } else {
                    v.push(join_path(home.as_str(), ".bashrc"));
                    v.push(join_path(home.as_str(), ".bash_profile"));
                }
            },
            Shell::Zsh => {
                let base: String = match &env.zdotdir {
                    Some(z) => z.clone(),
                    None => home.clone(),
                };
                v.push(join_path(base.as_str(), ".zshrc"));
            },
            Shell::Fish => {
                let dir = join_path(home.as_str(), ".config/fish/conf.d");
                let mut file = cmd_prefix.to_owned();
                push_str(&mut file, ".fish");
                v.push(join_path(dir.as_str(), file.as_str()));
            },
            Shell::Nushell => {
                v.push(join_path(home.as_str(), ".config/nushell/config.nu"));
            },
            Shell::Powershell => {
                if env.os == HostOs::Windows {
                    let profile: String = match &env.userprofile {
                        Some(u) => u.clone(),
                        None => ".".to_owned(),
                    };
                    v.push(join_path(profile.as_str(), "Documents/PowerShell/Microsoft.PowerShell_profile.ps1"));
                } else {
                    v.push(join_path(home.as_str(), ".config/powershell/Microsoft.PowerShell_profile.ps1"));
                }
            },
            Shell::Oil => {
                v.push(join_path(home.as_str(), ".config/oil/oshrc"));
            },
            Shell::Elvish => {
                v.push(join_path(home.as_str(), ".config/elvish/rc.elv"));
            },
            Shell::Xonsh => {
                v.push(join_path(home.as_str(), ".xonshrc"));
            },
        }
        assert(strings_view(v@) =~= shell_config_paths(*self, cmd_prefix@, *env));
        v
    }

    /// The text that enables the integration. For fish it is the generated
    /// fish script, which `generated` holds, else a line that sources the
    /// output of `init`.
    pub fn config_line(&self, cmd_prefix: &str, generated: Option<String>) -> (res: String)
        ensures
            res@ == shell_config_line(*self, cmd_prefix@, match generated { Some(g) => Some(g@), None => None }),
    {
        let (head, tail) = line_parts(*self);
        match self {
            Shell::Fish => match generated {
                Some(g) => g,
                None => {
                    let mut m = cmd_prefix.to_owned();
                    push_str(&mut m, tail);
                    m
                },
            },
            _ => {
                let mut m = head.to_owned();
                push_str(&mut m, cmd_prefix);
                push_str(&mut m, tail);
                m
            },
        }
    }
}

impl std::str::FromStr for Shell {
    type Err = String;

    fn from_str(s: &str) -> (res: Result<Self, Self::Err>)
        ensures
            parse_shell(s@) is Some <==> res is Ok,
            res matches Ok(sh) ==> parse_shell(s@) == Some(sh),
            res matches Err(m) ==> m@ == "Unsupported shell: "@ + s@,
    {
        Shell::parse(s)
    }
}

/// Shell integration configuration.
pub struct ShellInit {
    pub shell: Shell,
    pub cmd_prefix: String,
}

impl ShellInit {
    pub fn new(shell: Shell, cmd_prefix: String) -> (res: Self)
        ensures
            res.shell == shell,
            res.cmd_prefix == cmd_prefix,
    {
        ShellInit { shell, cmd_prefix }
    }
}

/// What configuring a shell did, or would do in a dry run.
#[derive(Debug, Clone, Copy, PartialEq, Eq, Structural)]
pub enum ConfigAction {
    Added,
    AlreadyExists,
    Created,
    WouldAdd,
    WouldCreate,
}

/// The wording of an action.
pub open spec fn action_description(a: ConfigAction) -> Seq<char> {
    match a {
        ConfigAction::Added => "Added"@,
        ConfigAction::AlreadyExists => "Already configured"@,
        ConfigAction::Created => "Created"@,
        ConfigAction::WouldAdd => "Would add to"@,
        ConfigAction::WouldCreate => "Would create"@,
    }
}

impl ConfigAction {
    /// The wording of the action, as shown to the user.
    pub fn description(&self) -> (res: &'static str)
        ensures
            res@ == action_description(*self),
    {
        match self {
            ConfigAction::Added => "Added",
            ConfigAction::AlreadyExists => "Already configured",
            ConfigAction::Created => "Created",
            ConfigAction::WouldAdd => "Would add to",
            ConfigAction::WouldCreate => "Would create",
        }
    }
}

/// The outcome of configuring one shell.
pub struct ConfigureResult {
    pub shell: Shell,
    pub path: String,
    pub action: ConfigAction,
}

/// How a startup file is written.
#[derive(Debug, Clone, Copy, PartialEq, Eq, Structural)]
pub enum WriteKind {
    /// Append to the existing file.
    Append,
    /// Create the parent directories and write the whole file.
    Replace,
}

/// A write to a startup file.
pub struct FileWrite {
    pub kind: WriteKind,
    pub text: String,
}

/// What to do with one startup file: the action to report and the write to
/// perform, if any.
pub struct ConfigurePlan {
    pub action: ConfigAction,
    pub write: Option<FileWrite>,
}

/// The view of a plan: the action and the write as (kind, text).
pub open spec fn plan_view(p: ConfigurePlan) -> (ConfigAction, Option<(WriteKind, Seq<char>)>) {
    (p.action, match p.write {
        Some(w) => Some((w.kind, w.text@)),
        None => None,
    })
}

/// Whether a line is the `eval` line of the integration for `prefix`
/// (with double or single quotes), ignoring surrounding whitespace.
pub open spec fn is_eval_line(line: Seq<char>, prefix: Seq<char>) -> bool {
    has_prefix(trim(line), "eval \"$("@ + prefix + " init"@) || has_prefix(trim(line), "eval '$("@ + prefix + " init"@)
}

/// Whether a line enables the integration: an `eval` line for `prefix`, or
/// a line that starts with the integration line `config` (surrounding
/// whitespace ignored on both).
pub open spec fn is_integration_line(line: Seq<char>, prefix: Seq<char>, config: Seq<char>) -> bool {
    is_eval_line(line, prefix) || has_prefix(trim(line), trim(config))
}

/// Whether a startup file already holds a line that enables the integration.
pub open spec fn has_integration_line(content: Seq<char>, prefix: Seq<char>, config: Seq<char>) -> bool {
    exists|i: int| 0 <= i < lines(content).len() && is_integration_line(#[trigger] lines(content)[i], prefix, config)
}

/// Whether a fish file already holds the integration: it defines the
/// command's function or holds the fish integration text `config`.
pub open spec fn has_fish_integration(content: Seq<char>, prefix: Seq<char>, config: Seq<char>) -> bool {
    contains_seq(content, "function "@ + prefix) || contains_seq(content, config)
}

/// What configuring the startup file of `shell` does: `existing` is the
/// file's content (`None` when there is no such file), `line` the text that
/// enables the integration, `explicit` whether the user asked for this shell.
/// `None` means nothing is done: the file does not exist and the shell was
/// not asked for.
pub open spec fn configure_plan(
    shell: Shell,
    existing: Option<Seq<char>>,
    line: Seq<char>,
    prefix: Seq<char>,
    dry_run: bool,
    explicit: bool,
) -> Option<(ConfigAction, Option<(WriteKind, Seq<char>)>)> {
    if shell == Shell::Fish {
        match existing {
            Some(c) => if has_fish_integration(c, prefix, line) {
                Some((ConfigAction::AlreadyExists, None))
            } else if dry_run {
                Some((ConfigAction::WouldAdd, None))
            } else {
                Some((ConfigAction::Created, Some((WriteKind::Replace, line))))
            },
            None => if !explicit {
                None
            } else if dry_run {
                Some((ConfigAction::WouldCreate, None))
            } else {
                Some((ConfigAction::Created, Some((WriteKind::Replace, line))))
            },
        }
    } else {
        match existing {
            Some(c) => if has_integration_line(c, prefix, line) {
                Some((ConfigAction::AlreadyExists, None))
            } else if dry_run {
                Some((ConfigAction::WouldAdd, None))
            } else {
                Some((ConfigAction::Added, Some((WriteKind::Append, seq!['\n'] + line + seq!['\n']))))
            },
            None => if !explicit {
                None
            } else if dry_run {
                Some((ConfigAction::WouldCreate, None))
            } else {
                Some((ConfigAction::Created, Some((WriteKind::Replace, line + seq!['\n']))))
            },
        }
    }
}

fn find_integration_line(content: &str, prefix: &str, config: &str) -> (b: bool)
    ensures
        b == has_integration_line(content@, prefix@, config@),
{
    let mut dq = "eval \"$(".to_owned();
    push_str(&mut dq, prefix);
    push_str(&mut dq, " init");
    let mut sq = "eval '$(".to_owned();
    push_str(&mut sq, prefix);
    push_str(&mut sq, " init");
    let own = trim_str(config);
    let ls = split_lines(content);
    let mut i: usize = 0;
    while i < ls.len()
        invariant
            i <= ls@.len(),
            ls@.len() == lines(content@).len(),
            forall|k: int| 0 <= k < ls@.len() ==> #[trigger] ls@[k]@ == lines(content@)[k],
            dq@ == "eval \"$("@ + prefix@ + " init"@,
            sq@ == "eval '$("@ + prefix@ + " init"@,
            own@ == trim(config@),
            forall|k: int| 0 <= k < i ==> !is_integration_line(#[trigger] lines(content@)[k], prefix@, config@),
        decreases ls@.len() - i,
    {
        let t = trim_str(ls[i].as_str());
        if starts_with(t.as_str(), dq.as_str()) || starts_with(t.as_str(), sq.as_str())
            || starts_with(t.as_str(), own.as_str()) {
            assert(is_integration_line(lines(content@)[i as int], prefix@, config@));
            return true;
        }
        i = i + 1;
    }
    false
}

/// Decide what configuring the startup file of `shell` does, given its
/// content (`None` when the file does not exist).
pub fn plan_configure_file(
    shell: Shell,
    existing: Option<&str>,
    config_line: &str,
    cmd_prefix: &str,
    dry_run: bool,
    explicit_shell: bool,
) -> (res: Option<ConfigurePlan>)
    ensures
        (match res { Some(p) => Some(plan_view(p)), None => None }) == configure_plan(
            shell,
            match existing { Some(c) => Some(c@), None => None },
            config_line@,
            cmd_prefix@,
            dry_run,
            explicit_shell,
        ),
{
    match existing {
        Some(content) => {
            let configured = if shell == Shell::Fish {
                let mut pat = "function ".to_owned();
                push_str(&mut pat, cmd_prefix);
                contains_str(content, pat.as_str()) || contains_str(content, config_line)
            } else {
                find_integration_line(content, cmd_prefix, config_line)
            };
            if configured {
                Some(ConfigurePlan { action: ConfigAction::AlreadyExists, write: None })
            } else if dry_run {
                Some(ConfigurePlan { action: ConfigAction::WouldAdd, write: None })
            } else if shell == Shell::Fish {
                Some(ConfigurePlan {
                    action: ConfigAction::Created,
                    write: Some(FileWrite { kind: WriteKind::Replace, text: config_line.to_owned() }),
                })
            } else {
                let mut text = String::new();
                push_char(&mut text, '\n');
                push_str(&mut text, config_line);
                push_char(&mut text, '\n');
                Some(ConfigurePlan { action: ConfigAction::Added, write: Some(FileWrite { kind: WriteKind::Append, text }) })
            }
        },
        None => {
            if !explicit_shell {
                None
            } else if dry_run {
                Some(ConfigurePlan { action: ConfigAction::WouldCreate, write: None })
            } else {
                let mut text = config_line.to_owned();
                if shell != Shell::Fish {
                    push_char(&mut text, '\n');
                }
                Some(ConfigurePlan { action: ConfigAction::Created, write: Some(FileWrite { kind: WriteKind::Replace, text }) })
            }
        },
    }
}

/// The shells to configure: the one asked for, or all of them in a fixed
/// order.
pub open spec fn shells_for(filter: Option<Shell>) -> Seq<Shell> {
    match filter {
        Some(s) => seq![s],
        None => seq![Shell::Bash, Shell::Zsh, Shell::Fish, Shell::Nushell, Shell::Powershell, Shell::Oil, Shell::Elvish,
            Shell::Xonsh],
    }
}

/// The shells to configure, in order.
pub fn shells_to_configure(filter: Option<Shell>) -> (res: Vec<Shell>)
    ensures
        res@ == shells_for(filter),
{
    match filter {
        Some(s) => vec![s],
        None => vec![Shell::Bash, Shell::Zsh, Shell::Fish, Shell::Nushell, Shell::Powershell, Shell::Oil, Shell::Elvish,
            Shell::Xonsh],
    }
}

/// The index of the first startup file that exists, when `exists` tells
/// which do.
pub open spec fn first_existing(exists: Seq<bool>) -> Option<int>
    decreases exists.len(),
{
    if exists.len() == 0 {
        None
    } else if exists[0] {
        Some(0)
    } else {
        match first_existing(exists.drop_first()) {
            Some(i) => Some(i + 1),
            None => None,
        }
    }
}

/// The startup file to configure: the first that exists; when none does,
/// the first candidate if the user asked for this shell; else none.
pub open spec fn target_index(exists: Seq<bool>, explicit: bool) -> Option<int> {
    match first_existing(exists) {
        Some(i) => Some(i),
        None => if explicit && exists.len() > 0 { Some(0) } else { None },
    }
}

proof fn lemma_first_existing(exists: Seq<bool>, i: int)
    requires
        0 <= i <= exists.len(),
        forall|k: int| 0 <= k < i ==> !exists[k],
    ensures
        i < exists.len() && exists[i] ==> first_existing(exists) == Some(i),
        i == exists.len() ==> first_existing(exists) is None,
    decreases i,
{
    if i > 0 {
        lemma_first_existing(exists.drop_first(), i - 1);
    }
}

/// Choose which candidate startup file to configure.
pub fn config_target(exists: &Vec<bool>, explicit_shell: bool) -> (res: Option<usize>)
    ensures
        (match res { Some(i) => Some(i as int), None => None }) == target_index(exists@, explicit_shell),
{
    let mut i: usize = 0;
    while i < exists.len()
        invariant
            i <= exists@.len(),
            forall|k: int| 0 <= k < i ==> !exists@[k],
        decreases exists@.len() - i,
    {
        if exists[i] {
            proof { lemma_first_existing(exists@, i as int); }
            return Some(i);
        }
        i = i + 1;
    }
    proof { lemma_first_existing(exists@, i as int); }
    if explicit_shell && exists.len() > 0 {
        Some(0)
    } else {
        None
    }
}

/// The error when no startup file was found for any shell, naming the first
/// three paths that were checked.
pub open spec fn no_config_message(checked: Seq<Seq<char>>) -> Seq<char> {
    "No shell config files found in $HOME. Checked: "@ + join_seqs(checked.take(if checked.len() < 3 { checked.len() as int } else { 3 }), ", "@)
        + ", and more. Create a config file or use --shell to specify a shell."@
}

/// The error when no startup file was found for any shell.
pub fn no_config_files_message(checked: &Vec<String>) -> (res: String)
    ensures
        res@ == no_config_message(strings_view(checked@)),
{
    let mut first: Vec<String> = Vec::new();
    let mut i: usize = 0;
    while i < checked.len() && i < 3
        invariant
            i <= checked@.len(),
            i <= 3,
            first@.len() == i,
            forall|k: int| 0 <= k < i ==> #[trigger] first@[k] == checked@[k],
        decreases checked@.len() - i,
    {
        first.push(checked[i].clone());
        i = i + 1;
    }
    let ghost n: int = if checked@.len() < 3 { checked@.len() as int } else { 3 };
    assert(strings_view(first@) =~= strings_view(checked@).take(n));
    let mut m = "No shell config files found in $HOME. Checked: ".to_owned();
    let joined = join_strings(&first, ", ");
    push_str(&mut m, joined.as_str());
    push_str(&mut m, ", and more. Create a config file or use --shell to specify a shell.");
    m
}

/// The outcome of configuring every shell: when no shell was named and no
/// startup file was configured, the error naming the files checked;
/// otherwise the results, unchanged (with `--shell`, even when empty).
pub fn configure_all_outcome(results: Vec<ConfigureResult>, shell_given: bool, checked: &Vec<String>) -> (res: Result<Vec<ConfigureResult>, String>)
    ensures
        res is Err <==> (results@.len() == 0 && !shell_given),
        res matches Err(m) ==> m@ == no_config_message(strings_view(checked@)),
        res matches Ok(v) ==> v@ == results@,
{
    if results.len() == 0 && !shell_given {
        Err(no_config_files_message(checked))
    } else {
        Ok(results)
    }
}

/// The error when configuring a shell failed.
pub fn configure_error_message(shell: Shell, detail: &str) -> (res: String)
    ensures
        res@ == "Failed to configure "@ + shell_name(shell) + ": "@ + detail@,
{
    let mut m = "Failed to configure ".to_owned();
    push_str(&mut m, shell.name());
    push_str(&mut m, ": ");
    push_str(&mut m, detail);
    m
}

/// A shell's name parses back to the shell.
pub proof fn lemma_parse_shell_name(s: Shell)
    ensures
        parse_shell(shell_name(s)) == Some(s),
{
    reveal_strlit("bash");
    reveal_strlit("elvish");
    reveal_strlit("fish");
    reveal_strlit("nushell");
    reveal_strlit("oil");
    reveal_strlit("powershell");
    reveal_strlit("xonsh");
    reveal_strlit("zsh");
    if s == Shell::Fish {
        assert(ascii_lower("fish"@[0]) != ascii_lower("bash"@[0]));
        assert(!eq_ascii_ci("fish"@, "bash"@));
    }
    if s == Shell::Zsh {
        assert(ascii_lower("zsh"@[0]) != ascii_lower("oil"@[0]));
        assert(!eq_ascii_ci("zsh"@, "oil"@));
    }
}

/// The startup file after a plan's write: the text appended to the file (an
/// empty file when there was none) or the file replaced by the text.
pub open spec fn after_write(existing: Option<Seq<char>>, write: (WriteKind, Seq<char>)) -> Seq<char> {
    match write.0 {
        WriteKind::Append => match existing {
            Some(c) => c + write.1,
            None => write.1,
        },
        WriteKind::Replace => write.1,
    }
}

/// The integration line of a shell other than fish holds no newline (when
/// the command prefix holds none) and does not end with a carriage return.
proof fn lemma_config_line(shell: Shell, prefix: Seq<char>)
    requires
        shell != Shell::Fish,
        !prefix.contains('\n'),
    ensures
        !shell_config_line(shell, prefix, None).contains('\n'),
        strip_cr(shell_config_line(shell, prefix, None)) == shell_config_line(shell, prefix, None),
{
    reveal_strlit("eval (");
    reveal_strlit("execx($(");
    reveal_strlit("");
    reveal_strlit("eval \"$(");
    reveal_strlit(" init bash)\"");
    reveal_strlit(" init elvish | slurp)");
    reveal_strlit(" init nushell)\"");
    reveal_strlit(" init oil)\"");
    reveal_strlit(" init powershell | Out-String | Invoke-Expression");
    reveal_strlit(" init xonsh))");
    reveal_strlit(" init zsh)\"");
    let a = line_head(shell);
    let b = line_tail(shell);
    let line = a + prefix + b;
    assert(shell_config_line(shell, prefix, None) == line);
    assert(b.len() > 0 && b.last() != '\r');
    assert forall|i: int| 0 <= i < line.len() implies line[i] != '\n' by {
        if i < a.len() {
            assert(line[i] == a[i]);
        } else if i < a.len() + prefix.len() {
            assert(line[i] == prefix[i - a.len()]);
        } else {
            assert(line[i] == b[i - a.len() - prefix.len()]);
        }
    }
    assert(line.last() == b.last());
}

/// A string occurs in itself.
proof fn lemma_contains_self(s: Seq<char>)
    ensures
        contains_seq(s, s),
{
    assert(s.subrange(0, s.len() as int) =~= s);
    assert(crate::text::occurs_at(s, s, 0));
}

/// Installing is idempotent: once the write of a plan is applied to the
/// startup file, planning again for the same shell and command finds the
/// integration already configured and writes nothing.
pub proof fn lemma_install_idempotent(
    shell: Shell,
    existing: Option<Seq<char>>,
    prefix: Seq<char>,
    generated: Option<Seq<char>>,
    explicit: bool,
    action: ConfigAction,
    write: (WriteKind, Seq<char>),
    dry_run_again: bool,
    explicit_again: bool,
)
    requires
        shell != Shell::Fish ==> !prefix.contains('\n') && generated is None,
        configure_plan(shell, existing, shell_config_line(shell, prefix, generated), prefix, false, explicit)
            == Some((action, Some(write))),
    ensures
        configure_plan(shell, Some(after_write(existing, write)), shell_config_line(shell, prefix, generated), prefix,
            dry_run_again, explicit_again) == Some((ConfigAction::AlreadyExists, None::<(WriteKind, Seq<char>)>)),
{
    let line = shell_config_line(shell, prefix, generated);
    if shell != Shell::Fish {
        lemma_config_line(shell, prefix);
        let after = after_write(existing, write);
        match existing {
            Some(c) => {
                assert(after =~= c + seq!['\n'] + line + seq!['\n']);
                lemma_lines_appended(c, line);
            },
            None => {
                lemma_lines_cons(line, Seq::empty());
                assert(after =~= line + seq!['\n'] + Seq::<char>::empty());
                assert(lines(after)[0] == line);
            },
        }
        let i = choose|i: int| 0 <= i < lines(after).len() && lines(after)[i] == strip_cr(line);
        assert(trim(lines(after)[i]).take(trim(line).len() as int) =~= trim(line));
        assert(is_integration_line(lines(after)[i], prefix, line));
        assert(has_integration_line(after, prefix, line));
    } else {
        lemma_contains_self(line);
    }
}

/// The report of configuring one shell: the action, the shell in bold, and
/// the startup file (`shown_path`, the path as shown to the user).
pub fn configure_result_message(result: &ConfigureResult, shown_path: &str, color: bool) -> (res: String)
    ensures
        res@ == success_msg(color, seq![pl(action_description(result.action)), pl(" "@), bo(shell_name(result.shell)),
            pl(" @ "@), pl(shown_path@)]),
{
    success_message(&parts(&[(result.action.description(), PartKind::Plain), (" ", PartKind::Plain),
        (result.shell.name(), PartKind::Bold), (" @ ", PartKind::Plain), (shown_path, PartKind::Plain)]), color)
}

/// Whenever some candidate startup file exists, the one configured is the
/// first that exists, whether or not the shell was named.
pub proof fn lemma_target_is_first_existing(exists: Seq<bool>, explicit: bool, i: int)
    requires
        0 <= i < exists.len(),
        exists[i],
        forall|k: int| 0 <= k < i ==> !exists[k],
    ensures
        target_index(exists, explicit) == Some(i),
{
    lemma_first_existing(exists, i);
}

/// When no candidate exists, a named shell gets its first candidate created
/// and an unnamed one is left alone.
pub proof fn lemma_target_when_none_exists(exists: Seq<bool>, explicit: bool)
    requires
        forall|k: int| 0 <= k < exists.len() ==> !exists[k],
    ensures
        explicit && exists.len() > 0 ==> target_index(exists, explicit) == Some(0int),
        !explicit ==> target_index(exists, explicit) is None,
        exists.len() == 0 ==> target_index(exists, explicit) is None,
{
    lemma_first_existing(exists, exists.len() as int);
}

} // verus!

//! Shell integration: supported shells, the line that enables integration,
//! and where shell configuration and completion files live.

use vstd::prelude::*;
use crate::text::{ascii_lower, eq_ignore_ascii_case, eq_ascii_ci, join_path, path_join, push_str, strings_view};

verus! {

/// Supported shells: bash, fish, zsh and PowerShell.
#[derive(Debug, Clone, Copy, PartialEq, Eq, Structural)]
pub enum Shell {
    Bash,
    Fish,
    Zsh,
    PowerShell,
}

/// The name of a shell, as shown and as parsed (case-insensitively).
pub open spec fn shell_name(s: Shell) -> Seq<char> {
    match s {
        Shell::Bash => "bash"@,
        Shell::Fish => "fish"@,
        Shell::Zsh => "zsh"@,
        Shell::PowerShell => "powershell"@,
    }
}

/// The shell a name denotes, ignoring ASCII case.
pub open spec fn parse_shell(s: Seq<char>) -> Option<Shell> {
    if eq_ascii_ci(s, "bash"@) {
        Some(Shell::Bash)
    } else if eq_ascii_ci(s, "fish"@) {
        Some(Shell::Fish)
    } else if eq_ascii_ci(s, "zsh"@) {
        Some(Shell::Zsh)
    } else if eq_ascii_ci(s, "powershell"@) {
        Some(Shell::PowerShell)
    } else {
        None
    }
}

/// The error of parsing an unknown shell name.
#[derive(Debug, Clone, PartialEq, Eq, Structural)]
pub struct ParseShellError;

/// The error when the home directory cannot be determined.
#[derive(Debug, Clone, PartialEq, Eq, Structural)]
pub struct HomeDirError;

/// The line that enables shell integration for command `cmd`.
pub open spec fn integration_line(shell: Shell, cmd: Seq<char>) -> Seq<char> {
    match shell {
        Shell::Bash | Shell::Zsh => "if command -v "@ + cmd + " >/dev/null 2>&1; then eval \"$(command "@ + cmd
            + " config shell init "@ + shell_name(shell) + ")\"; fi"@,
        Shell::Fish => "if type -q "@ + cmd + "; command "@ + cmd + " config shell init "@ + shell_name(shell)
            + " | source; end"@,
        Shell::PowerShell => "if (Get-Command "@ + cmd + " -ErrorAction SilentlyContinue) { Invoke-Expression (& "@
            + cmd + " config shell init powershell) }"@,
    }
}

/// The configuration files of a shell under `home`, in order of preference.
pub open spec fn shell_config_paths(shell: Shell, home: Seq<char>, zdotdir: Option<Seq<char>>, cmd: Seq<char>) -> Seq<Seq<char>> {
    match shell {
        Shell::Bash => seq![path_join(home, ".bashrc"@), path_join(home, ".bash_profile"@)],
        Shell::Zsh => seq![path_join(match zdotdir { Some(z) => z, None => home }, ".zshrc"@)],
        Shell::Fish => seq![path_join(home, ".config/fish/functions/"@ + cmd + ".fish"@)],
        Shell::PowerShell => seq![path_join(home, ".config/powershell/Microsoft.PowerShell_profile.ps1"@)],
    }
}

/// The completion file of a shell under `home`.
pub open spec fn shell_completion_path(shell: Shell, home: Seq<char>, cmd: Seq<char>) -> Seq<char> {
    match shell {
        Shell::Bash => path_join(home, ".local/share/bash-completion/completions/"@ + cmd),
        Shell::Zsh => path_join(home, ".zfunc/_"@ + cmd),
        Shell::Fish => path_join(home, ".config/fish/completions/"@ + cmd + ".fish"@),
        Shell::PowerShell => path_join(home, ".config/powershell/Microsoft.PowerShell_profile.ps1"@),
    }
}

/// The view of an optional string slice.
pub open spec fn opt_str_view(s: Option<&str>) -> Option<Seq<char>> {
    match s {
        Some(v) => Some(v@),
        None => None,
    }
}

fn concat3(a: &str, b: &str, c: &str) -> (res: String)
    ensures
        res@ == a@ + b@ + c@,
{
    let mut out = a.to_owned();
    push_str(&mut out, b);
    push_str(&mut out, c);
    out
}

impl Shell {
    /// Parse a shell name, ignoring ASCII case.
    pub fn parse(s: &str) -> (res: Option<Shell>)
        ensures
            res == parse_shell(s@),
    {
        if eq_ignore_ascii_case(s, "bash") {
            Some(Shell::Bash)
        } else if eq_ignore_ascii_case(s, "fish") {
            Some(Shell::Fish)
        } else if eq_ignore_ascii_case(s, "zsh") {
            Some(Shell::Zsh)
        } else if eq_ignore_ascii_case(s, "powershell") {
            Some(Shell::PowerShell)
        } else {
            None
        }
    }

    /// The shell's name (`bash`, `fish`, `zsh`, `powershell`).
    pub fn name(&self) -> (res: &'static str)
        ensures
            res@ == shell_name(*self),
    {
        match self {
            Shell::Bash => "bash",
            Shell::Fish => "fish",
            Shell::Zsh => "zsh",
            Shell::PowerShell => "powershell",
        }
    }

    /// The shell's name as an owned string.
    pub fn to_string(&self) -> (res: String)
        ensures
            res@ == shell_name(*self),
    {
        self.name().to_owned()
    }

    /// The line to add to the config file for shell integration. Every
    /// shell checks that `cmd` exists before running it.
    pub fn config_line(&self, cmd: &str) -> (res: String)
        ensures
            res@ == integration_line(*self, cmd@),
    {
        match self {
            Shell::Bash | Shell::Zsh => {
                let mut out = concat3("if command -v ", cmd, " >/dev/null 2>&1; then eval \"$(command ");
                push_str(&mut out, cmd);
                push_str(&mut out, " config shell init ");
                push_str(&mut out, self.name());
                push_str(&mut out, ")\"; fi");
                out
            },
            Shell::Fish => {
                let mut out = concat3("if type -q ", cmd, "; command ");
                push_str(&mut out, cmd);
                push_str(&mut out, " config shell init ");
                push_str(&mut out, self.name());
                push_str(&mut out, " | source; end");
                out
            },
            Shell::PowerShell => {
                let mut out = concat3("if (Get-Command ", cmd, " -ErrorAction SilentlyContinue) { Invoke-Expression (& ");
                push_str(&mut out, cmd);
                push_str(&mut out, " config shell init powershell) }");
                out
            },
        }
    }

    /// The config file paths for this shell, in order of preference. `home`
    /// is the home directory (`None` when it cannot be determined) and
    /// `zdotdir` the value of `ZDOTDIR`. The Fish file is named after `cmd`.
    pub fn config_paths(&self, home: Option<&str>, zdotdir: Option<&str>, cmd: &str) -> (res: Result<Vec<String>, HomeDirError>)
        ensures
            home is None <==> res is Err,
            res matches Ok(v) ==> strings_view(v@)
                == shell_config_paths(*self, home.unwrap()@, opt_str_view(zdotdir), cmd@),
    {
        let home = match home {
            Some(h) => h,
            None => return Err(HomeDirError),
        };
        let mut v: Vec<String> = Vec::new();
        match self {
            Shell::Bash => {
                v.push(join_path(home, ".bashrc"));
                v.push(join_path(home, ".bash_profile"));
            },
            Shell::Zsh => {
                let dir = match zdotdir {
                    Some(z) => z,
                    None => home,
                };
                v.push(join_path(dir, ".zshrc"));
            },
            Shell::Fish => {
                let rel = concat3(".config/fish/functions/", cmd, ".fish");
                v.push(join_path(home, rel.as_str()));
            },
            Shell::PowerShell => {
                v.push(join_path(home, ".config/powershell/Microsoft.PowerShell_profile.ps1"));
            },
        }
        assert(strings_view(v@) =~= shell_config_paths(*self, home@, opt_str_view(zdotdir), cmd@));
        Ok(v)
    }

    /// The legacy fish `conf.d` file of `cmd`, kept for cleanup.
    pub fn legacy_fish_conf_d_path(home: Option<&str>, cmd: &str) -> (res: Result<String, HomeDirError>)
        ensures
            home is None <==> res is Err,
            res matches Ok(p) ==> p@ == path_join(home.unwrap()@, ".config/fish/conf.d/"@ + cmd@ + ".fish"@),
    {
        let home = match home {
            Some(h) => h,
            None => return Err(HomeDirError),
        };
        let rel = concat3(".config/fish/conf.d/", cmd, ".fish");
        Ok(join_path(home, rel.as_str()))
    }

    /// The completion file path for this shell, named after `cmd`.
    pub fn completion_path(&self, home: Option<&str>, cmd: &str) -> (res: Result<String, HomeDirError>)
        ensures
            home is None <==> res is Err,
            res matches Ok(p) ==> p@ == shell_completion_path(*self, home.unwrap()@, cmd@),
    {
        let home = match home {
            Some(h) => h,
            None => return Err(HomeDirError),
        };
        let rel = match self {
            Shell::Bash => concat3(".local/share/bash-completion/completions/", cmd, ""),
            Shell::Zsh => concat3(".zfunc/_", cmd, ""),
            Shell::Fish => concat3(".config/fish/completions/", cmd, ".fish"),
            Shell::PowerShell => ".config/powershell/Microsoft.PowerShell_profile.ps1".to_owned(),
        };
        proof {
            reveal_strlit("");
            assert(""@.len() == 0);
        }
        assert(rel@ == match *self {
            Shell::Bash => ".local/share/bash-completion/completions/"@ + cmd@,
            Shell::Zsh => ".zfunc/_"@ + cmd@,
            Shell::Fish => ".config/fish/completions/"@ + cmd@ + ".fish"@,
            Shell::PowerShell => ".config/powershell/Microsoft.PowerShell_profile.ps1"@,
        });
        Ok(join_path(home, rel.as_str()))
    }

    /// The first scanned config file in which integration lines for the
    /// command were found (`results` holds, for each file scanned, its path
    /// and the integration lines found in it).
    pub fn is_integration_configured(results: &Vec<FileDetectionResult>) -> (res: Option<String>)
        ensures
            match res {
                Some(p) => exists|i: int| 0 <= i < results@.len() && results@[i].matched_lines@.len() > 0
                    && p@ == results@[i].path@
                    && forall|j: int| 0 <= j < i ==> results@[j].matched_lines@.len() == 0,
                None => forall|j: int| 0 <= j < results@.len() ==> results@[j].matched_lines@.len() == 0,
            },
    {
        let mut i: usize = 0;
        while i < results.len()
            invariant
                i <= results@.len(),
                forall|j: int| 0 <= j < i ==> results@[j].matched_lines@.len() == 0,
            decreases results@.len() - i,
        {
            if results[i].matched_lines.len() > 0 {
                return Some(results[i].path.clone());
            }
            i = i + 1;
        }
        None
    }
}

/// A shell config file that was scanned for integration lines.
#[derive(Debug)]
pub struct FileDetectionResult {
    pub path: String,
    pub matched_lines: Vec<String>,
}

impl std::str::FromStr for Shell {
    type Err = ParseShellError;

    fn from_str(s: &str) -> (res: Result<Shell, ParseShellError>)
        ensures
            res == (match parse_shell(s@) {
                Some(sh) => Ok::<Shell, ParseShellError>(sh),
                None => Err::<Shell, ParseShellError>(ParseShellError),
            }),
    {
        match Shell::parse(s) {
            Some(shell) => Ok(shell),
            None => Err(ParseShellError),
        }
    }
}

/// Shell integration configuration: a shell and the command name.
pub struct ShellInit {
    pub shell: Shell,
    pub cmd: String,
}

impl ShellInit {
    pub fn with_prefix(shell: Shell, cmd: String) -> (res: Self)
        ensures
            res.shell == shell,
            res.cmd == cmd,
    {
        ShellInit { shell, cmd }
    }
}

/// A shell's name parses back to the shell.
pub proof fn lemma_parse_shell_name(s: Shell)
    ensures
        parse_shell(shell_name(s)) == Some(s),
{
    reveal_strlit("bash");
    reveal_strlit("fish");
    reveal_strlit("zsh");
    reveal_strlit("powershell");
    if s == Shell::Fish {
        assert(ascii_lower("fish"@[0]) != ascii_lower("bash"@[0]));
        assert(!eq_ascii_ci("fish"@, "bash"@));
    }
}

} // verus!

//! Pager selection for help output, following git's precedence:
//! `GIT_PAGER`, then `core.pager`, then `PAGER`, then `less`.

use vstd::prelude::*;
use crate::text::{push_str, str_eq, trim, trim_str};

verus! {

/// A configured pager value: trimmed; empty values and `cat` mean "no pager".
pub open spec fn pager_value(s: Seq<char>) -> Option<Seq<char>> {
    if trim(s).len() == 0 || trim(s) == "cat"@ {
        None
    } else {
        Some(trim(s))
    }
}

/// Validate a pager value: `None` when it is empty or `cat` (after trimming),
/// else the trimmed command.
pub fn parse_pager_value(s: &str) -> (res: Option<String>)
    ensures
        (match res { Some(p) => Some(p@), None => None }) == pager_value(s@),
{
    let t = trim_str(s);
    if t.as_str().is_empty() || str_eq(t.as_str(), "cat") {
        None
    } else {
        Some(t)
    }
}

/// The help pager: the first configured one of `GIT_PAGER` (`git_pager`),
/// `core.pager` (`config_pager`, already validated) and `PAGER` (`pager`);
/// without one, `less` when a POSIX shell is available, else none.
pub open spec fn help_pager(
    git_pager: Option<Seq<char>>,
    config_pager: Option<Seq<char>>,
    pager: Option<Seq<char>>,
    posix_shell: bool,
) -> Option<Seq<char>> {
    let from_git = match git_pager { Some(g) => pager_value(g), None => None };
    let from_env = match pager { Some(p) => pager_value(p), None => None };
    if from_git is Some {
        from_git
    } else if config_pager is Some {
        config_pager
    } else if from_env is Some {
        from_env
    } else if posix_shell {
        Some("less"@)
    } else {
        None
    }
}

/// Choose the pager for help output.
pub fn detect_help_pager(
    git_pager: Option<&str>,
    config_pager: Option<String>,
    pager: Option<&str>,
    posix_shell: bool,
) -> (res: Option<String>)
    ensures
        (match res { Some(p) => Some(p@), None => None }) == help_pager(
            match git_pager { Some(g) => Some(g@), None => None },
            match config_pager { Some(c) => Some(c@), None => None },
            match pager { Some(p) => Some(p@), None => None },
            posix_shell,
        ),
{
    if let Some(g) = git_pager {
        if let Some(p) = parse_pager_value(g) {
            return Some(p);
        }
    }
    if let Some(c) = config_pager {
        return Some(c);
    }
    if let Some(e) = pager {
        if let Some(p) = parse_pager_value(e) {
            return Some(p);
        }
    }
    if posix_shell {
        Some("less".to_owned())
    } else {
        None
    }
}

/// The shell command that runs the pager with its output on stderr.
pub fn pager_shell_command(pager: &str) -> (res: String)
    ensures
        res@ == pager@ + " >&2"@,
{
    let mut c = pager.to_owned();
    push_str(&mut c, " >&2");
    c
}

/// The `LESS` flags for the pager: the user's, else `FRX` (quit if one
/// screen, allow colors, no termcap init).
pub fn less_flags(less: Option<&str>) -> (res: String)
    ensures
        res@ == (match less { Some(l) => l@, None => "FRX"@ }),
{
    match less {
        Some(l) => l.to_owned(),
        None => "FRX".to_owned(),
    }
}

} // verus!

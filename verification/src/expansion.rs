//! Template expansion for hook commands and worktree paths.

use vstd::prelude::*;
use crate::path::{basename, worktree_basename};
use crate::text::{chars_of, push_char, push_str};

verus! {

/// A branch name with path separators replaced by dashes.
pub open spec fn sanitized(branch: Seq<char>) -> Seq<char> {
    branch.map_values(|c: char| if c == '/' || c == '\\' { '-' } else { c })
}

/// Sanitize a branch name for use in filesystem paths: `/` and `\` become `-`.
pub fn sanitize_branch_name(branch: &str) -> (res: String)
    ensures
        res@ == sanitized(branch@),
{
    let cs = chars_of(branch);
    let mut out = String::new();
    let mut i: usize = 0;
    while i < cs.len()
        invariant
            i <= cs@.len(),
            cs@ == branch@,
            out@ == sanitized(branch@.take(i as int)),
        decreases cs@.len() - i,
    {
        let c = cs[i];
        if c == '/' || c == '\\' {
            push_char(&mut out, '-');
        } else {
            push_char(&mut out, c);
        }
        proof {
            assert(branch@.take(i + 1) == branch@.take(i as int).push(c));
        }
        i = i + 1;
    }
    proof {
        assert(branch@.take(cs@.len() as int) == branch@);
    }
    out
}


/// Sanitizing leaves no path separator, keeps the length, and is idempotent.
pub proof fn lemma_sanitize_removes_separators(branch: Seq<char>)
    ensures
        sanitized(branch).len() == branch.len(),
        forall|i: int| 0 <= i < branch.len() ==> sanitized(branch)[i] != '/' && sanitized(branch)[i] != '\\',
        sanitized(sanitized(branch)) == sanitized(branch),
{
    assert(sanitized(sanitized(branch)) =~= sanitized(branch));
}

// ----------------------------------------------------------------------------
// Shell escaping
// ----------------------------------------------------------------------------

/// Characters that `shell_escape::unix::escape` leaves unquoted.
pub open spec fn shell_safe_char(c: char) -> bool {
    ('a' <= c && c <= 'z') || ('A' <= c && c <= 'Z') || ('0' <= c && c <= '9')
        || c == '-' || c == '_' || c == '=' || c == '/' || c == ',' || c == '.' || c == '+'
}

/// A character inside single quotes: `'` and `!` close the quotes, are
/// backslash-escaped, and reopen them.
pub open spec fn quote_char(c: char) -> Seq<char> {
    if c == '\'' || c == '!' { seq!['\'', '\\', c, '\''] } else { seq![c] }
}

/// The quoted body of a string.
pub open spec fn quoted_body(s: Seq<char>) -> Seq<char>
    decreases s.len(),
{
    if s.len() == 0 { Seq::empty() } else { quoted_body(s.drop_last()) + quote_char(s.last()) }
}

/// Whether a non-empty string needs no quoting.
pub open spec fn all_shell_safe(s: Seq<char>) -> bool {
    s.len() > 0 && forall|i: int| 0 <= i < s.len() ==> shell_safe_char(s[i])
}

/// POSIX shell escaping: a non-empty string of safe characters as is,
/// anything else in single quotes.
pub open spec fn shell_escaped(s: Seq<char>) -> Seq<char> {
    if all_shell_safe(s) { s } else { seq!['\''] + quoted_body(s) + seq!['\''] }
}

/// `shell_escape::unix::escape`: a string unchanged when it is non-empty and
/// made of `[a-zA-Z0-9-_=/,.+]` only, otherwise wrapped in single quotes with
/// each `'` and `!` written as `'\''` and `'\!'`.
#[verifier::external_body]
pub(crate) fn shell_escape(s: &str) -> (res: String)
    ensures
        res@ == shell_escaped(s@),
{
    shell_escape::unix::escape(std::borrow::Cow::Borrowed(s)).into_owned()
}

/// Escaping leaves safe strings alone and puts anything else in quotes.
pub proof fn lemma_shell_escape_shape(s: Seq<char>)
    ensures
        all_shell_safe(s) ==> shell_escaped(s) == s,
        !all_shell_safe(s) ==> {
            let e = shell_escaped(s);
            &&& e.len() >= 2
            &&& e[0] == '\''
            &&& e.last() == '\''
        },
{
}

// ----------------------------------------------------------------------------
// Template rendering
// ----------------------------------------------------------------------------

/// The result of rendering a Jinja2 template with `minijinja`, given the
/// variables (later pairs override earlier ones with the same name) and the
/// trailing-newline flag; an error carries whether the template failed to
/// parse, and the error's message.
pub uninterp spec fn jinja_render(
    template: Seq<char>,
    vars: Seq<(Seq<char>, Seq<char>)>,
    keep_trailing_newline: bool,
) -> Result<Seq<char>, (bool, Seq<char>)>;

/// The views of name/value pairs.
pub open spec fn pairs_view(v: Seq<(String, String)>) -> Seq<(Seq<char>, Seq<char>)> {
    v.map_values(|p: (String, String)| (p.0@, p.1@))
}

/// `minijinja::Environment::template_from_str` and `Template::render`: parse
/// and render a template in a fresh environment whose context maps each name
/// to its string value.
#[verifier::external_body]
fn minijinja_render(template: &str, vars: &Vec<(String, String)>, keep_trailing_newline: bool)
    -> (res: Result<String, (bool, String)>)
    ensures
        match res {
            Ok(r) => jinja_render(template@, pairs_view(vars@), keep_trailing_newline) == Ok::<Seq<char>, (bool, Seq<char>)>(r@),
            Err((syntax, msg)) => jinja_render(template@, pairs_view(vars@), keep_trailing_newline)
                == Err::<Seq<char>, (bool, Seq<char>)>((syntax, msg@)),
        },
{
    let mut env = minijinja::Environment::new();
    env.set_keep_trailing_newline(keep_trailing_newline);
    let context: std::collections::HashMap<String, minijinja::Value> =
        vars.iter().map(|(k, v)| (k.clone(), minijinja::Value::from(v.clone()))).collect();
    match env.template_from_str(template) {
        Ok(t) => t.render(minijinja::Value::from_object(context)).map_err(|e| (false, e.to_string())),
        Err(e) => Err((true, e.to_string())),
    }
}

/// The variables handed to the template engine: the values shell-escaped
/// when `escape` is set, literal otherwise.
pub open spec fn context_vars(vars: Seq<(Seq<char>, Seq<char>)>, escape: bool) -> Seq<(Seq<char>, Seq<char>)> {
    vars.map_values(|p: (Seq<char>, Seq<char>)| (p.0, if escape { shell_escaped(p.1) } else { p.1 }))
}

/// What a rendering gives: the rendered text, or the engine's message
/// after `Template syntax error: ` or `Template render error: `.
pub open spec fn render_outcome(rendered: Result<Seq<char>, (bool, Seq<char>)>) -> Result<Seq<char>, Seq<char>> {
    match rendered {
        Ok(r) => Ok(r),
        Err((true, msg)) => Err("Template syntax error: "@ + msg),
        Err((false, msg)) => Err("Template render error: "@ + msg),
    }
}

/// The result of template expansion.
pub open spec fn expanded(template: Seq<char>, vars: Seq<(Seq<char>, Seq<char>)>, escape: bool) -> Result<Seq<char>, Seq<char>> {
    render_outcome(jinja_render(template, context_vars(vars, escape), escape))
}

/// The outcome of a rendering (`Err` carries whether the template failed to
/// parse, and the engine's message).
pub fn expansion_outcome(rendered: Result<String, (bool, String)>) -> (res: Result<String, String>)
    ensures
        result_view(res) == render_outcome(match rendered {
            Ok(r) => Ok(r@),
            Err((syntax, msg)) => Err((syntax, msg@)),
        }),
{
    match rendered {
        Ok(r) => Ok(r),
        Err((syntax, msg)) => {
            let mut out = if syntax {
                "Template syntax error: ".to_owned()
            } else {
                "Template render error: ".to_owned()
            };
            push_str(&mut out, msg.as_str());
            Err(out)
        },
    }
}

/// The view of an expansion result.
pub open spec fn result_view(r: Result<String, String>) -> Result<Seq<char>, Seq<char>> {
    match r {
        Ok(s) => Ok(s@),
        Err(e) => Err(e@),
    }
}

/// Expand a Jinja2 template (e.g. `{{ branch }}`) with variables. With
/// `shell_escape`, every value is shell-escaped for safe command execution
/// (and a trailing newline of the template is kept); otherwise values are
/// substituted literally (for filesystem paths). Callers sanitize branch
/// names with [`sanitize_branch_name`] first.
pub fn expand_template(template: &str, vars: &Vec<(String, String)>, shell_escape: bool) -> (res: Result<String, String>)
    ensures
        result_view(res) == expanded(template@, pairs_view(vars@), shell_escape),
{
    let mut context: Vec<(String, String)> = Vec::new();
    let mut i: usize = 0;
    while i < vars.len()
        invariant
            i <= vars@.len(),
            pairs_view(context@) == context_vars(pairs_view(vars@.take(i as int)), shell_escape),
        decreases vars@.len() - i,
    {
        let kv = &vars[i];
        let val = if shell_escape { self::shell_escape(kv.1.as_str()) } else { kv.1.clone() };
        let ghost before = context@;
        context.push((kv.0.clone(), val));
        proof {
            assert(vars@.take(i + 1) =~= vars@.take(i as int).push(vars@[i as int]));
            assert(context@ == before.push((kv.0, val)));
            assert(pairs_view(context@) =~= pairs_view(before).push((kv.0@, val@)));
            assert(pairs_view(context@) =~= context_vars(pairs_view(vars@.take(i + 1)), shell_escape));
        }
        i = i + 1;
    }
    proof {
        assert(vars@.take(vars@.len() as int) =~= vars@);
    }
    expansion_outcome(minijinja_render(template, &context, shell_escape))
}

/// The variables of a command template: `repo`, `branch` (sanitized),
/// `worktree`, `worktree_name` (the worktree's directory name), `repo_root`
/// and, when given, `target`.
pub open spec fn command_vars(repo: Seq<char>, branch: Seq<char>, worktree: Seq<char>, repo_root: Seq<char>, target: Option<Seq<char>>) -> Seq<(Seq<char>, Seq<char>)> {
    let base = seq![("repo"@, repo), ("branch"@, sanitized(branch)), ("worktree"@, worktree),
        ("worktree_name"@, basename(worktree)), ("repo_root"@, repo_root)];
    match target {
        Some(t) => base.push(("target"@, t)),
        None => base,
    }
}

/// Expand a command template with the common variables `repo`, `branch`
/// (sanitized), `worktree`, `worktree_name`, `repo_root` and, when given,
/// `target`; all values are shell-escaped.
pub fn expand_command_template(
    command: &str,
    repo_name: &str,
    branch: &str,
    worktree_path: &str,
    repo_root: &str,
    target_branch: Option<&str>,
) -> (res: Result<String, String>)
    ensures
        result_view(res) == expanded(
            command@,
            command_vars(repo_name@, branch@, worktree_path@, repo_root@,
                match target_branch { Some(t) => Some(t@), None => None }),
            true,
        ),
{
    let safe_branch = sanitize_branch_name(branch);
    let mut vars: Vec<(String, String)> = Vec::new();
    vars.push(("repo".to_owned(), repo_name.to_owned()));
    vars.push(("branch".to_owned(), safe_branch));
    vars.push(("worktree".to_owned(), worktree_path.to_owned()));
    vars.push(("worktree_name".to_owned(), worktree_basename(worktree_path)));
    vars.push(("repo_root".to_owned(), repo_root.to_owned()));
    if let Some(target) = target_branch {
        vars.push(("target".to_owned(), target.to_owned()));
    }
    assert(pairs_view(vars@) =~= command_vars(repo_name@, branch@, worktree_path@, repo_root@,
        match target_branch { Some(t) => Some(t@), None => None }));
    expand_template(command, &vars, true)
}

/// The common test variables: `branch`, and `myrepo` as `main_worktree` and `repo`.
pub fn vars_with_branch(branch: &str) -> (vars: Vec<(String, String)>)
    ensures
        pairs_view(vars@) == seq![("branch"@, branch@), ("main_worktree"@, "myrepo"@), ("repo"@, "myrepo"@)],
{
    let mut vars: Vec<(String, String)> = Vec::new();
    vars.push(("branch".to_owned(), branch.to_owned()));
    vars.push(("main_worktree".to_owned(), "myrepo".to_owned()));
    vars.push(("repo".to_owned(), "myrepo".to_owned()));
    assert(pairs_view(vars@) =~= seq![("branch"@, branch@), ("main_worktree"@, "myrepo"@), ("repo"@, "myrepo"@)]);
    vars
}

} // verus!

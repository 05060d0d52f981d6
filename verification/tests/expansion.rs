use worktrunk::expansion::{
    expand_command_template, expand_template, expansion_outcome, sanitize_branch_name, vars_with_branch,
};

fn set(vars: &mut Vec<(String, String)>, key: &str, value: &str) {
    vars.push((key.to_string(), value.to_string()));
}

#[test]
fn test_expand_template_normal() {
    let branch = sanitize_branch_name("feature");
    let vars = vars_with_branch(&branch);
    let result = expand_template("echo {{ branch }} {{ main_worktree }}", &vars, true).unwrap();
    assert_eq!(result, "echo feature myrepo");
}

#[test]
fn test_expand_template_branch_with_slashes() {
    let branch = sanitize_branch_name("feature/nested/branch");
    let vars = vars_with_branch(&branch);
    let result = expand_template("echo {{ branch }}", &vars, true).unwrap();
    assert_eq!(result, "echo feature-nested-branch");
}

#[test]
fn test_expand_template_branch_with_spaces() {
    let branch = sanitize_branch_name("feature name");
    let vars = vars_with_branch(&branch);
    let result = expand_template("echo {{ branch }}", &vars, true).unwrap();
    assert_eq!(result, "echo 'feature name'");
}

#[test]
fn test_expand_template_branch_with_special_shell_chars() {
    let branch = sanitize_branch_name("feature$(whoami)");
    let vars = vars_with_branch(&branch);
    let result = expand_template("echo {{ branch }}", &vars, true).unwrap();
    assert_eq!(result, "echo 'feature$(whoami)'");
}

#[test]
fn test_expand_template_branch_with_backticks() {
    let branch = sanitize_branch_name("feature`id`");
    let vars = vars_with_branch(&branch);
    let result = expand_template("echo {{ branch }}", &vars, true).unwrap();
    assert_eq!(result, "echo 'feature`id`'");
}

#[test]
fn test_expand_template_branch_with_quotes() {
    let branch = sanitize_branch_name("feature'test");
    let vars = vars_with_branch(&branch);
    let result = expand_template("echo '{{ branch }}'", &vars, true).unwrap();
    assert_eq!(result, "echo ''feature'\\''test''");
}

#[test]
fn test_expand_template_extra_vars_with_spaces() {
    let branch = sanitize_branch_name("main");
    let mut vars = vars_with_branch(&branch);
    set(&mut vars, "worktree", "/path with spaces/to/worktree");
    let result = expand_template("cd {{ worktree }}", &vars, true).unwrap();
    assert_eq!(result, "cd '/path with spaces/to/worktree'");
}

#[test]
fn test_expand_template_extra_vars_with_dollar_sign() {
    let branch = sanitize_branch_name("main");
    let mut vars = vars_with_branch(&branch);
    set(&mut vars, "worktree", "/path/$USER/worktree");
    let result = expand_template("cd {{ worktree }}", &vars, true).unwrap();
    assert_eq!(result, "cd '/path/$USER/worktree'");
}

#[test]
fn test_expand_template_extra_vars_with_command_substitution() {
    let branch = sanitize_branch_name("feature");
    let mut vars = vars_with_branch(&branch);
    set(&mut vars, "target", "main; rm -rf /");
    let result = expand_template("git merge {{ target }}", &vars, true).unwrap();
    assert_eq!(result, "git merge 'main; rm -rf /'");
}

#[test]
fn test_expand_template_variable_override() {
    let mut vars = Vec::new();
    set(&mut vars, "branch", "overridden");
    let result = expand_template("echo {{ branch }}", &vars, true).unwrap();
    assert_eq!(result, "echo overridden");
}

#[test]
fn test_expand_template_missing_variable() {
    let vars: Vec<(String, String)> = Vec::new();
    let result = expand_template("echo {{ undefined }}", &vars, true).unwrap();
    assert_eq!(result, "echo ");
}

#[test]
fn test_expand_template_empty_branch() {
    let mut vars = Vec::new();
    set(&mut vars, "branch", "");
    let result = expand_template("echo {{ branch }}", &vars, true).unwrap();
    assert_eq!(result, "echo ''");
}

#[test]
fn test_expand_template_unicode_in_branch() {
    let branch = sanitize_branch_name("feature-\u{1F680}");
    let vars = vars_with_branch(&branch);
    let result = expand_template("echo {{ branch }}", &vars, true).unwrap();
    assert_eq!(result, "echo 'feature-\u{1F680}'");
}

#[test]
fn test_expand_template_backslash_in_branch() {
    let branch = sanitize_branch_name("feature\\branch");
    let vars = vars_with_branch(&branch);
    let result = expand_template("echo {{ branch }}", &vars, true).unwrap();
    assert_eq!(result, "echo feature-branch");
}

#[test]
fn test_expand_template_multiple_replacements() {
    let branch = sanitize_branch_name("feature");
    let mut vars = vars_with_branch(&branch);
    set(&mut vars, "worktree", "/path/to/wt");
    set(&mut vars, "target", "develop");
    let result =
        expand_template("cd {{ worktree }} && git merge {{ target }} from {{ branch }}", &vars, true).unwrap();
    assert_eq!(result, "cd /path/to/wt && git merge develop from feature");
}

#[test]
fn test_expand_template_curly_braces_without_variables() {
    let vars: Vec<(String, String)> = Vec::new();
    let result = expand_template("echo {}", &vars, true).unwrap();
    assert_eq!(result, "echo {}");
}

#[test]
fn test_expand_template_nested_curly_braces() {
    let branch = sanitize_branch_name("main");
    let vars = vars_with_branch(&branch);
    let result = expand_template("echo {{ '{' ~ branch ~ '}' }}", &vars, true).unwrap();
    assert_eq!(result, "echo {main}");
}

fn literal_vars(main: &str, branch: &str) -> Vec<(String, String)> {
    vec![("main_worktree".to_string(), main.to_string()), ("branch".to_string(), branch.to_string())]
}

#[test]
fn test_expand_template_literal_normal() {
    let branch = sanitize_branch_name("feature");
    let vars = literal_vars("myrepo", &branch);
    let result = expand_template("{{ main_worktree }}.{{ branch }}", &vars, false).unwrap();
    assert_eq!(result, "myrepo.feature");
}

#[test]
fn test_expand_template_literal_unicode_no_escaping() {
    let branch = sanitize_branch_name("test-\u{2282}");
    let vars = literal_vars("myrepo", &branch);
    let result = expand_template("{{ main_worktree }}.{{ branch }}", &vars, false).unwrap();
    assert_eq!(result, "myrepo.test-\u{2282}");
    assert!(!result.contains('\''), "Path should not contain shell quotes");
}

#[test]
fn test_expand_template_literal_spaces_no_escaping() {
    let branch = sanitize_branch_name("feature name");
    let vars = literal_vars("my repo", &branch);
    let result = expand_template("{{ main_worktree }}.{{ branch }}", &vars, false).unwrap();
    assert_eq!(result, "my repo.feature name");
    assert!(!result.contains('\''), "Path should not contain shell quotes");
}

#[test]
fn test_expand_template_literal_sanitizes_slashes() {
    let branch = sanitize_branch_name("feature/nested/branch");
    let vars = literal_vars("myrepo", &branch);
    let result = expand_template("{{ main_worktree }}.{{ branch }}", &vars, false).unwrap();
    assert_eq!(result, "myrepo.feature-nested-branch");
}

#[test]
fn test_expand_template_literal_vs_escaped_unicode() {
    let branch = sanitize_branch_name("test-\u{2282}");
    let vars = literal_vars("myrepo", &branch);
    let template = "{{ main_worktree }}.{{ branch }}";
    let literal_result = expand_template(template, &vars, false).unwrap();
    let escaped_result = expand_template(template, &vars, true).unwrap();
    assert_eq!(literal_result, "myrepo.test-\u{2282}");
    assert_eq!(escaped_result, "myrepo.'test-\u{2282}'");
}

#[test]
fn sanitizing_replaces_both_separators() {
    assert_eq!(sanitize_branch_name("feature/foo"), "feature-foo");
    assert_eq!(sanitize_branch_name("user\\task"), "user-task");
    assert_eq!(sanitize_branch_name("simple-branch"), "simple-branch");
}

#[test]
fn syntax_errors_are_reported() {
    let vars: Vec<(String, String)> = Vec::new();
    let err = expand_template("echo {{ branch", &vars, true).unwrap_err();
    assert!(err.starts_with("Template syntax error: "), "{err}");
}

#[test]
fn command_templates_get_common_variables() {
    let out = expand_command_template(
        "cd {{ worktree }} && echo {{ repo }} {{ branch }} {{ target }}",
        "myrepo",
        "feature/x",
        "/wt path",
        "/repo",
        Some("main"),
    )
    .unwrap();
    assert_eq!(out, "cd '/wt path' && echo myrepo feature-x main");
}

#[test]
fn rendering_outcomes_carry_the_engine_message() {
    assert_eq!(expansion_outcome(Ok("echo x".to_string())), Ok("echo x".to_string()));
    assert_eq!(
        expansion_outcome(Err((true, "unexpected end".to_string()))),
        Err("Template syntax error: unexpected end".to_string())
    );
    assert_eq!(
        expansion_outcome(Err((false, "undefined value".to_string()))),
        Err("Template render error: undefined value".to_string())
    );
}

#[test]
fn worktree_name_is_the_directory_name() {
    let out = expand_command_template("echo {{ worktree_name }}", "myrepo", "feature", "/path/to/wt", "/path/to/repo", None);
    assert_eq!(out, Ok("echo wt".to_string()));
    let out = expand_command_template("echo {{ worktree_name }}", "r", "b", "/path/my wt/", "/r", None);
    assert_eq!(out, Ok("echo 'my wt'".to_string()));
}

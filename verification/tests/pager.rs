use worktrunk::pager::{detect_help_pager, less_flags, pager_shell_command, parse_pager_value};

#[test]
fn test_validate_excludes_cat() {
    assert_eq!(parse_pager_value("cat"), None);
    assert_eq!(parse_pager_value("  cat  "), None);
    assert_eq!(parse_pager_value(""), None);
    assert_eq!(parse_pager_value("  "), None);
}

#[test]
fn test_validate_accepts_valid_pagers() {
    assert_eq!(parse_pager_value("less"), Some("less".to_string()));
    assert_eq!(parse_pager_value("  less  "), Some("less".to_string()));
    assert_eq!(parse_pager_value("delta"), Some("delta".to_string()));
    assert_eq!(parse_pager_value("less -R"), Some("less -R".to_string()));
}

#[test]
fn pager_precedence_follows_git() {
    assert_eq!(detect_help_pager(Some("delta"), Some("bat".into()), Some("more"), true).as_deref(), Some("delta"));
    assert_eq!(detect_help_pager(Some("cat"), Some("bat".into()), Some("more"), true).as_deref(), Some("bat"));
    assert_eq!(detect_help_pager(None, None, Some(" more "), true).as_deref(), Some("more"));
    assert_eq!(detect_help_pager(None, None, None, true).as_deref(), Some("less"));
    assert_eq!(detect_help_pager(None, None, Some("cat"), false), None);
}

#[test]
fn pager_command_sends_output_to_stderr() {
    assert_eq!(pager_shell_command("less -R"), "less -R >&2");
    assert_eq!(less_flags(None), "FRX");
    assert_eq!(less_flags(Some("R")), "R");
}

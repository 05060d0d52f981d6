use worktrunk::styling::{
    bold, format_error, format_error_with_bold, format_hint, format_warning, format_with_gutter,
    should_use_color_with_env, StyledLine, StyledString,
};

#[test]
fn test_should_use_color_force_color() {
    assert!(should_use_color_with_env(false, true, false));
    assert!(should_use_color_with_env(true, true, false));
}

#[test]
fn test_should_use_color_no_color() {
    assert!(!should_use_color_with_env(true, false, true));
    assert!(!should_use_color_with_env(true, false, false));
}

#[test]
fn test_should_use_color_terminal() {
    assert!(should_use_color_with_env(false, false, true));
    assert!(!should_use_color_with_env(false, false, false));
}

#[test]
fn test_styled_string_width() {
    let s = StyledString::raw("hello".to_string());
    assert_eq!(s.width(), 5);
    let s = StyledString::raw("↑3 ↓2".to_string());
    assert_eq!(s.width(), 5, "↑3 ↓2 should have width 5, not {}", s.text.len());
    let s = StyledString::raw("日本語".to_string());
    assert_eq!(s.width(), 6);
    let s = StyledString::raw("🎉".to_string());
    assert_eq!(s.width(), 2);
}

#[test]
fn test_styled_line_width() {
    let mut line = StyledLine::new();
    line.push_raw("Branch".to_string());
    line.push_raw("  ".to_string());
    line.push_raw("↑3 ↓2".to_string());
    assert_eq!(line.width(), 13, "Line width should be 13");
}

#[test]
fn test_styled_line_padding() {
    let mut line = StyledLine::new();
    line.push_raw("test".to_string());
    assert_eq!(line.width(), 4);
    line.pad_to(10);
    assert_eq!(line.width(), 10, "After padding to 10, width should be 10");
    line.pad_to(10);
    assert_eq!(line.width(), 10, "Padding again should not change width");
}

#[test]
fn test_sparse_column_padding() {
    let mut line1 = StyledLine::new();
    line1.push_raw(format!("{:8}", "branch-a"));
    line1.push_raw("  ".to_string());
    line1.push_raw(format!("{:5}", "↑3 ↓2"));
    line1.push_raw("  ".to_string());
    let mut line2 = StyledLine::new();
    line2.push_raw(format!("{:8}", "branch-b"));
    line2.push_raw("  ".to_string());
    line2.push_raw(" ".repeat(5));
    line2.push_raw("  ".to_string());
    assert_eq!(line1.width(), line2.width(), "Rows with and without sparse column data should have same width");
}

#[test]
fn padding_never_shrinks_a_line() {
    let mut line = StyledLine::new();
    line.push_raw("abcdef".to_string());
    line.pad_to(3);
    assert_eq!(line.width(), 6);
    assert_eq!(line.render(), "abcdef");
}

#[test]
fn plain_formatting_has_emoji_and_text_only() {
    assert_eq!(format_error("bad", false), "❌ bad");
    assert_eq!(format_warning("careful", false), "🟡 careful");
    assert_eq!(format_hint("try", false), "💡 try");
    assert_eq!(bold("x", false), "x");
    assert_eq!(bold("x", true), "\u{1b}[1mx\u{1b}[0m");
    assert_eq!(format_error_with_bold("a ", "b", " c", false), "❌ a b c");
}

#[test]
fn gutter_marks_every_line() {
    assert_eq!(format_with_gutter("a\nb", "  ", false), "     a\n     b\n");
    assert_eq!(format_with_gutter("", "", false), "");
}

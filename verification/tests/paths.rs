use worktrunk::path::format_path_for_display;

#[test]
fn shortens_path_under_home() {
    let home = "/home/alex";
    let formatted = format_path_for_display("/home/alex/projects/wt", Some(home));
    assert!(formatted.starts_with("~"), "Expected tilde prefix, got {formatted}");
    assert!(formatted.contains("projects"), "Expected child components to remain in output");
    assert!(formatted.ends_with("wt"), "Expected leaf component to remain in output");
    assert_eq!(formatted, "~/projects/wt");
}

#[test]
fn shows_home_as_tilde() {
    assert_eq!(format_path_for_display("/home/alex", Some("/home/alex")), "~");
}

#[test]
fn leaves_non_home_paths_unchanged() {
    let path = "/tmp/worktrunk-non-home-path";
    assert_eq!(format_path_for_display(path, Some("/home/alex")), path);
    assert_eq!(format_path_for_display(path, None), path);
}

#[test]
fn sibling_with_common_prefix_is_not_under_home() {
    assert_eq!(format_path_for_display("/home/alexander/x", Some("/home/alex")), "/home/alexander/x");
    assert_eq!(format_path_for_display("/home/alex/", Some("/home/alex")), "~");
}

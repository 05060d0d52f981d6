use worktrunk::config_cmd::{
    cleared_statuses_message, comment_out_config, global_config_path, render_scan_failure, render_shell_status,
    status_config_key, status_keys, ShellStatusEntry,
};
use worktrunk::configure_shell::{ConfigAction, Shell};
use worktrunk::config_cmd::{
    config_created_message, config_exists_message, project_config_path, status_cleared_message, status_set_message, render_global_config, render_project_config,
};

#[test]
fn example_config_is_commented_out() {
    assert_eq!(comment_out_config("a = 1\n# note\n\nb = 2\n"), "# a = 1\n# note\n\n# b = 2\n");
    assert_eq!(comment_out_config("x"), "# x");
    assert_eq!(comment_out_config(""), "");
}

#[test]
fn global_config_location() {
    assert_eq!(global_config_path(Some("/xdg"), Some("/home/u"), None).as_deref(), Some("/xdg/worktrunk/config.toml"));
    assert_eq!(global_config_path(None, Some("/home/u"), None).as_deref(), Some("/home/u/.config/worktrunk/config.toml"));
    assert_eq!(global_config_path(None, None, Some("/cfg")).as_deref(), Some("/cfg/worktrunk/config.toml"));
    assert_eq!(global_config_path(None, None, None), None);
}

#[test]
fn status_keys_and_messages() {
    assert_eq!(status_config_key("feat"), "worktrunk.status.feat");
    assert_eq!(
        status_keys("worktrunk.status.a 🚧\n  worktrunk.status.b x\n\n"),
        vec!["worktrunk.status.a".to_string(), "worktrunk.status.b".to_string()]
    );
    assert_eq!(cleared_statuses_message(0, false), "⚪ No statuses to clear");
    assert_eq!(cleared_statuses_message(1, false), "✅ Cleared 1 status");
    assert_eq!(cleared_statuses_message(3, false), "✅ Cleared 3 statuses");
    assert_eq!(status_set_message("feat", "🚧", false), "✅ Set status for feat to 🚧");
    assert_eq!(status_cleared_message("feat", false), "✅ Cleared status for feat");
}

#[test]
fn shell_status_report() {
    let entries = vec![
        ShellStatusEntry {
            shell: Shell::Bash,
            path: "~/.bashrc".into(),
            action: ConfigAction::AlreadyExists,
            compinit_missing: false,
            completion: None,
        },
        ShellStatusEntry {
            shell: Shell::Fish,
            path: "~/.config/fish/conf.d/wt.fish".into(),
            action: ConfigAction::AlreadyExists,
            compinit_missing: false,
            completion: Some(("~/.config/fish/completions/wt.fish".into(), false)),
        },
    ];
    let skipped = vec![(Shell::Nushell, "~/.config/nushell/config.nu".to_string())];
    let out = render_shell_status(&entries, &skipped, false);
    assert_eq!(
        out,
        "⚪ Already configured shell extension & completions for bash @ ~/.bashrc\n\
         ⚪ Already configured shell extension for fish @ ~/.config/fish/conf.d/wt.fish\n\
         💡 Not configured completions for fish @ ~/.config/fish/completions/wt.fish\n\
         ⚪ Skipped nushell; ~/.config/nushell/config.nu not found\n\
         \n💡 Run 'wt config shell install' to enable shell integration\n"
    );
    let zsh = vec![ShellStatusEntry {
        shell: Shell::Zsh,
        path: "~/.zshrc".into(),
        action: ConfigAction::WouldAdd,
        compinit_missing: true,
        completion: None,
    }];
    assert_eq!(
        render_shell_status(&zsh, &vec![], false),
        "💡 Not configured shell extension & completions for zsh @ ~/.zshrc\n\n💡 Run 'wt config shell install' to enable shell integration\n"
    );
    assert_eq!(render_scan_failure("no home", false), "💡 Could not determine shell status: no home\n");
}

#[test]
fn config_show_sections() {
    assert_eq!(
        render_global_config("~/.config/worktrunk/config.toml", None, false),
        [
            "⚪ Global Config: ~/.config/worktrunk/config.toml\n",
            "💡 Not found (using defaults)\n",
            "💡 Run 'wt config create' to create a config file\n\n",
            "   # Default configuration:\n",
            "   worktree-path = \"../{{ main_worktree }}.{{ branch }}\"\n",
        ]
        .concat()
    );
    assert_eq!(
        render_global_config("/c.toml", Some("  \n"), false),
        "⚪ Global Config: /c.toml\n💡 Empty file (using defaults)\n"
    );
    assert_eq!(render_global_config("/c.toml", Some("a = 1\n"), false), "⚪ Global Config: /c.toml\n   a = 1\n");
    assert_eq!(
        render_global_config("/c.toml", Some(""), true),
        "⚪ Global Config: \u{1b}[1m/c.toml\u{1b}[0m\n💡 \u{1b}[2mEmpty file (using defaults)\u{1b}[0m\n"
    );
    assert_eq!(project_config_path("/repo"), "/repo/.config/wt.toml");
    assert_eq!(project_config_path("/repo/"), "/repo/.config/wt.toml");
    assert_eq!(render_project_config(None, None, false), "⚪ Project Config: Not in a git repository\n");
    assert_eq!(
        render_project_config(Some("/repo/.config/wt.toml"), None, false),
        "⚪ Project Config: /repo/.config/wt.toml\n💡 Not found\n"
    );
    assert_eq!(
        render_project_config(Some("/p"), Some("\n"), false),
        "⚪ Project Config: /p\n💡 Empty file\n"
    );
    assert_eq!(
        render_project_config(Some("/p"), Some("[post-create]\nx = \"y\""), false),
        "⚪ Project Config: /p\n   [post-create]\n   x = \"y\"\n"
    );
}

#[test]
fn config_create_reports() {
    assert_eq!(
        config_exists_message("~/c.toml", false),
        "⚪ Global config already exists: ~/c.toml\n\n\
💡 Use 'wt config show' to view existing configuration\n\
💡 Use 'wt config create --help' for config format reference\n"
    );
    assert_eq!(
        config_created_message("~/c.toml", false),
        "✅ Created config file: ~/c.toml\n\n💡 Edit this file to customize worktree paths and LLM settings\n"
    );
}

#[test]
fn every_set_status_is_cleared_by_unset_all() {
    let key = status_config_key("feature/x");
    let output = format!("worktrunk.status.main 🚧\n{key} 🤖 review\n");
    assert!(status_keys(&output).contains(&key));
    assert_eq!(status_keys(&format!("{key} \n")), vec![key.clone()]);
}

#[test]
fn commenting_out_twice_changes_nothing() {
    for content in ["a = 1\n\n# note\nb = 2\n", "x\n  y", "", "\n\n", "# only\n", "k = 1\n\n"] {
        let once = comment_out_config(content);
        assert_eq!(comment_out_config(&once), once);
    }
    assert_eq!(comment_out_config("a = 1\n\n# note\n"), "# a = 1\n\n# note\n");
}

#[test]
fn carriage_returns_follow_str_lines() {
    // A last line without a newline keeps its carriage return, as `str::lines` does.
    assert_eq!(comment_out_config("x\r"), "# x\r");
    assert_eq!(comment_out_config(&comment_out_config("x\r")), "# x\r");
    // A newline-ended line loses one carriage return.
    assert_eq!(comment_out_config("a\r\n"), "# a\n");
    // With `\r\r\n` one carriage return is left, and reading again drops it.
    let once = comment_out_config("a\r\r\n");
    assert_eq!(once, "# a\r\n");
    assert_eq!(comment_out_config(&once), "# a\n");
}

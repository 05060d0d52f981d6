use worktrunk::configure_shell::configure_all_outcome;
use worktrunk::configure_shell::{
    config_target, configure_error_message, configure_result_message, no_config_files_message, plan_configure_file,
    shells_to_configure, ConfigAction, ConfigureResult, Shell, WriteKind,
};

#[test]
fn action_descriptions() {
    assert_eq!(ConfigAction::Added.description(), "Added");
    assert_eq!(ConfigAction::AlreadyExists.description(), "Already configured");
    assert_eq!(ConfigAction::Created.description(), "Created");
    assert_eq!(ConfigAction::WouldAdd.description(), "Would add to");
    assert_eq!(ConfigAction::WouldCreate.description(), "Would create");
}

#[test]
fn existing_eval_line_is_detected() {
    let content = "export X=1\n  eval \"$(wt init bash)\"  \n";
    let plan = plan_configure_file(Shell::Bash, Some(content), "eval \"$(wt init bash)\"", "wt", false, false).unwrap();
    assert_eq!(plan.action, ConfigAction::AlreadyExists);
    assert!(plan.write.is_none());
    let single = "eval '$(wt init zsh)'\n";
    assert_eq!(
        plan_configure_file(Shell::Zsh, Some(single), "x", "wt", false, false).unwrap().action,
        ConfigAction::AlreadyExists
    );
}

#[test]
fn missing_line_is_appended_with_spacing() {
    let plan = plan_configure_file(Shell::Bash, Some("# wt init mention\n"), "eval \"$(wt init bash)\"", "wt", false, false)
        .unwrap();
    assert_eq!(plan.action, ConfigAction::Added);
    let w = plan.write.unwrap();
    assert_eq!(w.kind, WriteKind::Append);
    assert_eq!(w.text, "\neval \"$(wt init bash)\"\n");
    let dry = plan_configure_file(Shell::Bash, Some(""), "line", "wt", true, false).unwrap();
    assert_eq!(dry.action, ConfigAction::WouldAdd);
    assert!(dry.write.is_none());
}

#[test]
fn missing_file_is_created_only_when_asked() {
    assert!(plan_configure_file(Shell::Zsh, None, "line", "wt", false, false).is_none());
    let created = plan_configure_file(Shell::Zsh, None, "line", "wt", false, true).unwrap();
    assert_eq!(created.action, ConfigAction::Created);
    let w = created.write.unwrap();
    assert_eq!(w.kind, WriteKind::Replace);
    assert_eq!(w.text, "line\n");
    assert_eq!(plan_configure_file(Shell::Zsh, None, "line", "wt", true, true).unwrap().action, ConfigAction::WouldCreate);
}

#[test]
fn fish_file_holds_the_whole_script() {
    let script = "function wt\nend";
    let already = plan_configure_file(Shell::Fish, Some("function wt\n  echo\nend"), script, "wt", false, false).unwrap();
    assert_eq!(already.action, ConfigAction::AlreadyExists);
    let replaced = plan_configure_file(Shell::Fish, Some("# old"), script, "wt", false, false).unwrap();
    assert_eq!(replaced.action, ConfigAction::Created);
    assert_eq!(replaced.write.unwrap().text, script);
    assert_eq!(plan_configure_file(Shell::Fish, Some("# old"), script, "wt", true, false).unwrap().action, ConfigAction::WouldAdd);
    assert!(plan_configure_file(Shell::Fish, None, script, "wt", false, false).is_none());
}

#[test]
fn shells_and_targets() {
    assert_eq!(shells_to_configure(Some(Shell::Fish)), vec![Shell::Fish]);
    assert_eq!(shells_to_configure(None).len(), 8);
    assert_eq!(shells_to_configure(None)[0], Shell::Bash);
    assert_eq!(config_target(&vec![false, true], false), Some(1));
    assert_eq!(config_target(&vec![false, false], false), None);
    assert_eq!(config_target(&vec![false, false], true), Some(0));
    assert_eq!(config_target(&vec![], true), None);
}

#[test]
fn error_messages_name_checked_paths() {
    let checked: Vec<String> = vec!["/h/.bashrc".into(), "/h/.bash_profile".into(), "/h/.zshrc".into(), "/h/x".into()];
    assert_eq!(
        no_config_files_message(&checked),
        "No shell config files found in $HOME. Checked: /h/.bashrc, /h/.bash_profile, /h/.zshrc, and more. Create a config file or use --shell to specify a shell."
    );
    assert_eq!(configure_error_message(Shell::Zsh, "denied"), "Failed to configure zsh: denied");
}

#[test]
fn installing_twice_changes_nothing() {
    for shell in [Shell::Bash, Shell::Zsh, Shell::Nushell, Shell::Powershell, Shell::Elvish, Shell::Xonsh, Shell::Oil] {
        let line = shell.config_line("git-wt", None);
        for existing in [None, Some("# my rc\nexport A=1"), Some("")] {
            let plan = plan_configure_file(shell, existing, &line, "git-wt", false, true).unwrap();
            let w = plan.write.expect("a first install writes");
            let after = match (w.kind, existing) {
                (WriteKind::Append, Some(c)) => format!("{c}{}", w.text),
                _ => w.text.clone(),
            };
            let again = plan_configure_file(shell, Some(&after), &line, "git-wt", false, true).unwrap();
            assert_eq!(again.action, ConfigAction::AlreadyExists);
            assert!(again.write.is_none());
        }
    }
    let script = "function git-wt\n  command git-wt $argv\nend\n";
    let fish = Shell::Fish.config_line("git-wt", Some(script.to_string()));
    let plan = plan_configure_file(Shell::Fish, None, &fish, "git-wt", false, true).unwrap();
    let after = plan.write.unwrap().text;
    let again = plan_configure_file(Shell::Fish, Some(&after), &fish, "git-wt", false, true).unwrap();
    assert_eq!(again.action, ConfigAction::AlreadyExists);
}

#[test]
fn configure_reports() {
    let r = ConfigureResult { shell: Shell::Zsh, path: "/home/u/.zshrc".to_string(), action: ConfigAction::Added };
    assert_eq!(configure_result_message(&r, "~/.zshrc", false), "✅ Added zsh @ ~/.zshrc");
    let r = ConfigureResult { shell: Shell::Fish, path: "/f".to_string(), action: ConfigAction::WouldCreate };
    assert_eq!(configure_result_message(&r, "/f", false), "✅ Would create fish @ /f");
}

#[test]
fn fish_install_without_a_generated_script_is_idempotent() {
    let line = Shell::Fish.config_line("wt", None);
    let plan = plan_configure_file(Shell::Fish, None, &line, "wt", false, true).unwrap();
    let text = plan.write.unwrap().text;
    assert_eq!(text, "wt init fish | source");
    let again = plan_configure_file(Shell::Fish, Some(&text), &line, "wt", false, true).unwrap();
    assert_eq!(again.action, ConfigAction::AlreadyExists);
    let ps = Shell::Powershell.config_line("wt", None);
    let again = plan_configure_file(Shell::Powershell, Some(&format!("  {ps}  \n")), &ps, "wt", false, false).unwrap();
    assert_eq!(again.action, ConfigAction::AlreadyExists);
}

#[test]
fn configuring_every_shell_without_any_file_fails() {
    let checked = vec!["/h/.bashrc".to_string(), "/h/.bash_profile".to_string(), "/h/.zshrc".to_string(), "/h/x".to_string()];
    let err = configure_all_outcome(Vec::new(), false, &checked).err().unwrap();
    assert_eq!(
        err,
        "No shell config files found in $HOME. Checked: /h/.bashrc, /h/.bash_profile, /h/.zshrc, and more. Create a config file or use --shell to specify a shell."
    );
    assert!(configure_all_outcome(Vec::new(), true, &checked).unwrap().is_empty());
    let r = ConfigureResult { shell: Shell::Zsh, path: "/h/.zshrc".to_string(), action: ConfigAction::Added };
    assert_eq!(configure_all_outcome(vec![r], false, &checked).unwrap().len(), 1);
}

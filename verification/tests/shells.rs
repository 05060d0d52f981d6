use worktrunk::configure_shell::{HostOs, Shell as ConfShell, ShellEnv};
use worktrunk::shell::{FileDetectionResult, Shell, ShellInit};

#[test]
fn shell_test_shell_from_str() {
    assert!(matches!("bash".parse::<ConfShell>(), Ok(ConfShell::Bash)));
    assert!(matches!("BASH".parse::<ConfShell>(), Ok(ConfShell::Bash)));
    assert!(matches!("fish".parse::<ConfShell>(), Ok(ConfShell::Fish)));
    assert!(matches!("zsh".parse::<ConfShell>(), Ok(ConfShell::Zsh)));
    assert!("invalid".parse::<ConfShell>().is_err());
}

#[test]
fn mod_test_shell_from_str() {
    assert!(matches!("bash".parse::<Shell>(), Ok(Shell::Bash)));
    assert!(matches!("BASH".parse::<Shell>(), Ok(Shell::Bash)));
    assert!(matches!("fish".parse::<Shell>(), Ok(Shell::Fish)));
    assert!(matches!("zsh".parse::<Shell>(), Ok(Shell::Zsh)));
    assert!(matches!("powershell".parse::<Shell>(), Ok(Shell::PowerShell)));
    assert!(matches!("POWERSHELL".parse::<Shell>(), Ok(Shell::PowerShell)));
    assert!("invalid".parse::<Shell>().is_err());
}

#[test]
fn test_shell_display() {
    assert_eq!(Shell::Bash.to_string(), "bash");
    assert_eq!(Shell::Fish.to_string(), "fish");
    assert_eq!(Shell::Zsh.to_string(), "zsh");
    assert_eq!(Shell::PowerShell.to_string(), "powershell");
}

#[test]
fn test_shell_config_paths_returns_paths() {
    let shells = [Shell::Bash, Shell::Zsh, Shell::Fish, Shell::PowerShell];
    for shell in shells {
        let result = shell.config_paths(Some("/home/user"), None, "wt");
        assert!(result.is_ok(), "Failed to get config paths for {:?}", shell);
        let paths = result.unwrap();
        assert!(!paths.is_empty(), "No config paths returned for {:?}", shell);
    }
}

#[test]
fn test_shell_completion_path_returns_path() {
    let shells = [Shell::Bash, Shell::Zsh, Shell::Fish, Shell::PowerShell];
    for shell in shells {
        let result = shell.completion_path(Some("/home/user"), "wt");
        assert!(result.is_ok(), "Failed to get completion path for {:?}", shell);
        let path = result.unwrap();
        assert!(!path.is_empty(), "Empty completion path for {:?}", shell);
    }
}

#[test]
fn test_shell_config_paths_with_custom_prefix() {
    let prefix = "custom-wt";
    let fish_paths = Shell::Fish.config_paths(Some("/home/user"), None, prefix).unwrap();
    assert!(fish_paths[0].rsplit('/').next().is_some_and(|n| n.contains("custom-wt.fish")));
    let bash_paths = Shell::Bash.config_paths(Some("/home/user"), None, prefix).unwrap();
    assert!(bash_paths[0].rsplit('/').next().is_some_and(|n| n.contains(".bashrc")));
    let zsh_paths = Shell::Zsh.config_paths(Some("/home/user"), None, prefix).unwrap();
    assert!(zsh_paths[0].rsplit('/').next().is_some_and(|n| n.contains(".zshrc")));
}

#[test]
fn test_shell_completion_path_with_custom_prefix() {
    let prefix = "my-prefix";
    let bash_path = Shell::Bash.completion_path(Some("/home/user"), prefix).unwrap();
    assert!(bash_path.rsplit('/').next().is_some_and(|n| n.contains("my-prefix")));
    let fish_path = Shell::Fish.completion_path(Some("/home/user"), prefix).unwrap();
    assert!(fish_path.rsplit('/').next().is_some_and(|n| n.contains("my-prefix.fish")));
    let zsh_path = Shell::Zsh.completion_path(Some("/home/user"), prefix).unwrap();
    assert!(zsh_path.rsplit('/').next().is_some_and(|n| n.contains("_my-prefix")));
}

#[test]
fn config_paths_follow_home_and_zdotdir() {
    assert_eq!(
        Shell::Bash.config_paths(Some("/home/u"), None, "wt").unwrap(),
        vec!["/home/u/.bashrc".to_string(), "/home/u/.bash_profile".to_string()]
    );
    assert_eq!(Shell::Zsh.config_paths(Some("/home/u"), Some("/z"), "wt").unwrap(), vec!["/z/.zshrc".to_string()]);
    assert_eq!(
        Shell::Fish.config_paths(Some("/home/u/"), None, "git-wt").unwrap(),
        vec!["/home/u/.config/fish/functions/git-wt.fish".to_string()]
    );
    assert!(Shell::Bash.config_paths(None, None, "wt").is_err());
    assert_eq!(
        Shell::legacy_fish_conf_d_path(Some("/home/u"), "wt").unwrap(),
        "/home/u/.config/fish/conf.d/wt.fish"
    );
}

#[test]
fn config_lines_use_the_command_name_throughout() {
    assert_eq!(
        Shell::Bash.config_line("git-wt"),
        "if command -v git-wt >/dev/null 2>&1; then eval \"$(command git-wt config shell init bash)\"; fi"
    );
    assert_eq!(Shell::Fish.config_line("wt"), "if type -q wt; command wt config shell init fish | source; end");
    assert_eq!(
        Shell::PowerShell.config_line("wt"),
        "if (Get-Command wt -ErrorAction SilentlyContinue) { Invoke-Expression (& wt config shell init powershell) }"
    );
}

#[test]
fn integration_is_configured_in_first_file_with_lines() {
    let results = vec![
        FileDetectionResult { path: "/a".into(), matched_lines: vec![] },
        FileDetectionResult { path: "/b".into(), matched_lines: vec!["eval".into()] },
        FileDetectionResult { path: "/c".into(), matched_lines: vec!["eval".into()] },
    ];
    assert_eq!(Shell::is_integration_configured(&results).as_deref(), Some("/b"));
    assert_eq!(Shell::is_integration_configured(&results[..1].iter().map(|r| FileDetectionResult {
        path: r.path.clone(),
        matched_lines: r.matched_lines.clone(),
    }).collect()), None);
    let init = ShellInit::with_prefix(Shell::Zsh, "wt".to_string());
    assert_eq!(init.cmd, "wt");
}

fn env(home: Option<&str>, os: HostOs) -> ShellEnv {
    ShellEnv { home: home.map(|h| h.to_string()), zdotdir: None, userprofile: Some("C:/Users/u".into()), os }
}

#[test]
fn configurable_shells_have_startup_files() {
    let e = env(Some("/home/u"), HostOs::Other);
    assert_eq!(ConfShell::Bash.config_paths("wt", &e), vec!["/home/u/.bashrc".to_string(), "/home/u/.bash_profile".to_string()]);
    assert_eq!(
        ConfShell::Bash.config_paths("wt", &env(Some("/home/u"), HostOs::MacOs)),
        vec!["/home/u/.bash_profile".to_string(), "/home/u/.profile".to_string()]
    );
    assert_eq!(ConfShell::Fish.config_paths("git-wt", &e), vec!["/home/u/.config/fish/conf.d/git-wt.fish".to_string()]);
    assert_eq!(ConfShell::Nushell.config_paths("wt", &e), vec!["/home/u/.config/nushell/config.nu".to_string()]);
    assert_eq!(
        ConfShell::Powershell.config_paths("wt", &env(None, HostOs::Windows)),
        vec!["C:/Users/u/Documents/PowerShell/Microsoft.PowerShell_profile.ps1".to_string()]
    );
    assert_eq!(ConfShell::Xonsh.config_paths("wt", &env(None, HostOs::Other)), vec!["./.xonshrc".to_string()]);
    let z = ShellEnv { home: Some("/h".into()), zdotdir: Some("/zd".into()), userprofile: None, os: HostOs::Other };
    assert_eq!(ConfShell::Zsh.config_paths("wt", &z), vec!["/zd/.zshrc".to_string()]);
}

#[test]
fn configurable_shell_config_lines() {
    assert_eq!(ConfShell::Bash.config_line("wt", None), "eval \"$(wt init bash)\"");
    assert_eq!(ConfShell::Elvish.config_line("git-wt", None), "eval (git-wt init elvish | slurp)");
    assert_eq!(ConfShell::Elvish.config_line("wt", None), "eval (wt init elvish | slurp)");
    assert_eq!(ConfShell::Xonsh.config_line("wt", None), "execx($(wt init xonsh))");
    assert_eq!(ConfShell::Powershell.config_line("wt", None), "wt init powershell | Out-String | Invoke-Expression");
    assert_eq!(ConfShell::Zsh.config_line("wt", None), "eval \"$(wt init zsh)\"");
    assert_eq!(ConfShell::Oil.config_line("wt", None), "eval \"$(wt init oil)\"");
    assert_eq!(ConfShell::Fish.config_line("wt", Some("function wt; end".into())), "function wt; end");
    assert_eq!(ConfShell::Fish.config_line("wt", None), "wt init fish | source");
    assert!(ConfShell::Oil.supports_completion());
    assert!(!ConfShell::Nushell.supports_completion());
    assert_eq!(ConfShell::parse("Nope").unwrap_err(), "Unsupported shell: Nope");
    assert!(matches!("XoNsH".parse::<ConfShell>(), Ok(ConfShell::Xonsh)));
}

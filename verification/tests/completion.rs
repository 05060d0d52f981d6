use worktrunk::completion::branch_completion_output;
use worktrunk::completion::{
    filter_items, local_branch_entries, parse_ref_lines, remote_only_entries, Item,
};
use worktrunk::completion::{
    complete_branches, filter_candidates, hook_command_names, items_from_values, suppress_switch_branch_completion,
    context_hook_type, BranchCategory, BranchEntry, CommandNode, CommandTree, CompletionContext, CompletionPlan,
    CompletionTarget, OptSpec, PossibleValue,
};

fn opt(long: &str, short: Option<char>, global: bool, values: &[&str]) -> OptSpec {
    OptSpec {
        long: Some(long.to_string()),
        short,
        takes_value: true,
        global,
        values: values.iter().map(|v| PossibleValue { name: v.to_string(), help: None, hidden: false }).collect(),
    }
}

fn node(name: &str, opts: Vec<OptSpec>, subcommands: Vec<usize>) -> CommandNode {
    CommandNode {
        name: name.to_string(),
        aliases: vec![],
        visible_aliases: vec![],
        opts,
        positionals: vec![],
        subcommands,
    }
}

fn tree() -> CommandTree {
    let mut init = node("init", vec![], vec![]);
    init.positionals = vec![vec![
        PossibleValue { name: "bash".into(), help: None, hidden: false },
        PossibleValue { name: "fish".into(), help: Some("friendly".into()), hidden: false },
        PossibleValue { name: "secret".into(), help: None, hidden: true },
    ]];
    let mut switch = node("switch", vec![opt("base", Some('b'), false, &[]), opt("execute", Some('x'), false, &[])], vec![]);
    switch.aliases = vec!["sw".into()];
    switch.visible_aliases = vec!["sw".into()];
    let nodes = vec![
        node("wt", vec![opt("config", Some('C'), true, &[])], vec![1, 2, 3, 4]),
        switch,
        node("merge", vec![opt("format", None, false, &["json", "text"])], vec![]),
        node("remove", vec![], vec![]),
        init,
    ];
    CommandTree::from_nodes(nodes).unwrap()
}

fn args(words: &[&str]) -> Vec<String> {
    words.iter().map(|w| w.to_string()).collect()
}

#[test]
fn tree_rejects_dangling_subcommands() {
    assert!(CommandTree::from_nodes(vec![node("wt", vec![], vec![3])]).is_none());
    assert!(CommandTree::from_nodes(vec![]).is_none());
}

#[test]
fn completes_option_values_in_both_forms() {
    let t = tree();
    match t.detect_completion_target(&args(&["wt", "merge", "--format=js"])) {
        CompletionTarget::Option { node, opt, prefix } => {
            assert_eq!((node, opt, prefix.as_str()), (2, 0, "js"));
        }
        _ => panic!("expected an option value"),
    }
    match t.detect_completion_target(&args(&["wt", "switch", "-b", "ma"])) {
        CompletionTarget::Option { node, opt, prefix } => assert_eq!((node, opt, prefix.as_str()), (1, 0, "ma")),
        _ => panic!("expected an option value"),
    }
}

#[test]
fn completes_branch_arguments_until_a_positional_is_given() {
    let t = tree();
    assert!(matches!(
        t.detect_completion_target(&args(&["wt", "switch", "fea"])),
        CompletionTarget::PositionalBranch(p) if p == "fea"
    ));
    assert!(matches!(
        t.detect_completion_target(&args(&["wt", "sw", "--execute", "cmd", ""])),
        CompletionTarget::PositionalBranch(p) if p.is_empty()
    ));
    assert!(matches!(t.detect_completion_target(&args(&["wt", "switch", "--create", "new"])), CompletionTarget::Unknown));
    assert!(matches!(t.detect_completion_target(&args(&["wt", "remove", "a", "b"])), CompletionTarget::Unknown));
    assert!(matches!(t.detect_completion_target(&args(&["wt"])), CompletionTarget::Unknown));
    assert!(!t.should_complete_positional_arg(&args(&["wt", "switch", "-x"]), 2, 1));
    assert!(t.should_complete_positional_arg(&args(&["wt", "switch", "-xcmd", "br"]), 2, 1));
    assert!(t.should_complete_positional_arg(&args(&["wt", "switch", "--", "-x"]), 2, 1));
}

#[test]
fn completion_plan_offers_branches_or_values() {
    let t = tree();
    match t.completion_plan(&args(&["wt", "switch", "--base", "m"])) {
        CompletionPlan::Branches { prefix, local_only } => {
            assert_eq!(prefix, "m");
            assert!(!local_only);
        }
        _ => panic!("expected branches"),
    }
    match t.completion_plan(&args(&["wt", "remove", "fe"])) {
        CompletionPlan::Branches { prefix, local_only } => {
            assert_eq!(prefix, "fe");
            assert!(local_only);
        }
        _ => panic!("expected branches"),
    }
    match t.completion_plan(&args(&["wt", "switch", "--base=ma"])) {
        CompletionPlan::Branches { prefix, local_only } => {
            assert_eq!(prefix, "ma");
            assert!(!local_only);
        }
        _ => panic!("expected branches"),
    }
    match t.completion_plan(&args(&["wt", "merge", "--format", "t"])) {
        CompletionPlan::Items(items) => {
            assert_eq!(items.len(), 1);
            assert_eq!(items[0].name, "text");
        }
        _ => panic!("expected items"),
    }
    match t.completion_plan(&args(&["wt", "init", "f"])) {
        CompletionPlan::Items(items) => {
            assert_eq!(items.len(), 1);
            assert_eq!(items[0].help.as_deref(), Some("friendly"));
        }
        _ => panic!("expected items"),
    }
    match t.completion_plan(&args(&["wt", "init"])) {
        CompletionPlan::Items(items) => assert_eq!(items.len(), 2),
        _ => panic!("expected items"),
    }
}

#[test]
fn help_path_follows_visible_subcommands() {
    let t = tree();
    assert_eq!(t.extract_subcommand_path(&args(&["wt", "-C", "x", "sw", "--help"])), vec!["sw".to_string()]);
    assert_eq!(t.extract_subcommand_path(&args(&["wt", "nope", "switch"])), Vec::<String>::new());
    assert_eq!(t.extract_subcommand_path(&args(&["wt", "-v", "merge"])), vec!["merge".to_string()]);
}

#[test]
fn value_completers_filter_candidates() {
    let values = vec![
        PossibleValue { name: "alpha".into(), help: None, hidden: false },
        PossibleValue { name: "alps".into(), help: None, hidden: true },
    ];
    assert_eq!(items_from_values(&values, "al").len(), 1);
    let names = vec!["main".to_string(), "feature".to_string(), "maint".to_string()];
    assert_eq!(filter_candidates(&names, "mai", true), vec!["main".to_string(), "maint".to_string()]);
    assert!(filter_candidates(&names, "-", true).is_empty());
    assert_eq!(filter_candidates(&names, "-", false).len(), 0);
    assert_eq!(
        hook_command_names(&vec![Some("a".into()), None, Some("b".into())]),
        vec!["a".to_string(), "b".to_string()]
    );
}

#[test]
fn create_flag_suppresses_branch_completion() {
    let ctx = CompletionContext { args: args(&["wt", "switch", "-c", "x"]) };
    assert!(suppress_switch_branch_completion(Some(&ctx)));
    assert!(!suppress_switch_branch_completion(None));
    let other = CompletionContext { args: args(&["wt", "step", "pre-merge", "post-create"]) };
    assert_eq!(context_hook_type(Some(&other)), Some("post-create"));
    let entries = vec![
        BranchEntry { name: "main".into(), category: BranchCategory::Worktree, age: "2d".into() },
        BranchEntry { name: "old".into(), category: BranchCategory::Local, age: "3w".into() },
        BranchEntry { name: "up".into(), category: BranchCategory::Remote("origin".into()), age: "1h".into() },
    ];
    let all = complete_branches(&entries, false, false);
    assert_eq!(all.len(), 3);
    assert_eq!(all[0].help.as_deref(), Some("+ 2d"));
    assert_eq!(all[1].help.as_deref(), Some("/ 3w"));
    assert_eq!(all[2].help.as_deref(), Some("\u{21e3} 1h origin"));
    assert_eq!(complete_branches(&entries, false, true).len(), 2);
    assert!(complete_branches(&entries, true, false).is_empty());
}

#[test]
fn branch_listing_for_completion() {
    let refs = parse_ref_lines("main\t2 days ago\nfeature\t3 hours ago\nodd\n");
    assert_eq!(
        refs,
        vec![
            ("main".to_string(), "2 days ago".to_string()),
            ("feature".to_string(), "3 hours ago".to_string()),
            ("odd".to_string(), String::new()),
        ]
    );
    let locals = local_branch_entries(&refs, &vec!["main".to_string()]);
    assert!(matches!(locals[0].category, BranchCategory::Worktree));
    assert!(matches!(locals[1].category, BranchCategory::Local));
    assert_eq!(locals[1].age, "3 hours ago");
    let remotes = parse_ref_lines("origin/HEAD\t1 day ago\norigin/main\t1 day ago\norigin/fix\t5 days ago\n");
    let names: Vec<String> = refs.iter().map(|r| r.0.clone()).collect();
    let only = remote_only_entries(&remotes, &names);
    assert_eq!(only.len(), 1);
    assert_eq!(only[0].name, "fix");
    assert!(matches!(&only[0].category, BranchCategory::Remote(r) if r == "origin"));
    let mut all = locals;
    all.extend(only);
    let items = complete_branches(&all, false, false);
    let shown = filter_items(&items, "f", true);
    assert_eq!(shown.len(), 2);
    assert_eq!(shown[0].name, "feature");
    assert_eq!(shown[0].help.as_deref(), Some("/ 3 hours ago"));
    assert_eq!(shown[1].name, "fix");
    assert_eq!(shown[1].help.as_deref(), Some("\u{21e3} 5 days ago origin"));
    assert!(filter_items(&items, "-", true).is_empty());
    assert_eq!(filter_items(&items, "-", false).len(), 0);
    assert_eq!(filter_items(&items, "", true).len(), 4);
    let local_only = complete_branches(&all, false, true);
    assert_eq!(local_only.len(), 3);
    let _: Vec<Item> = filter_items(&local_only, "m", true);
}

#[test]
fn branch_completion_lists_every_branch_unfiltered() {
    let bs = vec!["feature/a".to_string(), "main".to_string(), "fix".to_string()];
    assert_eq!(branch_completion_output(Some(&bs)), "feature/a\nmain\nfix\n");
    assert_eq!(branch_completion_output(Some(&Vec::new())), "");
    assert_eq!(branch_completion_output(None), "");
}

use ginsp::cli::{split_patterns, DiffMessageParams};
use ginsp::git::{command_update, Git};
use ginsp::profile::{AuthType, ProjectManagement, ProjectManagementName};

#[test]
fn update_plan_checks_fetches_then_refreshes_each_branch() {
    let plan = command_update(vec!["main".to_string(), "dev".to_string()]);
    let got: Vec<Vec<String>> = plan.into_iter().map(|c| c.args).collect();
    let want: Vec<Vec<&str>> = vec![
        vec!["--version"],
        vec!["status"],
        vec!["fetch", "--all", "--prune", "--tags"],
        vec!["checkout", "main"],
        vec!["pull"],
        vec!["checkout", "dev"],
        vec!["pull"],
    ];
    assert_eq!(got, want.iter().map(|v| v.iter().map(|s| s.to_string()).collect::<Vec<String>>()).collect::<Vec<_>>());
}

#[test]
fn git_commands() {
    assert_eq!(Git::get_commits_info("dev").args, vec!["log", "--format=%h%s", "--abbrev=7", "dev"]);
    assert_eq!(Git::reset_hard(&"abc1234".to_string()).args, vec!["reset", "--hard", "abc1234"]);
    assert_eq!(Git::branch_from_output("  main\n"), "main");
}

#[test]
fn two_branches_are_needed() {
    let p = DiffMessageParams {
        branches: vec!["a".to_string()],
        pick_contains: None,
        is_fetch_ticket_status: false,
        verbose: false,
    };
    assert!(p.branch_pair().is_err());
    let p = DiffMessageParams { branches: vec!["a".to_string(), "b".to_string()], ..p };
    assert_eq!(p.branch_pair().unwrap(), ("a".to_string(), "b".to_string()));
}

#[test]
fn auth_string_is_kept() {
    let mut pm = ProjectManagement::new(
        ProjectManagementName::Jira,
        "u".to_string(),
        "TOKEN_VAR".to_string(),
        "r".to_string(),
        Some(AuthType::Basic),
    );
    assert_eq!(pm.get_auth_string(), None);
    pm.set_auth_string("user:pw".to_string());
    assert_eq!(pm.get_auth_string(), Some("user:pw".to_string()));
}

#[test]
fn pick_list_is_split_on_commas() {
    assert_eq!(split_patterns("fix,feat"), vec!["fix".to_string(), "feat".to_string()]);
    assert_eq!(split_patterns("fix"), vec!["fix".to_string()]);
    assert_eq!(split_patterns(""), vec![String::new()]);
    assert_eq!(
        split_patterns("a,,b,"),
        vec!["a".to_string(), String::new(), "b".to_string(), String::new()]
    );
    let p = DiffMessageParams {
        branches: vec![],
        pick_contains: Some("x,y".to_string()),
        is_fetch_ticket_status: false,
        verbose: false,
    };
    assert_eq!(p.pick_patterns(), vec!["x".to_string(), "y".to_string()]);
    let p = DiffMessageParams { pick_contains: None, ..p };
    assert!(p.pick_patterns().is_empty());
}

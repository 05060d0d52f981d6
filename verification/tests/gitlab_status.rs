use worktrunk::gitlab::{
    gitlab_mr_list_status, gitlab_mr_pr_status, gitlab_mr_status, gitlab_pipeline_pr_status, parse_gitlab_status,
    select_gitlab_mr, CiSource, CiStatus, GitLabMrInfo, GitLabPipeline,
};

fn pipeline(status: Option<&str>, sha: Option<&str>) -> GitLabPipeline {
    GitLabPipeline { status: status.map(|s| s.to_string()), sha: sha.map(|s| s.to_string()), web_url: None }
}

fn mr(project: Option<u64>, status: Option<&str>) -> GitLabMrInfo {
    GitLabMrInfo {
        sha: "abc".into(),
        has_conflicts: false,
        detailed_merge_status: status.map(|s| s.to_string()),
        head_pipeline: None,
        pipeline: None,
        source_project_id: project,
        web_url: None,
    }
}

#[test]
fn test_parse_gitlab_status() {
    for status in ["running", "pending", "preparing", "waiting_for_resource", "created", "scheduled"] {
        assert_eq!(parse_gitlab_status(Some(status)), CiStatus::Running, "status={status}");
    }
    for status in ["failed", "canceled", "manual"] {
        assert_eq!(parse_gitlab_status(Some(status)), CiStatus::Failed, "status={status}");
    }
    assert_eq!(parse_gitlab_status(Some("success")), CiStatus::Passed);
    assert_eq!(parse_gitlab_status(Some("skipped")), CiStatus::NoCI);
    assert_eq!(parse_gitlab_status(None), CiStatus::NoCI);
    assert_eq!(parse_gitlab_status(Some("unknown")), CiStatus::NoCI);
}

#[test]
fn test_gitlab_mr_info_ci_status() {
    let mr = GitLabMrInfo {
        sha: "abc".into(),
        has_conflicts: false,
        detailed_merge_status: None,
        head_pipeline: None,
        pipeline: None,
        source_project_id: None,
        web_url: None,
    };
    assert_eq!(mr.ci_status(), CiStatus::NoCI);

    let mr = GitLabMrInfo {
        sha: "abc".into(),
        has_conflicts: false,
        detailed_merge_status: None,
        head_pipeline: Some(GitLabPipeline { status: Some("success".into()), sha: None, web_url: None }),
        pipeline: Some(GitLabPipeline { status: Some("failed".into()), sha: None, web_url: None }),
        source_project_id: None,
        web_url: None,
    };
    assert_eq!(mr.ci_status(), CiStatus::Passed);

    let mr = GitLabMrInfo {
        sha: "abc".into(),
        has_conflicts: false,
        detailed_merge_status: None,
        head_pipeline: None,
        pipeline: Some(GitLabPipeline { status: Some("running".into()), sha: None, web_url: None }),
        source_project_id: None,
        web_url: None,
    };
    assert_eq!(mr.ci_status(), CiStatus::Running);
}

#[test]
fn merge_status_priority_puts_conflicts_first() {
    let mut m = mr(None, Some("ci_still_running"));
    m.has_conflicts = true;
    assert_eq!(gitlab_mr_status(&m), CiStatus::Conflicts);
    assert_eq!(gitlab_mr_status(&mr(None, Some("conflict"))), CiStatus::Conflicts);
    assert_eq!(gitlab_mr_status(&mr(None, Some("ci_still_running"))), CiStatus::Running);
    assert_eq!(gitlab_mr_status(&mr(None, Some("ci_must_pass"))), CiStatus::Failed);
    let mut p = mr(None, Some("mergeable"));
    p.pipeline = Some(pipeline(Some("success"), None));
    assert_eq!(gitlab_mr_status(&p), CiStatus::Passed);
}

#[test]
fn selects_first_merge_request_of_project() {
    let mrs = vec![mr(Some(1), None), mr(Some(7), None), mr(Some(7), None)];
    assert_eq!(select_gitlab_mr(&mrs, Some(7)), Some(1));
    assert_eq!(select_gitlab_mr(&mrs, Some(9)), None);
    assert_eq!(select_gitlab_mr(&mrs, None), Some(0));
    assert_eq!(select_gitlab_mr(&Vec::new(), None), None);
}

#[test]
fn merge_request_status_is_stale_when_heads_differ() {
    let mut m = mr(Some(3), None);
    m.web_url = Some("https://gitlab.example/mr/1".into());
    let st = gitlab_mr_pr_status(&m, "abc");
    assert!(!st.is_stale);
    assert_eq!(st.source, CiSource::PullRequest);
    assert_eq!(st.url.as_deref(), Some("https://gitlab.example/mr/1"));
    assert!(gitlab_mr_pr_status(&m, "def").is_stale);
    let listed = gitlab_mr_list_status(&vec![mr(Some(2), None), m], Some(3), "zzz").unwrap();
    assert!(listed.is_stale);
    assert!(gitlab_mr_list_status(&vec![mr(Some(2), None)], Some(3), "abc").is_none());
}

#[test]
fn pipeline_status_uses_first_pipeline() {
    let ps = vec![pipeline(Some("failed"), Some("h1")), pipeline(Some("success"), Some("h2"))];
    let st = gitlab_pipeline_pr_status(&ps, "h1").unwrap();
    assert_eq!(st.ci_status, CiStatus::Failed);
    assert_eq!(st.source, CiSource::Branch);
    assert!(!st.is_stale);
    assert!(gitlab_pipeline_pr_status(&vec![pipeline(Some("success"), None)], "h1").unwrap().is_stale);
    assert!(gitlab_pipeline_pr_status(&Vec::new(), "h1").is_none());
}

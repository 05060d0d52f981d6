//! GitLab CI status: reading pipeline and merge request data reported by
//! the `glab` CLI into a CI status.

use vstd::prelude::*;
use crate::text::str_eq;

verus! {

/// CI status of a branch or merge request.
#[derive(Debug, Clone, Copy, PartialEq, Eq, Structural)]
pub enum CiStatus {
    Passed,
    Running,
    Failed,
    Conflicts,
    NoCI,
    Error,
}

/// Where a CI status came from.
#[derive(Debug, Clone, Copy, PartialEq, Eq, Structural)]
pub enum CiSource {
    PullRequest,
    Branch,
}

/// CI status of a branch, with its source, staleness and link.
#[derive(Debug)]
pub struct PrStatus {
    pub ci_status: CiStatus,
    pub source: CiSource,
    pub is_stale: bool,
    pub url: Option<String>,
}

impl PrStatus {
    /// The status reported when fetching failed in a retriable way.
    pub fn error() -> (s: PrStatus)
        ensures
            s.ci_status == CiStatus::Error,
            s.source == CiSource::PullRequest,
            !s.is_stale,
            s.url is None,
    {
        PrStatus { ci_status: CiStatus::Error, source: CiSource::PullRequest, is_stale: false, url: None }
    }
}

/// A GitLab pipeline as reported by `glab`.
#[derive(Debug)]
pub struct GitLabPipeline {
    pub status: Option<String>,
    /// Only present in `glab ci list` output.
    pub sha: Option<String>,
    /// URL of the pipeline page.
    pub web_url: Option<String>,
}

/// A GitLab merge request as reported by `glab mr list --output json`.
#[derive(Debug)]
pub struct GitLabMrInfo {
    pub sha: String,
    pub has_conflicts: bool,
    pub detailed_merge_status: Option<String>,
    pub head_pipeline: Option<GitLabPipeline>,
    pub pipeline: Option<GitLabPipeline>,
    /// The project the merge request's branch comes from.
    pub source_project_id: Option<u64>,
    /// URL of the merge request page.
    pub web_url: Option<String>,
}

/// The CI status of a GitLab pipeline status name.
pub open spec fn gitlab_status(status: Option<Seq<char>>) -> CiStatus {
    match status {
        Some(s) => {
            if s == "running"@ || s == "pending"@ || s == "preparing"@ || s == "waiting_for_resource"@
                || s == "created"@ || s == "scheduled"@ {
                CiStatus::Running
            } else if s == "failed"@ || s == "canceled"@ || s == "manual"@ {
                CiStatus::Failed
            } else if s == "success"@ {
                CiStatus::Passed
            } else {
                CiStatus::NoCI
            }
        },
        None => CiStatus::NoCI,
    }
}

/// The view of an optional string.
pub open spec fn opt_view(s: Option<String>) -> Option<Seq<char>> {
    match s {
        Some(v) => Some(v@),
        None => None,
    }
}

/// Map a GitLab pipeline status to a CI status.
pub fn parse_gitlab_status(status: Option<&str>) -> (res: CiStatus)
    ensures
        res == gitlab_status(match status { Some(s) => Some(s@), None => None }),
{
    match status {
        Some(s) => {
            if str_eq(s, "running") || str_eq(s, "pending") || str_eq(s, "preparing")
                || str_eq(s, "waiting_for_resource") || str_eq(s, "created") || str_eq(s, "scheduled") {
                CiStatus::Running
            } else if str_eq(s, "failed") || str_eq(s, "canceled") || str_eq(s, "manual") {
                CiStatus::Failed
            } else if str_eq(s, "success") {
                CiStatus::Passed
            } else {
                CiStatus::NoCI
            }
        },
        None => CiStatus::NoCI,
    }
}

/// The CI status of a pipeline.
pub open spec fn pipeline_status(p: GitLabPipeline) -> CiStatus {
    gitlab_status(opt_view(p.status))
}

/// The CI status of a merge request's pipelines: the head pipeline's, else
/// the pipeline's, else no CI.
pub open spec fn mr_pipeline_status(mr: GitLabMrInfo) -> CiStatus {
    match mr.head_pipeline {
        Some(p) => pipeline_status(p),
        None => match mr.pipeline {
            Some(p) => pipeline_status(p),
            None => CiStatus::NoCI,
        },
    }
}

impl GitLabPipeline {
    pub fn ci_status(&self) -> (res: CiStatus)
        ensures
            res == pipeline_status(*self),
    {
        match &self.status {
            Some(s) => parse_gitlab_status(Some(s.as_str())),
            None => parse_gitlab_status(None),
        }
    }
}

impl GitLabMrInfo {
    pub fn ci_status(&self) -> (res: CiStatus)
        ensures
            res == mr_pipeline_status(*self),
    {
        match &self.head_pipeline {
            Some(p) => p.ci_status(),
            None => match &self.pipeline {
                Some(p) => p.ci_status(),
                None => CiStatus::NoCI,
            },
        }
    }
}

/// The index of the merge request to report: the first one from our project
/// when the project is known, else the first one.
pub open spec fn selected_mr(mrs: Seq<GitLabMrInfo>, project_id: Option<u64>) -> Option<int> {
    match project_id {
        Some(p) => if exists|i: int| 0 <= i < mrs.len() && mrs[i].source_project_id == Some(p) {
            Some(choose|i: int| 0 <= i < mrs.len() && mrs[i].source_project_id == Some(p)
                && forall|j: int| 0 <= j < i ==> mrs[j].source_project_id != Some(p))
        } else {
            None
        },
        None => if mrs.len() > 0 { Some(0) } else { None },
    }
}

/// Whether a merge request comes from the given project.
pub open spec fn from_project(mr: GitLabMrInfo, p: u64) -> bool {
    mr.source_project_id == Some(p)
}

/// Pick the merge request whose CI status is reported: the first from the
/// given project, or the first at all when the project id is unknown.
pub fn select_gitlab_mr(mrs: &Vec<GitLabMrInfo>, project_id: Option<u64>) -> (res: Option<usize>)
    ensures
        res matches Some(i) ==> i < mrs@.len(),
        project_id is None ==> res == (if mrs@.len() > 0 { Some(0usize) } else { None }),
        project_id matches Some(p) ==> match res {
            Some(i) => from_project(mrs@[i as int], p)
                && forall|j: int| 0 <= j < i ==> !from_project(#[trigger] mrs@[j], p),
            None => forall|j: int| 0 <= j < mrs@.len() ==> !from_project(#[trigger] mrs@[j], p),
        },
{
    match project_id {
        Some(p) => {
            let mut i: usize = 0;
            while i < mrs.len()
                invariant
                    i <= mrs@.len(),
                    project_id == Some(p),
                    forall|j: int| 0 <= j < i ==> !from_project(#[trigger] mrs@[j], p),
                decreases mrs@.len() - i,
            {
                let id = mrs[i].source_project_id;
                if let Some(q) = id {
                    if q == p {
                        return Some(i);
                    }
                }
                i = i + 1;
            }
            None
        },
        None => if mrs.len() > 0 { Some(0) } else { None },
    }
}

/// The CI status of a merge request, by priority: conflicts, then a still
/// running CI, then a CI that must pass, then its pipelines.
pub open spec fn mr_status(mr: GitLabMrInfo) -> CiStatus {
    if mr.has_conflicts || opt_view(mr.detailed_merge_status) == Some("conflict"@) {
        CiStatus::Conflicts
    } else if opt_view(mr.detailed_merge_status) == Some("ci_still_running"@) {
        CiStatus::Running
    } else if opt_view(mr.detailed_merge_status) == Some("ci_must_pass"@) {
        CiStatus::Failed
    } else {
        mr_pipeline_status(mr)
    }
}

fn opt_str_is(s: &Option<String>, lit: &str) -> (b: bool)
    ensures
        b == (opt_view(*s) == Some(lit@)),
{
    match s {
        Some(v) => str_eq(v.as_str(), lit),
        None => false,
    }
}

/// The CI status of a merge request, with merge conflicts first.
pub fn gitlab_mr_status(mr: &GitLabMrInfo) -> (res: CiStatus)
    ensures
        res == mr_status(*mr),
{
    if mr.has_conflicts || opt_str_is(&mr.detailed_merge_status, "conflict") {
        CiStatus::Conflicts
    } else if opt_str_is(&mr.detailed_merge_status, "ci_still_running") {
        CiStatus::Running
    } else if opt_str_is(&mr.detailed_merge_status, "ci_must_pass") {
        CiStatus::Failed
    } else {
        mr.ci_status()
    }
}

/// A copy of an optional string.
fn copy_opt(s: &Option<String>) -> (res: Option<String>)
    ensures
        opt_view(res) == opt_view(*s),
{
    match s {
        Some(v) => Some(v.clone()),
        None => None,
    }
}

/// The status reported for a merge request: its CI status, stale when the
/// merge request's head differs from the local head.
pub fn gitlab_mr_pr_status(mr: &GitLabMrInfo, local_head: &str) -> (res: PrStatus)
    ensures
        res.ci_status == mr_status(*mr),
        res.source == CiSource::PullRequest,
        res.is_stale == (mr.sha@ != local_head@),
        opt_view(res.url) == opt_view(mr.web_url),
{
    let ci_status = gitlab_mr_status(mr);
    let is_stale = !str_eq(mr.sha.as_str(), local_head);
    PrStatus { ci_status, source: CiSource::PullRequest, is_stale, url: copy_opt(&mr.web_url) }
}

/// The status reported for a branch from its most recent pipeline (the first
/// listed): stale unless the pipeline's commit is the local head.
pub fn gitlab_pipeline_pr_status(pipelines: &Vec<GitLabPipeline>, local_head: &str) -> (res: Option<PrStatus>)
    ensures
        pipelines@.len() == 0 <==> res is None,
        res matches Some(st) ==> {
            &&& st.ci_status == pipeline_status(pipelines@[0])
            &&& st.source == CiSource::Branch
            &&& st.is_stale == (opt_view(pipelines@[0].sha) != Some(local_head@))
            &&& opt_view(st.url) == opt_view(pipelines@[0].web_url)
        },
{
    if pipelines.len() == 0 {
        return None;
    }
    let pipeline = &pipelines[0];
    let is_stale = match &pipeline.sha {
        Some(sha) => !str_eq(sha.as_str(), local_head),
        None => true,
    };
    Some(PrStatus {
        ci_status: pipeline.ci_status(),
        source: CiSource::Branch,
        is_stale,
        url: copy_opt(&pipeline.web_url),
    })
}

/// The status reported for a branch from the merge requests listed for it:
/// the status of the selected merge request (the first from our project, or
/// the first at all when the project is unknown), none when there is none.
pub fn gitlab_mr_list_status(mrs: &Vec<GitLabMrInfo>, project_id: Option<u64>, local_head: &str) -> (res: Option<PrStatus>)
    ensures
        project_id is None ==> (res is Some <==> mrs@.len() > 0),
        project_id matches Some(p) ==> (res is Some <==> exists|j: int| 0 <= j < mrs@.len() && from_project(#[trigger] mrs@[j], p)),
        res matches Some(st) ==> exists|i: int| {
            &&& 0 <= i < mrs@.len()
            &&& (project_id matches Some(p) ==> from_project(mrs@[i], p)
                && forall|j: int| 0 <= j < i ==> !from_project(#[trigger] mrs@[j], p))
            &&& (project_id is None ==> i == 0)
            &&& st.ci_status == mr_status(#[trigger] mrs@[i])
            &&& st.source == CiSource::PullRequest
            &&& st.is_stale == (mrs@[i].sha@ != local_head@)
            &&& opt_view(st.url) == opt_view(mrs@[i].web_url)
        },
{
    match select_gitlab_mr(mrs, project_id) {
        Some(i) => Some(gitlab_mr_pr_status(&mrs[i], local_head)),
        None => None,
    }
}

/// A merge request without conflicts, whose merge status neither waits for
/// nor demands CI, reports the status of its head pipeline whenever it has
/// one; its older `pipeline` field then plays no part.
pub proof fn lemma_head_pipeline_decides(mr: GitLabMrInfo, other: Option<GitLabPipeline>)
    requires
        !mr.has_conflicts,
        opt_view(mr.detailed_merge_status) != Some("conflict"@),
        opt_view(mr.detailed_merge_status) != Some("ci_still_running"@),
        opt_view(mr.detailed_merge_status) != Some("ci_must_pass"@),
        mr.head_pipeline is Some,
    ensures
        mr_status(mr) == gitlab_status(opt_view(mr.head_pipeline->0.status)),
        mr_status(mr) == mr_status(GitLabMrInfo { pipeline: other, ..mr }),
{
}

/// Without a head pipeline, the `pipeline` field decides (no pipeline at
/// all: no CI), under the same merge status conditions.
pub proof fn lemma_pipeline_when_no_head(mr: GitLabMrInfo)
    requires
        !mr.has_conflicts,
        opt_view(mr.detailed_merge_status) != Some("conflict"@),
        opt_view(mr.detailed_merge_status) != Some("ci_still_running"@),
        opt_view(mr.detailed_merge_status) != Some("ci_must_pass"@),
        mr.head_pipeline is None,
    ensures
        mr_status(mr) == (match mr.pipeline {
            Some(p) => gitlab_status(opt_view(p.status)),
            None => CiStatus::NoCI,
        }),
{
}

/// Conflicts are reported whatever the pipelines say.
pub proof fn lemma_conflicts_win(mr: GitLabMrInfo)
    requires
        mr.has_conflicts || opt_view(mr.detailed_merge_status) == Some("conflict"@),
    ensures
        mr_status(mr) == CiStatus::Conflicts,
{
}

} // verus!

//! The status vocabulary of this crate, the records it produces, and the
//! shape of the pull-request nodes the code host returns.
use vstd::prelude::*;

verus! {

/// Pull-request level roll-up of continuous-integration checks.
#[derive(Debug, Clone, Copy, PartialEq, Eq, Structural)]
pub enum CiState {
    Success,
    Failure,
    Running,
    /// No state is known.
    Unknown,
}

/// Where the viewer stands with respect to reviewing a pull request.
#[derive(Debug, Clone, Copy, PartialEq, Eq, Structural)]
pub enum ReviewState {
    Requested,
    Approved,
    /// Neither requested of the viewer nor approved.
    Unknown,
}

/// State of one continuous-integration check.
#[derive(Debug, Clone, Copy, PartialEq, Eq, Structural)]
pub enum CiCheckState {
    Success,
    Failure,
    Running,
    Neutral,
    /// No state is known.
    Unknown,
}

/// An optional text as a sequence of characters.
pub open spec fn opt_text(o: Option<String>) -> Option<Seq<char>> {
    match o {
        Some(s) => Some(s@),
        None => None,
    }
}

/// A list of texts as sequences of characters.
pub open spec fn texts(v: Seq<String>) -> Seq<Seq<char>> {
    v.map_values(|s: String| s@)
}

#[derive(Debug, Clone)]
pub struct CiCheck {
    pub name: String,
    pub state: CiCheckState,
    pub url: Option<String>,
    pub started_at_unix: Option<i64>,
}

/// What a `CiCheck` holds, with texts as character sequences.
pub struct CiCheckModel {
    pub name: Seq<char>,
    pub state: CiCheckState,
    pub url: Option<Seq<char>>,
    pub started_at_unix: Option<i64>,
}

impl View for CiCheck {
    type V = CiCheckModel;

    open spec fn view(&self) -> CiCheckModel {
        CiCheckModel {
            name: self.name@,
            state: self.state,
            url: opt_text(self.url),
            started_at_unix: self.started_at_unix,
        }
    }
}

/// The models of a list of checks.
pub open spec fn check_models(v: Seq<CiCheck>) -> Seq<CiCheckModel> {
    v.map_values(|c: CiCheck| c@)
}

/// Why a pull request cannot be merged.
#[derive(Debug, Clone, Default)]
pub struct MergeBlockers {
    /// The pull request conflicts with its base branch.
    pub has_conflicts: bool,
    /// Approving reviews that branch protection requires.
    pub required_approvals: Option<u32>,
    /// Approving reviews so far.
    pub current_approvals: u32,
    /// Status checks that branch protection requires.
    pub required_checks: Vec<String>,
    /// Required checks that are failing or missing.
    pub failing_required_checks: Vec<String>,
    /// The base branch has moved ahead of the pull request.
    pub is_behind_base: bool,
}

/// What a `MergeBlockers` holds, with texts as character sequences.
pub struct MergeBlockersModel {
    pub has_conflicts: bool,
    pub required_approvals: Option<u32>,
    pub current_approvals: u32,
    pub required_checks: Seq<Seq<char>>,
    pub failing_required_checks: Seq<Seq<char>>,
    pub is_behind_base: bool,
}

impl View for MergeBlockers {
    type V = MergeBlockersModel;

    open spec fn view(&self) -> MergeBlockersModel {
        MergeBlockersModel {
            has_conflicts: self.has_conflicts,
            required_approvals: self.required_approvals,
            current_approvals: self.current_approvals,
            required_checks: texts(self.required_checks@),
            failing_required_checks: texts(self.failing_required_checks@),
            is_behind_base: self.is_behind_base,
        }
    }
}

/// Nothing stands in the way of merging.
pub open spec fn blockers_clear(b: MergeBlockersModel) -> bool {
    &&& !b.has_conflicts
    &&& !b.is_behind_base
    &&& b.failing_required_checks.len() == 0
    &&& (b.required_approvals matches Some(r) ==> b.current_approvals >= r)
}

impl MergeBlockers {
    /// True when there is no merge blocker: no conflict, not behind the base
    /// branch, no failing required check, and enough approvals if any are
    /// required.
    pub fn is_clear(&self) -> (r: bool)
        ensures
            r == blockers_clear(self@),
    {
        !self.has_conflicts && !self.is_behind_base && self.failing_required_checks.len() == 0
            && match self.required_approvals {
            Some(req) => self.current_approvals >= req,
            None => true,
        }
    }
}

/// One entry of a commit's status roll-up: a check run or a status context.
#[derive(Debug, Clone)]
pub struct StatusContextNode {
    /// `CheckRun` or `StatusContext`.
    pub typename: Option<String>,
    /// Name of a check run.
    pub name: Option<String>,
    /// Conclusion of a check run; absent while it runs.
    pub conclusion: Option<String>,
    /// Link to a check run's details.
    pub details_url: Option<String>,
    /// Start time of a check run.
    pub started_at: Option<String>,
    /// Name of a status context.
    pub context: Option<String>,
    /// State of a status context.
    pub state: Option<String>,
    /// Link of a status context.
    pub target_url: Option<String>,
}

#[derive(Debug, Clone)]
pub struct RepoOwner {
    pub login: String,
}

#[derive(Debug, Clone)]
pub struct Repository {
    pub name: String,
    pub owner: RepoOwner,
}

#[derive(Debug, Clone)]
pub struct Author {
    pub login: String,
}

#[derive(Debug, Clone)]
pub struct RequestedReviewer {
    pub typename: Option<String>,
    pub login: Option<String>,
}

#[derive(Debug, Clone)]
pub struct ReviewRequestNode {
    pub requested_reviewer: Option<RequestedReviewer>,
}

#[derive(Debug, Clone)]
pub struct ReviewRequestConnection {
    pub nodes: Option<Vec<ReviewRequestNode>>,
}

#[derive(Debug, Clone)]
pub struct StatusContexts {
    pub nodes: Option<Vec<StatusContextNode>>,
}

#[derive(Debug, Clone)]
pub struct StatusCheckRollup {
    pub state: Option<String>,
    pub contexts: Option<StatusContexts>,
}

#[derive(Debug, Clone)]
pub struct CommitInner {
    pub status_check_rollup: Option<StatusCheckRollup>,
}

#[derive(Debug, Clone)]
pub struct CommitNode {
    pub commit: Option<CommitInner>,
}

#[derive(Debug, Clone)]
pub struct Commits {
    pub nodes: Option<Vec<CommitNode>>,
}

#[derive(Debug, Clone)]
pub struct ReviewsConnection {
    pub total_count: Option<i32>,
}

#[derive(Debug, Clone)]
pub struct BranchProtectionRule {
    pub required_approving_review_count: Option<i32>,
    pub required_status_check_contexts: Option<Vec<String>>,
}

#[derive(Debug, Clone)]
pub struct BaseRef {
    pub branch_protection_rule: Option<BranchProtectionRule>,
}

/// A pull request as the code host returns it.
#[derive(Debug, Clone)]
pub struct PullRequestNode {
    pub number: i64,
    pub title: String,
    pub url: String,
    pub updated_at: String,
    pub repository: Repository,
    pub author: Option<Author>,
    pub review_requests: Option<ReviewRequestConnection>,
    pub head_ref_oid: Option<String>,
    pub review_decision: Option<String>,
    pub is_draft: Option<bool>,
    pub mergeable: Option<String>,
    pub merge_state_status: Option<String>,
    pub commits: Option<Commits>,
    pub reviews: Option<ReviewsConnection>,
    pub base_ref: Option<BaseRef>,
}

/// A search result node: a pull request, or another kind with its fields absent.
#[derive(Debug, Clone)]
pub struct SearchNode {
    pub typename: Option<String>,
    pub number: Option<i64>,
    pub title: Option<String>,
    pub url: Option<String>,
    pub updated_at: Option<String>,
    pub repository: Option<Repository>,
    pub author: Option<Author>,
    pub review_requests: Option<ReviewRequestConnection>,
    pub head_ref_oid: Option<String>,
    pub review_decision: Option<String>,
    pub is_draft: Option<bool>,
    pub mergeable: Option<String>,
    pub merge_state_status: Option<String>,
    pub commits: Option<Commits>,
    pub reviews: Option<ReviewsConnection>,
    pub base_ref: Option<BaseRef>,
}

/// Pagination state of one page of results.
#[derive(Debug, Clone)]
pub struct PageInfo {
    pub has_next_page: bool,
    pub end_cursor: Option<String>,
}

/// A normalized pull-request record.
#[derive(Debug, Clone)]
pub struct Pr {
    /// `owner/repo#number`
    pub pr_key: String,
    pub owner: String,
    pub repo: String,
    pub number: i64,
    pub author: String,
    pub title: String,
    pub url: String,
    pub updated_at_unix: i64,
    pub last_commit_sha: Option<String>,
    pub ci_state: CiState,
    pub ci_checks: Vec<CiCheck>,
    pub review_state: ReviewState,
    pub is_draft: bool,
    /// e.g. `MERGEABLE`, `CONFLICTING`, `UNKNOWN`
    pub mergeable: Option<String>,
    /// e.g. `CLEAN`, `BLOCKED`, `BEHIND`
    pub merge_state_status: Option<String>,
    /// The pull request was authored by the viewer.
    pub is_viewer_author: bool,
    pub merge_blockers: Option<MergeBlockers>,
}

} // verus!

use koto::derive::{
    compute_merge_blockers, derive_ci_state, is_review_requested_by_user, map_ci_checks,
    map_review_state, rollup_state, to_pr,
};
use koto::model::{
    Author, BaseRef, BranchProtectionRule, CiCheck, CiCheckState, CiState, CommitInner,
    CommitNode, Commits, MergeBlockers, PullRequestNode, RepoOwner, Repository,
    RequestedReviewer, ReviewRequestConnection, ReviewRequestNode, ReviewState,
    ReviewsConnection, SearchNode, StatusCheckRollup, StatusContextNode, StatusContexts,
};

fn node(owner: &str, repo: &str, number: i64, updated_at: &str) -> PullRequestNode {
    PullRequestNode {
        number,
        title: format!("Change {number}"),
        url: format!("https://example.test/{owner}/{repo}/pull/{number}"),
        updated_at: updated_at.to_string(),
        repository: Repository {
            name: repo.to_string(),
            owner: RepoOwner { login: owner.to_string() },
        },
        author: Some(Author { login: "alice".to_string() }),
        review_requests: None,
        head_ref_oid: Some("abc123".to_string()),
        review_decision: None,
        is_draft: None,
        mergeable: None,
        merge_state_status: None,
        commits: None,
        reviews: None,
        base_ref: None,
    }
}

fn with_rollup(mut n: PullRequestNode, state: Option<&str>, ctxs: Vec<StatusContextNode>) -> PullRequestNode {
    n.commits = Some(Commits {
        nodes: Some(vec![CommitNode {
            commit: Some(CommitInner {
                status_check_rollup: Some(StatusCheckRollup {
                    state: state.map(|s| s.to_string()),
                    contexts: Some(StatusContexts { nodes: Some(ctxs) }),
                }),
            }),
        }]),
    });
    n
}

fn check_run(name: Option<&str>, conclusion: Option<&str>) -> StatusContextNode {
    StatusContextNode {
        typename: Some("CheckRun".to_string()),
        name: name.map(|s| s.to_string()),
        conclusion: conclusion.map(|s| s.to_string()),
        details_url: None,
        started_at: None,
        context: None,
        state: None,
        target_url: None,
    }
}

fn status_context(context: Option<&str>, state: Option<&str>) -> StatusContextNode {
    StatusContextNode {
        typename: Some("StatusContext".to_string()),
        name: None,
        conclusion: None,
        details_url: None,
        started_at: None,
        context: context.map(|s| s.to_string()),
        state: state.map(|s| s.to_string()),
        target_url: Some("https://ci.test/status".to_string()),
    }
}

fn check(name: &str, state: CiCheckState) -> CiCheck {
    CiCheck { name: name.to_string(), state, url: None, started_at_unix: None }
}

fn reviewer(typename: &str, login: Option<&str>) -> ReviewRequestNode {
    ReviewRequestNode {
        requested_reviewer: Some(RequestedReviewer {
            typename: Some(typename.to_string()),
            login: login.map(|s| s.to_string()),
        }),
    }
}

#[test]
fn running_check_wins_in_any_order() {
    let a = vec![check("a", CiCheckState::Running), check("b", CiCheckState::Success)];
    let b = vec![check("b", CiCheckState::Success), check("a", CiCheckState::Running)];
    assert_eq!(derive_ci_state(Some("SUCCESS"), &a), CiState::Running);
    assert_eq!(derive_ci_state(Some("SUCCESS"), &b), CiState::Running);
}

#[test]
fn failure_beats_success() {
    let c = vec![check("a", CiCheckState::Success), check("b", CiCheckState::Failure)];
    assert_eq!(derive_ci_state(None, &c), CiState::Failure);
    let s = vec![check("a", CiCheckState::Success), check("b", CiCheckState::Neutral)];
    assert_eq!(derive_ci_state(Some("FAILURE"), &s), CiState::Success);
}

#[test]
fn rollup_used_only_without_checks() {
    assert_eq!(derive_ci_state(Some("SUCCESS"), &[]), CiState::Success);
    assert_eq!(derive_ci_state(Some("FAILURE"), &[]), CiState::Failure);
    assert_eq!(derive_ci_state(Some("PENDING"), &[]), CiState::Running);
    assert_eq!(derive_ci_state(Some("IN_PROGRESS"), &[]), CiState::Running);
    assert_eq!(derive_ci_state(Some("ERROR"), &[]), CiState::Unknown);
    assert_eq!(derive_ci_state(None, &[]), CiState::Unknown);
    let neutral = vec![check("a", CiCheckState::Neutral)];
    assert_eq!(derive_ci_state(Some("SUCCESS"), &neutral), CiState::Unknown);
}

#[test]
fn check_runs_are_classified_by_conclusion() {
    let mut with_url = check_run(None, Some("CANCELLED"));
    with_url.target_url = Some("https://ci.test/t".to_string());
    with_url.started_at = Some("2024-03-15T10:30:00Z".to_string());
    let n = with_rollup(
        node("octo", "repo", 1, "2024-03-15T10:30:00Z"),
        Some("FAILURE"),
        vec![
            check_run(Some("build"), Some("SUCCESS")),
            check_run(Some("lint"), Some("FAILURE")),
            with_url,
            check_run(Some("docs"), Some("NEUTRAL")),
            check_run(Some("bench"), Some("SKIPPED")),
            check_run(Some("slow"), None),
            check_run(Some("odd"), Some("STALE")),
        ],
    );
    let checks = map_ci_checks(&n);
    let states: Vec<CiCheckState> = checks.iter().map(|c| c.state).collect();
    assert_eq!(
        states,
        vec![
            CiCheckState::Success,
            CiCheckState::Failure,
            CiCheckState::Failure,
            CiCheckState::Neutral,
            CiCheckState::Neutral,
            CiCheckState::Running,
            CiCheckState::Running,
        ]
    );
    assert_eq!(checks[2].name, "check");
    assert_eq!(checks[2].url.as_deref(), Some("https://ci.test/t"));
    assert_eq!(checks[2].started_at_unix, Some(1_710_498_600));
    assert_eq!(checks[0].started_at_unix, None);
    assert_eq!(rollup_state(&n), Some("FAILURE"));
}

#[test]
fn status_contexts_are_classified_by_state() {
    let mut other = check_run(Some("x"), Some("SUCCESS"));
    other.typename = Some("Unknown".to_string());
    let n = with_rollup(
        node("octo", "repo", 1, "2024-03-15T10:30:00Z"),
        None,
        vec![
            status_context(Some("ci/a"), Some("SUCCESS")),
            status_context(Some("ci/b"), Some("FAILURE")),
            status_context(Some("ci/c"), Some("PENDING")),
            status_context(None, Some("ERROR")),
            other,
        ],
    );
    let checks = map_ci_checks(&n);
    assert_eq!(checks.len(), 4);
    assert_eq!(checks[0].state, CiCheckState::Success);
    assert_eq!(checks[1].state, CiCheckState::Failure);
    assert_eq!(checks[2].state, CiCheckState::Running);
    assert_eq!(checks[3].state, CiCheckState::Unknown);
    assert_eq!(checks[3].name, "status");
    assert_eq!(checks[0].url.as_deref(), Some("https://ci.test/status"));
    assert_eq!(rollup_state(&n), None);
    assert!(map_ci_checks(&node("o", "r", 1, "x")).is_empty());
}

#[test]
fn requested_review_beats_approval() {
    let mut n = node("octo", "repo", 7, "2024-03-15T10:30:00Z");
    n.review_decision = Some("APPROVED".to_string());
    n.review_requests = Some(ReviewRequestConnection {
        nodes: Some(vec![reviewer("Team", None), reviewer("User", Some("me"))]),
    });
    let requested = is_review_requested_by_user(&n, "me");
    assert!(requested);
    assert_eq!(map_review_state(&n, requested), ReviewState::Requested);
    assert_eq!(map_review_state(&n, false), ReviewState::Approved);
    let pr = to_pr(n, requested, "me").unwrap();
    assert_eq!(pr.review_state, ReviewState::Requested);
}

#[test]
fn team_or_other_user_request_does_not_count() {
    let mut n = node("octo", "repo", 7, "2024-03-15T10:30:00Z");
    n.review_requests = Some(ReviewRequestConnection {
        nodes: Some(vec![
            reviewer("Team", Some("me")),
            reviewer("User", Some("someone")),
            ReviewRequestNode { requested_reviewer: None },
        ]),
    });
    assert!(!is_review_requested_by_user(&n, "me"));
    assert_eq!(map_review_state(&n, false), ReviewState::Unknown);
}

#[test]
fn merge_blocker_clear_check() {
    let mut b = MergeBlockers {
        required_approvals: Some(2),
        current_approvals: 2,
        ..MergeBlockers::default()
    };
    assert!(b.is_clear());
    b.current_approvals = 1;
    assert!(!b.is_clear());
    let no_requirement = MergeBlockers { current_approvals: 0, ..MergeBlockers::default() };
    assert!(no_requirement.is_clear());
    let conflicted = MergeBlockers { has_conflicts: true, ..MergeBlockers::default() };
    assert!(!conflicted.is_clear());
    let behind = MergeBlockers { is_behind_base: true, ..MergeBlockers::default() };
    assert!(!behind.is_clear());
    let failing = MergeBlockers {
        failing_required_checks: vec!["lint".to_string()],
        ..MergeBlockers::default()
    };
    assert!(!failing.is_clear());
}

#[test]
fn merge_blockers_from_node() {
    let mut n = node("octo", "repo", 3, "2024-03-15T10:30:00Z");
    n.mergeable = Some("conflicting".to_string());
    n.merge_state_status = Some("Behind".to_string());
    n.reviews = Some(ReviewsConnection { total_count: Some(1) });
    n.base_ref = Some(BaseRef {
        branch_protection_rule: Some(BranchProtectionRule {
            required_approving_review_count: Some(2),
            required_status_check_contexts: Some(vec![
                "build".to_string(),
                "lint".to_string(),
                "test".to_string(),
            ]),
        }),
    });
    let checks = vec![check("build", CiCheckState::Success), check("lint", CiCheckState::Failure)];
    let b = compute_merge_blockers(&n, &checks);
    assert!(b.has_conflicts);
    assert!(b.is_behind_base);
    assert_eq!(b.required_approvals, Some(2));
    assert_eq!(b.current_approvals, 1);
    assert_eq!(b.required_checks, vec!["build", "lint", "test"]);
    assert_eq!(b.failing_required_checks, vec!["lint", "test"]);
    assert!(!b.is_clear());

    let plain = node("octo", "repo", 4, "2024-03-15T10:30:00Z");
    let c = compute_merge_blockers(&plain, &[]);
    assert!(!c.has_conflicts && !c.is_behind_base);
    assert_eq!(c.required_approvals, None);
    assert_eq!(c.current_approvals, 0);
    assert!(c.required_checks.is_empty() && c.failing_required_checks.is_empty());
    assert!(c.is_clear());
}

#[test]
fn record_from_node() {
    let mut n = node("octo", "repo", 42, "2024-03-15T10:30:00.5Z");
    n.is_draft = Some(true);
    n.mergeable = Some("MERGEABLE".to_string());
    let pr = to_pr(n, false, "alice").unwrap();
    assert_eq!(pr.pr_key, "octo/repo#42");
    assert_eq!(pr.owner, "octo");
    assert_eq!(pr.repo, "repo");
    assert_eq!(pr.number, 42);
    assert_eq!(pr.author, "alice");
    assert_eq!(pr.title, "Change 42");
    assert_eq!(pr.updated_at_unix, 1_710_498_600);
    assert_eq!(pr.last_commit_sha.as_deref(), Some("abc123"));
    assert_eq!(pr.ci_state, CiState::Unknown);
    assert_eq!(pr.review_state, ReviewState::Unknown);
    assert!(pr.is_draft);
    assert!(pr.is_viewer_author);
    assert!(pr.merge_blockers.is_none());
    assert_eq!(pr.mergeable.as_deref(), Some("MERGEABLE"));
}

#[test]
fn record_defaults_and_blockers() {
    let mut n = node("octo", "repo", 5, "2024-03-15T10:30:00Z");
    n.author = None;
    n.mergeable = Some("CONFLICTING".to_string());
    let pr = to_pr(n, true, "alice").unwrap();
    assert_eq!(pr.author, "unknown");
    assert!(!pr.is_viewer_author);
    assert!(!pr.is_draft);
    assert_eq!(pr.review_state, ReviewState::Requested);
    assert!(pr.merge_blockers.unwrap().has_conflicts);
}

#[test]
fn record_needs_parsable_update_time() {
    assert!(to_pr(node("octo", "repo", 5, "yesterday"), false, "me").is_none());
}

fn search_node(typename: &str, title: Option<&str>) -> SearchNode {
    SearchNode {
        typename: Some(typename.to_string()),
        number: Some(9),
        title: title.map(|s| s.to_string()),
        url: Some("https://example.test/pull/9".to_string()),
        updated_at: Some("2024-03-15T10:30:00Z".to_string()),
        repository: Some(Repository {
            name: "repo".to_string(),
            owner: RepoOwner { login: "octo".to_string() },
        }),
        author: None,
        review_requests: None,
        head_ref_oid: None,
        review_decision: Some("APPROVED".to_string()),
        is_draft: Some(false),
        mergeable: None,
        merge_state_status: None,
        commits: None,
        reviews: None,
        base_ref: None,
    }
}

#[test]
fn search_nodes_become_pull_requests() {
    let pr = search_node("PullRequest", Some("Fix")).into_pull_request().unwrap();
    assert_eq!(pr.number, 9);
    assert_eq!(pr.title, "Fix");
    assert_eq!(pr.review_decision.as_deref(), Some("APPROVED"));
    assert!(search_node("Issue", Some("Fix")).into_pull_request().is_none());
    assert!(search_node("PullRequest", None).into_pull_request().is_none());
}

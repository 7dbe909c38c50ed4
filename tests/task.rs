use koto::derive::to_pr;
use koto::model::{Author, Pr, PullRequestNode, RepoOwner, Repository};
use koto::task::{classify_pr_task, is_renovate_author, pr_external_key, pr_task_title};
use koto::todo::Priority;

fn record(author: &str) -> Pr {
    let n = PullRequestNode {
        number: 42,
        title: "Bump serde".to_string(),
        url: "https://example.test/octo/repo/pull/42".to_string(),
        updated_at: "2024-03-15T10:30:00Z".to_string(),
        repository: Repository {
            name: "repo".to_string(),
            owner: RepoOwner { login: "octo".to_string() },
        },
        author: Some(Author { login: author.to_string() }),
        review_requests: None,
        head_ref_oid: None,
        review_decision: None,
        is_draft: None,
        mergeable: None,
        merge_state_status: None,
        commits: None,
        reviews: None,
        base_ref: None,
    };
    to_pr(n, true, "me").unwrap()
}

#[test]
fn task_title_and_key() {
    let pr = record("alice");
    assert_eq!(pr_task_title(&pr), "octo/repo#42 by alice: Bump serde");
    assert_eq!(pr_external_key(&pr), "github_pr:octo/repo#42");
}

#[test]
fn dependency_bot_tasks_are_medium_and_later() {
    assert!(is_renovate_author("renovate"));
    assert!(is_renovate_author("Renovate-Bot"));
    assert!(is_renovate_author("RENOVATE[bot]"));
    assert!(!is_renovate_author("renovate2"));
    assert!(!is_renovate_author("dependabot"));
    assert_eq!(classify_pr_task(&record("renovate[bot]")), (Priority::Medium, 30));
    assert_eq!(classify_pr_task(&record("alice")), (Priority::High, 0));
}

use koto::aggregate::{review_search_query, should_add_todo, AttentionRun, PageRequest, Phase};
use koto::derive::to_pr;
use koto::merge::{merge_into, PrIndex};
use koto::model::{
    Author, PageInfo, PullRequestNode, RepoOwner, Repository, RequestedReviewer,
    ReviewRequestConnection, ReviewRequestNode, ReviewState, SearchNode,
};
use koto::paginate::{next_cursor, scan_authored_page, scan_search_page, stops_early};
use koto::session::GithubConfig;

const DAY: i64 = 86_400;
/// 2024-03-15T00:00:00Z
const DAY_N: i64 = 1_710_460_800;

fn stamp(ts: i64) -> String {
    let (y, m, d) = koto::calendar::unix_to_ymd(ts).unwrap();
    let s = ts % DAY;
    format!("{y:04}-{m:02}-{d:02}T{:02}:{:02}:{:02}Z", s / 3600, s % 3600 / 60, s % 60)
}

fn node(number: i64, updated: i64) -> PullRequestNode {
    PullRequestNode {
        number,
        title: format!("Change {number}"),
        url: format!("https://example.test/octo/repo/pull/{number}"),
        updated_at: stamp(updated),
        repository: Repository {
            name: "repo".to_string(),
            owner: RepoOwner { login: "octo".to_string() },
        },
        author: Some(Author { login: "me".to_string() }),
        review_requests: None,
        head_ref_oid: None,
        review_decision: None,
        is_draft: None,
        mergeable: None,
        merge_state_status: None,
        commits: None,
        reviews: None,
        base_ref: None,
    }
}

fn search(number: i64, updated: i64, reviewer: Option<(&str, &str)>) -> SearchNode {
    let n = node(number, updated);
    SearchNode {
        typename: Some("PullRequest".to_string()),
        number: Some(n.number),
        title: Some(n.title),
        url: Some(n.url),
        updated_at: Some(n.updated_at),
        repository: Some(n.repository),
        author: Some(Author { login: "bob".to_string() }),
        review_requests: reviewer.map(|(kind, login)| ReviewRequestConnection {
            nodes: Some(vec![ReviewRequestNode {
                requested_reviewer: Some(RequestedReviewer {
                    typename: Some(kind.to_string()),
                    login: Some(login.to_string()),
                }),
            }]),
        }),
        head_ref_oid: None,
        review_decision: None,
        is_draft: None,
        mergeable: None,
        merge_state_status: None,
        commits: None,
        reviews: None,
        base_ref: None,
    }
}

fn more(cursor: &str) -> PageInfo {
    PageInfo { has_next_page: true, end_cursor: Some(cursor.to_string()) }
}

#[test]
fn old_page_ends_listing_despite_next_page() {
    let mut run = AttentionRun::new(DAY_N, false);
    assert!(matches!(run.next_request(), Some(PageRequest::Authored { cursor: None })));
    run.on_authored_page(
        "me".to_string(),
        Some(vec![node(1, DAY_N + 3600), node(2, DAY_N - 5 * DAY)]),
        &more("c2"),
    );
    assert_eq!(run.phase, Phase::ReviewRequested);
    assert_eq!(run.authored.len(), 1);
    assert_eq!(run.authored[0].number, 1);
    match run.next_request() {
        Some(PageRequest::Search { query, cursor }) => {
            assert_eq!(query, "is:pr is:open review-requested:@me sort:updated-desc updated:>=2024-03-15");
            assert_eq!(cursor, None);
        }
        _ => panic!("expected the search listing"),
    }
    run.on_search_page(Some(vec![search(3, DAY_N - 5 * DAY, Some(("User", "me")))]), &more("s2"));
    assert_eq!(run.phase, Phase::Done);
    assert!(run.next_request().is_none());
    assert!(run.requested.is_empty());
}

#[test]
fn fresh_page_continues_with_cursor() {
    let mut run = AttentionRun::new(DAY_N, false);
    run.on_authored_page("me".to_string(), Some(vec![node(1, DAY_N + 10)]), &more("c2"));
    assert_eq!(run.phase, Phase::Authored);
    assert!(matches!(run.next_request(), Some(PageRequest::Authored { cursor: Some(c) }) if c == "c2"));
    // The login of the first page stays.
    run.on_authored_page("other".to_string(), None, &PageInfo { has_next_page: false, end_cursor: None });
    assert_eq!(run.viewer_login.as_deref(), Some("me"));
    assert_eq!(run.phase, Phase::ReviewRequested);
}

#[test]
fn missing_cursor_ends_listing() {
    assert_eq!(next_cursor(false, &PageInfo { has_next_page: true, end_cursor: None }), None);
    assert_eq!(next_cursor(false, &more("")), None);
    assert_eq!(next_cursor(false, &more("x")), Some("x".to_string()));
    assert_eq!(next_cursor(true, &more("x")), None);
    assert_eq!(next_cursor(false, &PageInfo { has_next_page: false, end_cursor: Some("x".to_string()) }), None);
}

#[test]
fn page_scan_keeps_fresh_nodes_and_finds_oldest() {
    let mut bad = node(3, DAY_N);
    bad.updated_at = "not a time".to_string();
    let scan = scan_authored_page(vec![node(1, DAY_N + 5), bad, node(2, DAY_N - 1)], DAY_N);
    assert_eq!(scan.kept.len(), 1);
    assert_eq!(scan.kept[0].number, 1);
    assert_eq!(scan.min_updated, Some(DAY_N - 1));
    assert!(stops_early(scan.min_updated, DAY_N));
    assert!(!stops_early(Some(DAY_N), DAY_N));
    assert!(!stops_early(None, DAY_N));
    let empty = scan_authored_page(Vec::new(), DAY_N);
    assert!(empty.kept.is_empty() && empty.min_updated.is_none());
}

#[test]
fn search_scan_filters_on_individual_requests() {
    let mut issue = search(4, DAY_N + 1, None);
    issue.typename = Some("Issue".to_string());
    let page = || {
        vec![
            search(1, DAY_N + 1, Some(("User", "me"))),
            search(2, DAY_N + 1, Some(("Team", "me"))),
            search(3, DAY_N - 1, Some(("User", "me"))),
        ]
    };
    let mine = scan_search_page(page(), DAY_N, false, "me");
    assert_eq!(mine.kept.iter().map(|n| n.number).collect::<Vec<_>>(), vec![1]);
    assert_eq!(mine.min_updated, Some(DAY_N - 1));
    let team = scan_search_page(page(), DAY_N, true, "me");
    assert_eq!(team.kept.iter().map(|n| n.number).collect::<Vec<_>>(), vec![1, 2]);
    let none = scan_search_page(vec![issue], DAY_N, true, "me");
    assert!(none.kept.is_empty() && none.min_updated.is_none());
}

#[test]
fn unknown_viewer_matches_no_individual_request() {
    let mut run = AttentionRun::new(DAY_N, false);
    run.on_authored_page("ignored".to_string(), None, &PageInfo { has_next_page: false, end_cursor: None });
    let mut fresh = AttentionRun::new(DAY_N, false);
    fresh.phase = Phase::ReviewRequested;
    fresh.on_search_page(Some(vec![search(1, DAY_N + 1, Some(("User", "me")))]), &PageInfo { has_next_page: false, end_cursor: None });
    assert!(fresh.requested.is_empty());
    assert_eq!(fresh.phase, Phase::Done);
}

#[test]
fn search_query_embeds_cutoff_date() {
    assert_eq!(
        review_search_query(1_710_498_600),
        "is:pr is:open review-requested:@me sort:updated-desc updated:>=2024-03-15"
    );
    assert_eq!(
        review_search_query(-5),
        "is:pr is:open review-requested:@me sort:updated-desc updated:>=1970-01-01"
    );
    assert_eq!(
        review_search_query(86_400 * 40),
        "is:pr is:open review-requested:@me sort:updated-desc updated:>=1970-02-10"
    );
}

#[test]
fn authored_flag_survives_later_record() {
    let mut index = PrIndex::new();
    let mut first = to_pr(node(7, DAY_N), false, "someone").unwrap();
    first.is_viewer_author = true;
    let mut second = to_pr(node(7, DAY_N + 60), true, "someone").unwrap();
    second.title = "Later title".to_string();
    assert!(!second.is_viewer_author);
    merge_into(&mut index, first);
    merge_into(&mut index, second);
    merge_into(&mut index, to_pr(node(8, DAY_N), false, "someone").unwrap());
    let mut all = index.into_values();
    all.sort_by_key(|p| p.number);
    assert_eq!(all.len(), 2);
    assert_eq!(all[0].pr_key, "octo/repo#7");
    assert!(all[0].is_viewer_author);
    assert_eq!(all[0].title, "Later title");
    assert_eq!(all[0].review_state, ReviewState::Requested);
    assert!(!all[1].is_viewer_author);
}

#[test]
fn run_merges_both_listings() {
    let mut run = AttentionRun::new(DAY_N, false);
    let mut own = node(7, DAY_N + 10);
    own.author = Some(Author { login: "me".to_string() });
    run.on_authored_page("me".to_string(), Some(vec![own, node(9, DAY_N + 20)]), &PageInfo { has_next_page: false, end_cursor: None });
    run.on_search_page(
        Some(vec![search(7, DAY_N + 10, Some(("User", "me"))), search(11, DAY_N + 5, Some(("User", "me")))]),
        &PageInfo { has_next_page: false, end_cursor: None },
    );
    let mut prs = run.finish();
    prs.sort_by_key(|p| p.number);
    assert_eq!(prs.iter().map(|p| p.number).collect::<Vec<_>>(), vec![7, 9, 11]);
    assert!(prs[0].is_viewer_author);
    assert_eq!(prs[0].review_state, ReviewState::Requested);
    assert_eq!(prs[0].author, "bob");
    assert!(prs[1].is_viewer_author);
    assert_eq!(prs[1].review_state, ReviewState::Unknown);
    assert!(!prs[2].is_viewer_author);
    assert!(should_add_todo(&prs[0]));
    assert!(!should_add_todo(&prs[1]));
    assert!(should_add_todo(&prs[2]));
}

#[test]
fn sync_cutoff_counts_days_back() {
    let cfg = GithubConfig { token: "t".to_string(), api_base: None, days: 30, include_team_requests: false };
    assert_eq!(cfg.cutoff_ts(1_710_498_600), 1_710_498_600 - 30 * DAY);
    let far = GithubConfig { days: u64::MAX, ..cfg };
    assert_eq!(far.cutoff_ts(0), -i64::MAX);
    assert_eq!(far.cutoff_ts(-10), i64::MIN);
}

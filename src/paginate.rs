//! Per-page decisions of the two paginated listings: which nodes to keep,
//! the oldest update time seen, and whether to ask for another page.
use crate::derive::{is_review_requested_by_user, requested_of_user, search_node_pr};
use crate::model::{PageInfo, PullRequestNode, SearchNode};
use crate::timestamp::{int_of, parse_github_datetime_to_unix, timestamp_spec};
use vstd::prelude::*;

verus! {

/// Results per page.
pub const PAGE_SIZE: i32 = 50;

/// Update time of a node in seconds since the epoch, when it parses.
pub open spec fn node_updated(n: PullRequestNode) -> Option<int> {
    timestamp_spec(n.updated_at@)
}

pub open spec fn min_with(a: Option<int>, u: int) -> Option<int> {
    match a {
        Some(m) => Some(if u < m {
            u
        } else {
            m
        }),
        None => Some(u),
    }
}

/// The oldest update time among nodes whose update time parses.
pub open spec fn min_updated(nodes: Seq<PullRequestNode>) -> Option<int>
    decreases nodes.len(),
{
    if nodes.len() == 0 {
        None
    } else {
        let prev = min_updated(nodes.drop_last());
        match node_updated(nodes.last()) {
            Some(u) => min_with(prev, u),
            None => prev,
        }
    }
}

/// The nodes, in order, whose update time parses and is not before `cutoff`.
pub open spec fn fresh_nodes(nodes: Seq<PullRequestNode>, cutoff: int) -> Seq<PullRequestNode>
    decreases nodes.len(),
{
    if nodes.len() == 0 {
        Seq::empty()
    } else {
        let prev = fresh_nodes(nodes.drop_last(), cutoff);
        match node_updated(nodes.last()) {
            Some(u) => if u >= cutoff {
                prev.push(nodes.last())
            } else {
                prev
            },
            None => prev,
        }
    }
}

/// The pull requests among search results, in order.
pub open spec fn search_prs(nodes: Seq<SearchNode>) -> Seq<PullRequestNode>
    decreases nodes.len(),
{
    if nodes.len() == 0 {
        Seq::empty()
    } else {
        let prev = search_prs(nodes.drop_last());
        match search_node_pr(nodes.last()) {
            Some(p) => prev.push(p),
            None => prev,
        }
    }
}

/// A review-requested pull request is kept unless it is known to be older
/// than `cutoff`, and only if team requests are included or it names
/// `viewer` by name among those asked to review.
pub open spec fn keeps_requested(
    p: PullRequestNode,
    cutoff: int,
    include_team: bool,
    viewer: Seq<char>,
) -> bool {
    &&& (node_updated(p) matches Some(u) ==> u >= cutoff)
    &&& (include_team || requested_of_user(p, viewer))
}

/// The pull requests of a search page that are kept, in order.
pub open spec fn requested_kept(
    prs: Seq<PullRequestNode>,
    cutoff: int,
    include_team: bool,
    viewer: Seq<char>,
) -> Seq<PullRequestNode>
    decreases prs.len(),
{
    if prs.len() == 0 {
        Seq::empty()
    } else {
        let prev = requested_kept(prs.drop_last(), cutoff, include_team, viewer);
        if keeps_requested(prs.last(), cutoff, include_team, viewer) {
            prev.push(prs.last())
        } else {
            prev
        }
    }
}

/// A page whose oldest node is older than the cutoff ends the listing.
pub open spec fn page_stops(min: Option<int>, cutoff: int) -> bool {
    min matches Some(m) && m < cutoff
}

/// The cursor of the next page to ask for; `None` ends the listing.
pub open spec fn continuation(stop_early: bool, page: PageInfo) -> Option<String> {
    if stop_early || !page.has_next_page {
        None
    } else {
        match page.end_cursor {
            Some(c) => if c@.len() > 0 {
                Some(c)
            } else {
                None
            },
            None => None,
        }
    }
}

/// What one page of a listing yields.
pub struct PageScan {
    /// The nodes kept, in page order.
    pub kept: Vec<PullRequestNode>,
    /// The oldest update time seen on the page.
    pub min_updated: Option<i64>,
}

/// Keeps the authored pull requests updated at or after `cutoff_ts` and
/// finds the oldest update time on the page. A node whose update time does
/// not parse is dropped and does not count towards the oldest.
pub fn scan_authored_page(nodes: Vec<PullRequestNode>, cutoff_ts: i64) -> (r: PageScan)
    ensures
        r.kept@ == fresh_nodes(nodes@, cutoff_ts as int),
        int_of(r.min_updated) == min_updated(nodes@),
{
    let ghost all = nodes@;
    let mut rest = nodes;
    let mut kept: Vec<PullRequestNode> = Vec::new();
    let mut min: Option<i64> = None;
    let ghost mut i: int = 0;
    assert(all.subrange(0, 0) =~= Seq::<PullRequestNode>::empty());
    assert(all.subrange(0, all.len() as int) =~= all);
    while rest.len() > 0
        invariant
            0 <= i <= all.len(),
            rest@ == all.subrange(i, all.len() as int),
            kept@ == fresh_nodes(all.subrange(0, i), cutoff_ts as int),
            int_of(min) == min_updated(all.subrange(0, i)),
        decreases rest@.len(),
    {
        let n = rest.remove(0);
        proof {
            assert(n == all[i]);
            assert(all.subrange(0, i + 1).drop_last() =~= all.subrange(0, i));
            assert(rest@ =~= all.subrange(i + 1, all.len() as int));
        }
        match parse_github_datetime_to_unix(n.updated_at.as_str()) {
            Some(u) => {
                min = match min {
                    Some(m) => Some(if u < m {
                        u
                    } else {
                        m
                    }),
                    None => Some(u),
                };
                if u >= cutoff_ts {
                    kept.push(n);
                }
            },
            None => {},
        }
        proof {
            i = i + 1;
        }
    }
    assert(all.subrange(0, i) =~= all);
    PageScan { kept, min_updated: min }
}

/// Keeps the review-requested pull requests of a search page: nodes that are
/// not pull requests are dropped, as are those updated before `cutoff_ts`;
/// the rest are kept when team requests are included or when they name
/// `viewer_login` by name among those asked to review. Also finds the oldest
/// update time among the pull requests on the page.
pub fn scan_search_page(
    nodes: Vec<SearchNode>,
    cutoff_ts: i64,
    include_team_requests: bool,
    viewer_login: &str,
) -> (r: PageScan)
    ensures
        r.kept@ == requested_kept(
            search_prs(nodes@),
            cutoff_ts as int,
            include_team_requests,
            viewer_login@,
        ),
        int_of(r.min_updated) == min_updated(search_prs(nodes@)),
{
    let ghost all = nodes@;
    let mut rest = nodes;
    let mut kept: Vec<PullRequestNode> = Vec::new();
    let mut min: Option<i64> = None;
    let ghost mut i: int = 0;
    assert(all.subrange(0, 0) =~= Seq::<SearchNode>::empty());
    assert(all.subrange(0, all.len() as int) =~= all);
    while rest.len() > 0
        invariant
            0 <= i <= all.len(),
            rest@ == all.subrange(i, all.len() as int),
            kept@ == requested_kept(
                search_prs(all.subrange(0, i)),
                cutoff_ts as int,
                include_team_requests,
                viewer_login@,
            ),
            int_of(min) == min_updated(search_prs(all.subrange(0, i))),
        decreases rest@.len(),
    {
        let n = rest.remove(0);
        let ghost prs_before = search_prs(all.subrange(0, i));
        proof {
            assert(n == all[i]);
            assert(all.subrange(0, i + 1).drop_last() =~= all.subrange(0, i));
            assert(rest@ =~= all.subrange(i + 1, all.len() as int));
        }
        match n.into_pull_request() {
            Some(pr) => {
                proof {
                    assert(search_prs(all.subrange(0, i + 1)) == prs_before.push(pr));
                    assert(prs_before.push(pr).drop_last() =~= prs_before);
                }
                let mut fresh = true;
                match parse_github_datetime_to_unix(pr.updated_at.as_str()) {
                    Some(u) => {
                        min = match min {
                            Some(m) => Some(if u < m {
                                u
                            } else {
                                m
                            }),
                            None => Some(u),
                        };
                        fresh = u >= cutoff_ts;
                    },
                    None => {},
                }
                if fresh && (include_team_requests || is_review_requested_by_user(
                    &pr,
                    viewer_login,
                )) {
                    kept.push(pr);
                }
            },
            None => {},
        }
        proof {
            i = i + 1;
        }
    }
    assert(all.subrange(0, i) =~= all);
    PageScan { kept, min_updated: min }
}

/// Whether a page with oldest update time `min_updated` ends the listing.
pub fn stops_early(min_updated: Option<i64>, cutoff_ts: i64) -> (r: bool)
    ensures
        r == page_stops(int_of(min_updated), cutoff_ts as int),
{
    match min_updated {
        Some(m) => m < cutoff_ts,
        None => false,
    }
}

/// The cursor of the next page: `None` when the page ended the listing
/// early, when no further page is reported, or when the reported cursor is
/// missing or empty.
pub fn next_cursor(stop_early: bool, page: &PageInfo) -> (r: Option<String>)
    ensures
        r == continuation(stop_early, *page),
{
    if stop_early || !page.has_next_page {
        return None;
    }
    match &page.end_cursor {
        Some(c) => if c.as_str().is_empty() {
            None
        } else {
            Some(c.clone())
        },
        None => None,
    }
}

/// A page holding a node older than the cutoff is the last one asked for,
/// whatever the code host says about further pages.
pub proof fn lemma_old_page_is_last(nodes: Seq<PullRequestNode>, cutoff: int, page: PageInfo)
    requires
        min_updated(nodes) matches Some(m) && m < cutoff,
    ensures
        continuation(page_stops(min_updated(nodes), cutoff), page) is None,
{
}

/// The oldest update time of a page is that of one of its nodes and is not
/// after any other.
pub proof fn lemma_min_updated_is_oldest(nodes: Seq<PullRequestNode>)
    ensures
        min_updated(nodes) matches Some(m) ==> {
            &&& exists|i: int| 0 <= i < nodes.len() && node_updated(nodes[i]) == Some(m)
            &&& forall|i: int|
                0 <= i < nodes.len() ==> (#[trigger] node_updated(nodes[i]) matches Some(u) ==> m <= u)
        },
        min_updated(nodes) is None ==> forall|i: int|
            0 <= i < nodes.len() ==> (#[trigger] node_updated(nodes[i])) is None,
    decreases nodes.len(),
{
    if nodes.len() > 0 {
        let prev = nodes.drop_last();
        lemma_min_updated_is_oldest(prev);
        assert forall|i: int| 0 <= i < prev.len() implies prev[i] == nodes[i] by {}
        if min_updated(nodes) is Some {
            let m = min_updated(nodes).unwrap();
            if node_updated(nodes.last()) == Some(m) {
                assert(node_updated(nodes[nodes.len() - 1]) == Some(m));
            } else {
                let j = choose|j: int| 0 <= j < prev.len() && node_updated(prev[j]) == Some(m);
                assert(node_updated(nodes[j]) == Some(m));
            }
        }
    }
}

} // verus!

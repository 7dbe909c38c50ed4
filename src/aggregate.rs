//! One aggregation run: the authored listing, then the review-requested
//! search, then the merge of both into one record per pull request.
//!
//! The run decides; its caller fetches. `next_request` says which page to
//! fetch, and the page is handed back through `on_authored_page` or
//! `on_search_page` until `next_request` gives `None`. Any failed fetch ends
//! the run with that failure; `finish` then is not called.
use crate::calendar::{civil_of_days, unix_to_ymd, MAX_CIVIL_DAYS};
use crate::derive::{is_review_requested_by_user, pr_of_node, requested_of_user, to_pr};
use crate::merge::{key_map, keys_unique, merge_all, merge_into, with_authored, PrIndex};
use crate::model::{PageInfo, Pr, PullRequestNode, ReviewState, SearchNode};
use crate::paginate::{
    continuation, fresh_nodes, min_updated, next_cursor, page_stops, requested_kept,
    scan_authored_page, scan_search_page, search_prs, stops_early,
};
use crate::text::{clone_text, nat_digits, push_nat, push_two_digits, two_digits};
use crate::timestamp::timestamp_spec;
use vstd::prelude::*;

verus! {

/// The stage a run is in.
#[derive(Debug, Clone, Copy, PartialEq, Eq, Structural)]
pub enum Phase {
    /// Reading the viewer's own open pull requests.
    Authored,
    /// Reading the search for pull requests that request the viewer's review.
    ReviewRequested,
    /// Both listings are read.
    Done,
}

/// The page a run needs next.
#[derive(Debug, Clone)]
pub enum PageRequest {
    /// A page of the viewer's open pull requests, most recently updated first.
    Authored { cursor: Option<String> },
    /// A page of the review-requested search.
    Search { query: String, cursor: Option<String> },
}

/// A year with at least four digits, zero-padded.
pub open spec fn year_text(y: nat) -> Seq<char> {
    (if y < 1000 {
        seq!['0']
    } else {
        Seq::empty()
    }) + (if y < 100 {
        seq!['0']
    } else {
        Seq::empty()
    }) + (if y < 10 {
        seq!['0']
    } else {
        Seq::empty()
    }) + nat_digits(y)
}

/// `YYYY-MM-DD`
pub open spec fn date_text(y: nat, m: int, d: int) -> Seq<char> {
    year_text(y) + seq!['-'] + two_digits(m) + seq!['-'] + two_digits(d)
}

/// The UTC date of the cutoff; 1970-01-01 when it has none.
pub open spec fn cutoff_date_text(ts: int) -> Seq<char> {
    if 0 <= ts && ts / 86400 <= MAX_CIVIL_DAYS {
        date_text(civil_of_days(ts / 86400).0 as nat, civil_of_days(ts / 86400).1, civil_of_days(ts / 86400).2)
    } else {
        "1970-01-01"@
    }
}

/// The search for open pull requests requesting the viewer's review,
/// updated on or after the cutoff date, most recent first.
pub open spec fn search_query_text(ts: int) -> Seq<char> {
    "is:pr is:open review-requested:@me sort:updated-desc updated:>="@ + cutoff_date_text(ts)
}

/// Builds the review-requested search query for a cutoff timestamp.
pub fn review_search_query(cutoff_ts: i64) -> (r: String)
    ensures
        r@ == search_query_text(cutoff_ts as int),
{
    let mut q = String::from_str("is:pr is:open review-requested:@me sort:updated-desc updated:>=");
    match unix_to_ymd(cutoff_ts) {
        Some((y, m, d)) => {
            let ghost start = q@;
            if y < 1000 {
                q.append("0");
            }
            if y < 100 {
                q.append("0");
            }
            if y < 10 {
                q.append("0");
            }
            push_nat(&mut q, y as u64);
            q.append("-");
            push_two_digits(&mut q, m as u64);
            q.append("-");
            push_two_digits(&mut q, d as u64);
            proof {
                reveal_strlit("0");
                reveal_strlit("-");
                assert(q@ =~= start + date_text(y as nat, m as int, d as int));
            }
        },
        None => {
            q.append("1970-01-01");
        },
    }
    q
}

/// Whether a record should become a task: review is requested of the viewer.
pub fn should_add_todo(pr: &Pr) -> (r: bool)
    ensures
        r == (pr.review_state == ReviewState::Requested),
{
    pr.review_state == ReviewState::Requested
}

/// The viewer's login; `unknown` until the first authored page names it.
pub open spec fn viewer_text(login: Option<String>) -> Seq<char> {
    match login {
        Some(l) => l@,
        None => "unknown"@,
    }
}

/// The node's author is `viewer`.
pub open spec fn authored_by(node: PullRequestNode, viewer: Seq<char>) -> bool {
    node.author matches Some(a) && a.login@ == viewer
}

/// `p` is the record of `node` when found in the authored listing or in the
/// review-requested search.
pub open spec fn record_of(p: Pr, node: PullRequestNode, viewer: Seq<char>, authored: bool) -> bool {
    if authored {
        &&& pr_of_node(
            with_authored(p, authored_by(node, viewer)),
            node,
            requested_of_user(node, viewer),
            viewer,
        )
        &&& p.is_viewer_author
    } else {
        pr_of_node(p, node, true, viewer)
    }
}

/// `prs` are the records of `nodes`, in order, leaving out nodes whose update
/// time does not parse.
pub open spec fn records_of(
    nodes: Seq<PullRequestNode>,
    prs: Seq<Pr>,
    viewer: Seq<char>,
    authored: bool,
) -> bool
    decreases nodes.len(),
{
    if nodes.len() == 0 {
        prs.len() == 0
    } else if timestamp_spec(nodes.last().updated_at@) is None {
        records_of(nodes.drop_last(), prs, viewer, authored)
    } else {
        &&& prs.len() > 0
        &&& record_of(prs.last(), nodes.last(), viewer, authored)
        &&& records_of(nodes.drop_last(), prs.drop_last(), viewer, authored)
    }
}

/// Converts each node to its record and merges it into `index`.
fn merge_nodes(
    index: &mut PrIndex,
    nodes: Vec<PullRequestNode>,
    viewer: &str,
    authored: bool,
) -> (prs: Ghost<Seq<Pr>>)
    requires
        old(index).wf(),
    ensures
        final(index).wf(),
        records_of(nodes@, prs@, viewer@, authored),
        final(index)@ == merge_all(old(index)@, prs@),
{
    let ghost all = nodes@;
    let ghost start = index@;
    let ghost mut done: Seq<Pr> = Seq::empty();
    let ghost mut i: int = 0;
    let mut rest = nodes;
    assert(all.subrange(0, 0) =~= Seq::<PullRequestNode>::empty());
    assert(all.subrange(0, all.len() as int) =~= all);
    while rest.len() > 0
        invariant
            0 <= i <= all.len(),
            rest@ == all.subrange(i, all.len() as int),
            index.wf(),
            records_of(all.subrange(0, i), done, viewer@, authored),
            index@ == merge_all(start, done),
        decreases rest@.len(),
    {
        let node = rest.remove(0);
        proof {
            assert(node == all[i]);
            assert(all.subrange(0, i + 1).drop_last() =~= all.subrange(0, i));
            assert(rest@ =~= all.subrange(i + 1, all.len() as int));
        }
        let ghost n0 = node;
        let requested = if authored {
            is_review_requested_by_user(&node, viewer)
        } else {
            true
        };
        match to_pr(node, requested, viewer) {
            Some(pr) => {
                let mut pr = pr;
                let ghost p0 = pr;
                if authored {
                    pr.is_viewer_author = true;
                    assert(with_authored(pr, authored_by(n0, viewer@)) == p0);
                }
                let ghost p = pr;
                merge_into(index, pr);
                proof {
                    let next = done.push(p);
                    assert(next.drop_last() =~= done);
                    done = next;
                }
            },
            None => {},
        }
        proof {
            i = i + 1;
        }
    }
    assert(all.subrange(0, i) =~= all);
    Ghost(done)
}

/// The state of one aggregation run.
pub struct AttentionRun {
    /// Pull requests updated before this instant are left out.
    pub cutoff_ts: i64,
    /// Keep review requests made of a team the viewer belongs to.
    pub include_team_requests: bool,
    pub phase: Phase,
    /// Where the current listing goes on.
    pub cursor: Option<String>,
    /// The viewer's login, from the first authored page.
    pub viewer_login: Option<String>,
    /// Authored pull requests kept so far.
    pub authored: Vec<PullRequestNode>,
    /// Review-requested pull requests kept so far.
    pub requested: Vec<PullRequestNode>,
}

impl AttentionRun {
    /// A run that starts with the first authored page.
    pub fn new(cutoff_ts: i64, include_team_requests: bool) -> (r: Self)
        ensures
            r.cutoff_ts == cutoff_ts,
            r.include_team_requests == include_team_requests,
            r.phase == Phase::Authored,
            r.cursor is None,
            r.viewer_login is None,
            r.authored@.len() == 0,
            r.requested@.len() == 0,
    {
        AttentionRun {
            cutoff_ts,
            include_team_requests,
            phase: Phase::Authored,
            cursor: None,
            viewer_login: None,
            authored: Vec::new(),
            requested: Vec::new(),
        }
    }

    /// The page to fetch next; `None` once both listings are read.
    pub fn next_request(&self) -> (r: Option<PageRequest>)
        ensures
            match self.phase {
                Phase::Authored => r matches Some(PageRequest::Authored { cursor }) && cursor
                    == self.cursor,
                Phase::ReviewRequested => r matches Some(PageRequest::Search { query, cursor })
                    && query@ == search_query_text(self.cutoff_ts as int) && cursor == self.cursor,
                Phase::Done => r is None,
            },
    {
        match self.phase {
            Phase::Authored => Some(PageRequest::Authored { cursor: clone_text(&self.cursor) }),
            Phase::ReviewRequested => Some(
                PageRequest::Search {
                    query: review_search_query(self.cutoff_ts),
                    cursor: clone_text(&self.cursor),
                },
            ),
            Phase::Done => None,
        }
    }

    /// Takes in one authored page: the viewer's login as the page reports
    /// it, the page's nodes if any, and its pagination state.
    pub fn on_authored_page(
        &mut self,
        viewer_login: String,
        nodes: Option<Vec<PullRequestNode>>,
        page: &PageInfo,
    )
        requires
            old(self).phase == Phase::Authored,
        ensures
            final(self).cutoff_ts == old(self).cutoff_ts,
            final(self).include_team_requests == old(self).include_team_requests,
            final(self).requested == old(self).requested,
            final(self).viewer_login == if old(self).viewer_login is Some {
                old(self).viewer_login
            } else {
                Some(viewer_login)
            },
            ({
                let ns = match nodes {
                    Some(v) => v@,
                    None => Seq::empty(),
                };
                let next = continuation(
                    page_stops(min_updated(ns), old(self).cutoff_ts as int),
                    *page,
                );
                &&& final(self).authored@ == old(self).authored@ + fresh_nodes(
                    ns,
                    old(self).cutoff_ts as int,
                )
                &&& final(self).cursor == next
                &&& final(self).phase == if next is Some {
                    Phase::Authored
                } else {
                    Phase::ReviewRequested
                }
            }),
    {
        if self.viewer_login.is_none() {
            self.viewer_login = Some(viewer_login);
        }
        let stop = match nodes {
            Some(ns) => {
                let scan = scan_authored_page(ns, self.cutoff_ts);
                let mut kept = scan.kept;
                self.authored.append(&mut kept);
                stops_early(scan.min_updated, self.cutoff_ts)
            },
            None => {
                assert(fresh_nodes(Seq::<PullRequestNode>::empty(), self.cutoff_ts as int)
                    =~= Seq::<PullRequestNode>::empty());
                assert(self.authored@ =~= old(self).authored@ + Seq::<PullRequestNode>::empty());
                false
            },
        };
        self.cursor = next_cursor(stop, page);
        if self.cursor.is_none() {
            self.phase = Phase::ReviewRequested;
        }
    }

    /// Takes in one page of the review-requested search.
    pub fn on_search_page(&mut self, nodes: Option<Vec<SearchNode>>, page: &PageInfo)
        requires
            old(self).phase == Phase::ReviewRequested,
        ensures
            final(self).cutoff_ts == old(self).cutoff_ts,
            final(self).include_team_requests == old(self).include_team_requests,
            final(self).viewer_login == old(self).viewer_login,
            final(self).authored == old(self).authored,
            ({
                let prs = match nodes {
                    Some(v) => search_prs(v@),
                    None => Seq::empty(),
                };
                let next = continuation(
                    page_stops(min_updated(prs), old(self).cutoff_ts as int),
                    *page,
                );
                &&& final(self).requested@ == old(self).requested@ + requested_kept(
                    prs,
                    old(self).cutoff_ts as int,
                    old(self).include_team_requests,
                    viewer_text(old(self).viewer_login),
                )
                &&& final(self).cursor == next
                &&& final(self).phase == if next is Some {
                    Phase::ReviewRequested
                } else {
                    Phase::Done
                }
            }),
    {
        let stop = match nodes {
            Some(ns) => {
                let scan = match &self.viewer_login {
                    Some(l) => scan_search_page(
                        ns,
                        self.cutoff_ts,
                        self.include_team_requests,
                        l.as_str(),
                    ),
                    None => scan_search_page(
                        ns,
                        self.cutoff_ts,
                        self.include_team_requests,
                        "unknown",
                    ),
                };
                let mut kept = scan.kept;
                self.requested.append(&mut kept);
                stops_early(scan.min_updated, self.cutoff_ts)
            },
            None => {
                assert(requested_kept(
                    Seq::<PullRequestNode>::empty(),
                    self.cutoff_ts as int,
                    self.include_team_requests,
                    viewer_text(self.viewer_login),
                ) =~= Seq::<PullRequestNode>::empty());
                assert(self.requested@ =~= old(self).requested@ + Seq::<PullRequestNode>::empty());
                false
            },
        };
        self.cursor = next_cursor(stop, page);
        if self.cursor.is_none() {
            self.phase = Phase::Done;
        }
    }

    /// One record per pull request: the authored ones first, each marked
    /// authored, then the review-requested ones, each with review state
    /// `Requested`. A later record replaces an earlier one under the same
    /// key, but an authored flag is never lost. Order is unspecified.
    pub fn finish(self) -> (r: Vec<Pr>)
        ensures
            keys_unique(r@),
            exists|a: Seq<Pr>, b: Seq<Pr>|
                {
                    &&& records_of(self.authored@, a, viewer_text(self.viewer_login), true)
                    &&& records_of(self.requested@, b, viewer_text(self.viewer_login), false)
                    &&& key_map(r@) == merge_all(merge_all(Map::empty(), a), b)
                },
    {
        let viewer = match self.viewer_login {
            Some(l) => l,
            None => String::from_str("unknown"),
        };
        let mut index = PrIndex::new();
        let a = merge_nodes(&mut index, self.authored, viewer.as_str(), true);
        let b = merge_nodes(&mut index, self.requested, viewer.as_str(), false);
        let r = index.into_values();
        assert(records_of(self.authored@, a@, viewer_text(self.viewer_login), true));
        assert(records_of(self.requested@, b@, viewer_text(self.viewer_login), false));
        r
    }
}

} // verus!

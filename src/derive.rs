//! Maps the fields of a pull-request node onto this crate's status
//! vocabulary: CI checks and their roll-up, review state, merge blockers,
//! and the normalized record.
use crate::model::{
    blockers_clear, check_models, opt_text, texts, CiCheck, CiCheckModel, CiCheckState, CiState,
    MergeBlockers, MergeBlockersModel, Pr, PullRequestNode, ReviewRequestNode, ReviewState,
    SearchNode, StatusCheckRollup, StatusContextNode, BranchProtectionRule,
};
use crate::text::{
    clone_text, clone_texts, decimal_text, eq_ignore_ascii_case, eq_ignore_ascii_case_spec,
    opt_text_is, push_int, str_eq,
};
use crate::timestamp::{parse_github_datetime_to_unix, timestamp_spec};
use vstd::prelude::*;

verus! {

/// The status roll-up of the pull request's last commit, if reported.
pub open spec fn rollup_of(node: PullRequestNode) -> Option<StatusCheckRollup> {
    match node.commits {
        Some(c) => match c.nodes {
            Some(ns) => if ns@.len() > 0 {
                match ns@[0].commit {
                    Some(ci) => ci.status_check_rollup,
                    None => None,
                }
            } else {
                None
            },
            None => None,
        },
        None => None,
    }
}

/// The code host's own roll-up state string.
pub open spec fn rollup_text(node: PullRequestNode) -> Option<Seq<char>> {
    match rollup_of(node) {
        Some(r) => opt_text(r.state),
        None => None,
    }
}

/// The status contexts of the last commit; empty when not reported.
pub open spec fn status_contexts_of(node: PullRequestNode) -> Seq<StatusContextNode> {
    match rollup_of(node) {
        Some(r) => match r.contexts {
            Some(c) => match c.nodes {
                Some(ns) => ns@,
                None => Seq::empty(),
            },
            None => Seq::empty(),
        },
        None => Seq::empty(),
    }
}

/// State of a check run from its conclusion.
pub open spec fn check_run_state(conclusion: Option<Seq<char>>) -> CiCheckState {
    if conclusion == Some("SUCCESS"@) {
        CiCheckState::Success
    } else if conclusion == Some("FAILURE"@) || conclusion == Some("CANCELLED"@) {
        CiCheckState::Failure
    } else if conclusion == Some("NEUTRAL"@) || conclusion == Some("SKIPPED"@) {
        CiCheckState::Neutral
    } else {
        CiCheckState::Running
    }
}

/// State of a status context from its state string.
pub open spec fn status_context_state(state: Option<Seq<char>>) -> CiCheckState {
    if state == Some("SUCCESS"@) {
        CiCheckState::Success
    } else if state == Some("FAILURE"@) {
        CiCheckState::Failure
    } else if state == Some("PENDING"@) {
        CiCheckState::Running
    } else {
        CiCheckState::Unknown
    }
}

/// Seconds since the epoch of an optional timestamp, when it parses.
pub open spec fn opt_timestamp(s: Option<String>) -> Option<i64> {
    match s {
        Some(t) => match timestamp_spec(t@) {
            Some(v) => Some(v as i64),
            None => None,
        },
        None => None,
    }
}

/// The check that one status-context node stands for; `None` for a node
/// that is neither a check run nor a status context.
pub open spec fn check_of_context(ctx: StatusContextNode) -> Option<CiCheckModel> {
    if opt_text(ctx.typename) == Some("CheckRun"@) {
        Some(
            CiCheckModel {
                name: match ctx.name {
                    Some(n) => n@,
                    None => "check"@,
                },
                state: check_run_state(opt_text(ctx.conclusion)),
                url: if ctx.details_url is Some {
                    opt_text(ctx.details_url)
                } else {
                    opt_text(ctx.target_url)
                },
                started_at_unix: opt_timestamp(ctx.started_at),
            },
        )
    } else if opt_text(ctx.typename) == Some("StatusContext"@) {
        Some(
            CiCheckModel {
                name: match ctx.context {
                    Some(n) => n@,
                    None => "status"@,
                },
                state: status_context_state(opt_text(ctx.state)),
                url: opt_text(ctx.target_url),
                started_at_unix: None,
            },
        )
    } else {
        None
    }
}

/// The checks of a list of status-context nodes, in order, skipping nodes
/// of other kinds.
pub open spec fn checks_of_contexts(ctxs: Seq<StatusContextNode>) -> Seq<CiCheckModel>
    decreases ctxs.len(),
{
    if ctxs.len() == 0 {
        Seq::empty()
    } else {
        let prev = checks_of_contexts(ctxs.drop_last());
        match check_of_context(ctxs.last()) {
            Some(c) => prev.push(c),
            None => prev,
        }
    }
}

pub open spec fn has_check_state(checks: Seq<CiCheckModel>, st: CiCheckState) -> bool {
    exists|i: int| 0 <= i < checks.len() && checks[i].state == st
}

/// The CI state the code host's roll-up string stands for.
pub open spec fn rollup_ci_state(rollup: Option<Seq<char>>) -> CiState {
    if rollup == Some("SUCCESS"@) {
        CiState::Success
    } else if rollup == Some("FAILURE"@) {
        CiState::Failure
    } else if rollup == Some("PENDING"@) || rollup == Some("IN_PROGRESS"@) {
        CiState::Running
    } else {
        CiState::Unknown
    }
}

/// Pull-request CI state: running over failure over success among the
/// checks; the code host's roll-up only when there is no check at all.
pub open spec fn ci_state_spec(rollup: Option<Seq<char>>, checks: Seq<CiCheckModel>) -> CiState {
    if has_check_state(checks, CiCheckState::Running) {
        CiState::Running
    } else if has_check_state(checks, CiCheckState::Failure) {
        CiState::Failure
    } else if has_check_state(checks, CiCheckState::Success) {
        CiState::Success
    } else if checks.len() == 0 {
        rollup_ci_state(rollup)
    } else {
        CiState::Unknown
    }
}

/// Review state: requested of the viewer wins over any review decision.
pub open spec fn review_state_spec(decision: Option<Seq<char>>, is_requested: bool) -> ReviewState {
    if is_requested {
        ReviewState::Requested
    } else if decision == Some("APPROVED"@) {
        ReviewState::Approved
    } else {
        ReviewState::Unknown
    }
}

pub open spec fn review_request_nodes(node: PullRequestNode) -> Seq<ReviewRequestNode> {
    match node.review_requests {
        Some(rr) => match rr.nodes {
            Some(ns) => ns@,
            None => Seq::empty(),
        },
        None => Seq::empty(),
    }
}

/// The review request names the user `login` itself, not a team.
pub open spec fn names_user(n: ReviewRequestNode, login: Seq<char>) -> bool {
    n.requested_reviewer matches Some(r) && opt_text(r.typename) == Some("User"@) && opt_text(
        r.login,
    ) == Some(login)
}

/// Review is requested of the user `login` by name on the node.
pub open spec fn requested_of_user(node: PullRequestNode, login: Seq<char>) -> bool {
    exists|i: int|
        0 <= i < review_request_nodes(node).len() && names_user(review_request_nodes(node)[i], login)
}

pub open spec fn protection_of(node: PullRequestNode) -> Option<BranchProtectionRule> {
    match node.base_ref {
        Some(b) => b.branch_protection_rule,
        None => None,
    }
}

pub open spec fn required_approvals_of(node: PullRequestNode) -> Option<u32> {
    match protection_of(node) {
        Some(p) => match p.required_approving_review_count {
            Some(c) => Some(c as u32),
            None => None,
        },
        None => None,
    }
}

pub open spec fn required_checks_of(node: PullRequestNode) -> Seq<Seq<char>> {
    match protection_of(node) {
        Some(p) => match p.required_status_check_contexts {
            Some(v) => texts(v@),
            None => Seq::empty(),
        },
        None => Seq::empty(),
    }
}

pub open spec fn current_approvals_of(node: PullRequestNode) -> u32 {
    match node.reviews {
        Some(r) => match r.total_count {
            Some(c) => c as u32,
            None => 0,
        },
        None => 0,
    }
}

/// Some check named `name` has succeeded.
pub open spec fn succeeded(checks: Seq<CiCheckModel>, name: Seq<char>) -> bool {
    exists|i: int| 0 <= i < checks.len() && checks[i].state == CiCheckState::Success && checks[i].name == name
}

/// The required check names, in order, that no successful check carries.
pub open spec fn failing_required(required: Seq<Seq<char>>, checks: Seq<CiCheckModel>) -> Seq<
    Seq<char>,
>
    decreases required.len(),
{
    if required.len() == 0 {
        Seq::empty()
    } else {
        let prev = failing_required(required.drop_last(), checks);
        if succeeded(checks, required.last()) {
            prev
        } else {
            prev.push(required.last())
        }
    }
}

pub open spec fn text_is_ci(o: Option<String>, lit: Seq<char>) -> bool {
    o matches Some(s) && eq_ignore_ascii_case_spec(s@, lit)
}

/// Everything that may keep the pull request from being merged.
pub open spec fn blockers_spec(node: PullRequestNode, checks: Seq<CiCheckModel>) -> MergeBlockersModel {
    MergeBlockersModel {
        has_conflicts: text_is_ci(node.mergeable, "CONFLICTING"@),
        required_approvals: required_approvals_of(node),
        current_approvals: current_approvals_of(node),
        required_checks: required_checks_of(node),
        failing_required_checks: failing_required(required_checks_of(node), checks),
        is_behind_base: text_is_ci(node.merge_state_status, "BEHIND"@),
    }
}

/// `owner/repo#number`
pub open spec fn pr_key_text(owner: Seq<char>, repo: Seq<char>, number: int) -> Seq<char> {
    owner + "/"@ + repo + "#"@ + decimal_text(number)
}

/// The identity key of a pull-request node.
pub open spec fn node_key(node: PullRequestNode) -> Seq<char> {
    pr_key_text(node.repository.owner.login@, node.repository.name@, node.number as int)
}

/// `p` is the record of `node`, discovered with review requested of the
/// viewer or not, for the viewer `viewer`.
pub open spec fn pr_of_node(p: Pr, node: PullRequestNode, is_requested: bool, viewer: Seq<char>) -> bool {
    let checks = checks_of_contexts(status_contexts_of(node));
    let blockers = blockers_spec(node, checks);
    &&& p.pr_key@ == node_key(node)
    &&& p.owner@ == node.repository.owner.login@
    &&& p.repo@ == node.repository.name@
    &&& p.number == node.number
    &&& p.author@ == match node.author {
        Some(a) => a.login@,
        None => "unknown"@,
    }
    &&& p.title@ == node.title@
    &&& p.url@ == node.url@
    &&& timestamp_spec(node.updated_at@) == Some(p.updated_at_unix as int)
    &&& p.last_commit_sha == node.head_ref_oid
    &&& check_models(p.ci_checks@) == checks
    &&& p.ci_state == ci_state_spec(rollup_text(node), checks)
    &&& p.review_state == review_state_spec(opt_text(node.review_decision), is_requested)
    &&& p.is_draft == (node.is_draft == Some(true))
    &&& p.mergeable == node.mergeable
    &&& p.merge_state_status == node.merge_state_status
    &&& p.is_viewer_author == (node.author matches Some(a) && a.login@ == viewer)
    &&& match p.merge_blockers {
        Some(b) => b@ == blockers && !blockers_clear(blockers),
        None => blockers_clear(blockers),
    }
}

/// The pull request a search node stands for: only a `PullRequest` node
/// with its number, title, URL, update time and repository present.
pub open spec fn search_node_pr(n: SearchNode) -> Option<PullRequestNode> {
    if opt_text(n.typename) == Some("PullRequest"@) && n.number is Some && n.title is Some
        && n.url is Some && n.updated_at is Some && n.repository is Some {
        Some(
            PullRequestNode {
                number: n.number.unwrap(),
                title: n.title.unwrap(),
                url: n.url.unwrap(),
                updated_at: n.updated_at.unwrap(),
                repository: n.repository.unwrap(),
                author: n.author,
                review_requests: n.review_requests,
                head_ref_oid: n.head_ref_oid,
                review_decision: n.review_decision,
                is_draft: n.is_draft,
                mergeable: n.mergeable,
                merge_state_status: n.merge_state_status,
                commits: n.commits,
                reviews: n.reviews,
                base_ref: n.base_ref,
            },
        )
    } else {
        None
    }
}

impl SearchNode {
    /// The pull request this node stands for, if it is one and its required
    /// fields are present.
    pub fn into_pull_request(self) -> (r: Option<PullRequestNode>)
        ensures
            r == search_node_pr(self),
    {
        if !opt_text_is(&self.typename, "PullRequest") {
            return None;
        }
        match (self.number, self.title, self.url, self.updated_at, self.repository) {
            (Some(number), Some(title), Some(url), Some(updated_at), Some(repository)) => Some(
                PullRequestNode {
                    number,
                    title,
                    url,
                    updated_at,
                    repository,
                    author: self.author,
                    review_requests: self.review_requests,
                    head_ref_oid: self.head_ref_oid,
                    review_decision: self.review_decision,
                    is_draft: self.is_draft,
                    mergeable: self.mergeable,
                    merge_state_status: self.merge_state_status,
                    commits: self.commits,
                    reviews: self.reviews,
                    base_ref: self.base_ref,
                },
            ),
            _ => None,
        }
    }
}

fn last_commit_rollup(node: &PullRequestNode) -> (r: Option<&StatusCheckRollup>)
    ensures
        match r {
            Some(x) => rollup_of(*node) == Some(*x),
            None => rollup_of(*node) is None,
        },
{
    match &node.commits {
        Some(c) => match &c.nodes {
            Some(ns) => if ns.len() > 0 {
                match &ns[0].commit {
                    Some(ci) => match &ci.status_check_rollup {
                        Some(ru) => Some(ru),
                        None => None,
                    },
                    None => None,
                }
            } else {
                None
            },
            None => None,
        },
        None => None,
    }
}

/// The code host's roll-up state string for the last commit.
pub fn rollup_state(node: &PullRequestNode) -> (r: Option<&str>)
    ensures
        match r {
            Some(s) => rollup_text(*node) == Some(s@),
            None => rollup_text(*node) is None,
        },
{
    match last_commit_rollup(node) {
        Some(ru) => match &ru.state {
            Some(s) => Some(s.as_str()),
            None => None,
        },
        None => None,
    }
}

/// The status-context nodes of the last commit, if reported.
pub fn status_context_nodes(node: &PullRequestNode) -> (r: Option<&Vec<StatusContextNode>>)
    ensures
        match r {
            Some(v) => v@ == status_contexts_of(*node),
            None => status_contexts_of(*node) == Seq::<StatusContextNode>::empty(),
        },
{
    match last_commit_rollup(node) {
        Some(ru) => match &ru.contexts {
            Some(c) => match &c.nodes {
                Some(ns) => Some(ns),
                None => None,
            },
            None => None,
        },
        None => None,
    }
}

fn started_at_of(s: &Option<String>) -> (r: Option<i64>)
    ensures
        r == opt_timestamp(*s),
{
    match s {
        Some(t) => parse_github_datetime_to_unix(t.as_str()),
        None => None,
    }
}

/// The check one status-context node stands for.
fn check_from_context(ctx: &StatusContextNode) -> (r: Option<CiCheck>)
    ensures
        match r {
            Some(c) => check_of_context(*ctx) == Some(c@),
            None => check_of_context(*ctx) is None,
        },
{
    if opt_text_is(&ctx.typename, "CheckRun") {
        let name = match &ctx.name {
            Some(n) => n.clone(),
            None => String::from_str("check"),
        };
        let state = if opt_text_is(&ctx.conclusion, "SUCCESS") {
            CiCheckState::Success
        } else if opt_text_is(&ctx.conclusion, "FAILURE") || opt_text_is(
            &ctx.conclusion,
            "CANCELLED",
        ) {
            CiCheckState::Failure
        } else if opt_text_is(&ctx.conclusion, "NEUTRAL") || opt_text_is(
            &ctx.conclusion,
            "SKIPPED",
        ) {
            CiCheckState::Neutral
        } else {
            CiCheckState::Running
        };
        let url = if ctx.details_url.is_some() {
            clone_text(&ctx.details_url)
        } else {
            clone_text(&ctx.target_url)
        };
        let started_at_unix = started_at_of(&ctx.started_at);
        Some(CiCheck { name, state, url, started_at_unix })
    } else if opt_text_is(&ctx.typename, "StatusContext") {
        let name = match &ctx.context {
            Some(n) => n.clone(),
            None => String::from_str("status"),
        };
        let state = if opt_text_is(&ctx.state, "SUCCESS") {
            CiCheckState::Success
        } else if opt_text_is(&ctx.state, "FAILURE") {
            CiCheckState::Failure
        } else if opt_text_is(&ctx.state, "PENDING") {
            CiCheckState::Running
        } else {
            CiCheckState::Unknown
        };
        let url = clone_text(&ctx.target_url);
        Some(CiCheck { name, state, url, started_at_unix: None })
    } else {
        None
    }
}

/// The CI checks of the node's last commit, in order: check runs and status
/// contexts, other kinds skipped.
pub fn map_ci_checks(node: &PullRequestNode) -> (r: Vec<CiCheck>)
    ensures
        check_models(r@) == checks_of_contexts(status_contexts_of(*node)),
{
    let mut out: Vec<CiCheck> = Vec::new();
    let ctxs = match status_context_nodes(node) {
        Some(v) => v,
        None => {
            assert(check_models(out@) =~= Seq::<CiCheckModel>::empty());
            return out;
        },
    };
    let mut i: usize = 0;
    assert(ctxs@.subrange(0, 0) =~= Seq::<StatusContextNode>::empty());
    assert(check_models(out@) =~= Seq::<CiCheckModel>::empty());
    while i < ctxs.len()
        invariant
            i <= ctxs@.len(),
            ctxs@ == status_contexts_of(*node),
            check_models(out@) == checks_of_contexts(ctxs@.subrange(0, i as int)),
        decreases ctxs@.len() - i,
    {
        let ghost before = out@;
        assert(ctxs@.subrange(0, i + 1).drop_last() =~= ctxs@.subrange(0, i as int));
        match check_from_context(&ctxs[i]) {
            Some(c) => {
                out.push(c);
                assert(check_models(out@) =~= check_models(before).push(c@));
            },
            None => {},
        }
        i = i + 1;
    }
    assert(ctxs@.subrange(0, i as int) =~= ctxs@);
    out
}

/// Pull-request CI state from its checks: running over failure over
/// success; the code host's roll-up string only when there is no check.
pub fn derive_ci_state(rollup: Option<&str>, checks: &[CiCheck]) -> (r: CiState)
    ensures
        r == ci_state_spec(
            match rollup {
                Some(s) => Some(s@),
                None => None,
            },
            check_models(checks@),
        ),
{
    let ghost models = check_models(checks@);
    let mut running = false;
    let mut failure = false;
    let mut success = false;
    let mut i: usize = 0;
    while i < checks.len()
        invariant
            i <= checks@.len(),
            models == check_models(checks@),
            running == exists|j: int| 0 <= j < i && models[j].state == CiCheckState::Running,
            failure == exists|j: int| 0 <= j < i && models[j].state == CiCheckState::Failure,
            success == exists|j: int| 0 <= j < i && models[j].state == CiCheckState::Success,
        decreases checks@.len() - i,
    {
        let st = checks[i].state;
        assert(models[i as int].state == st);
        if st == CiCheckState::Running {
            running = true;
        } else if st == CiCheckState::Failure {
            failure = true;
        } else if st == CiCheckState::Success {
            success = true;
        }
        i = i + 1;
    }
    if running {
        CiState::Running
    } else if failure {
        CiState::Failure
    } else if success {
        CiState::Success
    } else if checks.len() > 0 {
        CiState::Unknown
    } else {
        match rollup {
            Some(s) => if str_eq(s, "SUCCESS") {
                CiState::Success
            } else if str_eq(s, "FAILURE") {
                CiState::Failure
            } else if str_eq(s, "PENDING") || str_eq(s, "IN_PROGRESS") {
                CiState::Running
            } else {
                CiState::Unknown
            },
            None => CiState::Unknown,
        }
    }
}

/// Review state of a node: `Requested` whenever review is requested of the
/// viewer, else `Approved` on an `APPROVED` review decision.
pub fn map_review_state(node: &PullRequestNode, is_requested: bool) -> (r: ReviewState)
    ensures
        r == review_state_spec(opt_text(node.review_decision), is_requested),
{
    if is_requested {
        return ReviewState::Requested;
    }
    if opt_text_is(&node.review_decision, "APPROVED") {
        ReviewState::Approved
    } else {
        ReviewState::Unknown
    }
}

/// Whether the user `viewer_login` is named, as a user, among the node's
/// people asked to review (a team request does not count).
pub fn is_review_requested_by_user(node: &PullRequestNode, viewer_login: &str) -> (r: bool)
    ensures
        r == requested_of_user(*node, viewer_login@),
{
    let nodes = match &node.review_requests {
        Some(rr) => match &rr.nodes {
            Some(ns) => ns,
            None => return false,
        },
        None => return false,
    };
    let mut i: usize = 0;
    while i < nodes.len()
        invariant
            i <= nodes@.len(),
            nodes@ == review_request_nodes(*node),
            forall|j: int| 0 <= j < i ==> !names_user(nodes@[j], viewer_login@),
        decreases nodes@.len() - i,
    {
        match &nodes[i].requested_reviewer {
            Some(r) => {
                if opt_text_is(&r.typename, "User") && match &r.login {
                    Some(l) => str_eq(l.as_str(), viewer_login),
                    None => false,
                } {
                    return true;
                }
            },
            None => {},
        }
        i = i + 1;
    }
    false
}

fn has_success_named(checks: &[CiCheck], name: &String) -> (r: bool)
    ensures
        r == succeeded(check_models(checks@), name@),
{
    let ghost models = check_models(checks@);
    let mut i: usize = 0;
    while i < checks.len()
        invariant
            i <= checks@.len(),
            models == check_models(checks@),
            forall|j: int|
                0 <= j < i ==> !(models[j].state == CiCheckState::Success && models[j].name
                    == name@),
        decreases checks@.len() - i,
    {
        if checks[i].state == CiCheckState::Success && str_eq(
            checks[i].name.as_str(),
            name.as_str(),
        ) {
            assert(models[i as int].name == checks@[i as int].name@);
            return true;
        }
        i = i + 1;
    }
    false
}

/// Why the node's pull request cannot be merged, judged against its CI checks.
pub fn compute_merge_blockers(node: &PullRequestNode, ci_checks: &[CiCheck]) -> (r: MergeBlockers)
    ensures
        r@ == blockers_spec(*node, check_models(ci_checks@)),
{
    let has_conflicts = match &node.mergeable {
        Some(s) => eq_ignore_ascii_case(s.as_str(), "CONFLICTING"),
        None => false,
    };
    let is_behind_base = match &node.merge_state_status {
        Some(s) => eq_ignore_ascii_case(s.as_str(), "BEHIND"),
        None => false,
    };
    let rule = match &node.base_ref {
        Some(b) => match &b.branch_protection_rule {
            Some(p) => Some(p),
            None => None,
        },
        None => None,
    };
    let (required_approvals, required_checks) = match rule {
        Some(p) => {
            let approvals = match p.required_approving_review_count {
                Some(c) => Some(#[verifier::truncate] (c as u32)),
                None => None,
            };
            let checks = match &p.required_status_check_contexts {
                Some(v) => clone_texts(v),
                None => Vec::new(),
            };
            (approvals, checks)
        },
        None => (None, Vec::new()),
    };
    let current_approvals: u32 = match &node.reviews {
        Some(rv) => match rv.total_count {
            Some(c) => #[verifier::truncate] (c as u32),
            None => 0,
        },
        None => 0,
    };
    assert(texts(required_checks@) == required_checks_of(*node));
    let mut failing: Vec<String> = Vec::new();
    let mut i: usize = 0;
    let ghost req = texts(required_checks@);
    let ghost models = check_models(ci_checks@);
    assert(texts(failing@) =~= failing_required(req.subrange(0, 0), models));
    while i < required_checks.len()
        invariant
            i <= required_checks@.len(),
            req == texts(required_checks@),
            models == check_models(ci_checks@),
            texts(failing@) == failing_required(req.subrange(0, i as int), models),
        decreases required_checks@.len() - i,
    {
        let ghost before = failing@;
        assert(req.subrange(0, i + 1).drop_last() =~= req.subrange(0, i as int));
        if !has_success_named(ci_checks, &required_checks[i]) {
            failing.push(required_checks[i].clone());
            assert(texts(failing@) =~= texts(before).push(req[i as int]));
        }
        i = i + 1;
    }
    assert(req.subrange(0, i as int) =~= req);
    MergeBlockers {
        has_conflicts,
        required_approvals,
        current_approvals,
        required_checks,
        failing_required_checks: failing,
        is_behind_base,
    }
}

/// The record of a node for the viewer `viewer_login`; `None` when the
/// node's update time does not parse.
pub fn to_pr(node: PullRequestNode, is_requested: bool, viewer_login: &str) -> (r: Option<Pr>)
    ensures
        r is None <==> timestamp_spec(node.updated_at@) is None,
        r matches Some(p) ==> pr_of_node(p, node, is_requested, viewer_login@),
{
    let updated_at_unix = match parse_github_datetime_to_unix(node.updated_at.as_str()) {
        Some(u) => u,
        None => return None,
    };
    let ci_checks = map_ci_checks(&node);
    let ci_state = derive_ci_state(rollup_state(&node), ci_checks.as_slice());
    let review_state = map_review_state(&node, is_requested);
    let owner = node.repository.owner.login.clone();
    let repo = node.repository.name.clone();
    let (author, is_viewer_author) = match &node.author {
        Some(a) => (a.login.clone(), str_eq(a.login.as_str(), viewer_login)),
        None => (String::from_str("unknown"), false),
    };
    let mut pr_key = owner.clone();
    pr_key.append("/");
    pr_key.append(repo.as_str());
    pr_key.append("#");
    push_int(&mut pr_key, node.number);
    let blockers = compute_merge_blockers(&node, ci_checks.as_slice());
    let merge_blockers = if blockers.is_clear() {
        None
    } else {
        Some(blockers)
    };
    let is_draft = match node.is_draft {
        Some(d) => d,
        None => false,
    };
    Some(
        Pr {
            pr_key,
            owner,
            repo,
            number: node.number,
            author,
            title: node.title,
            url: node.url,
            updated_at_unix,
            last_commit_sha: node.head_ref_oid,
            ci_state,
            ci_checks,
            review_state,
            is_draft,
            mergeable: node.mergeable,
            merge_state_status: node.merge_state_status,
            is_viewer_author,
            merge_blockers,
        },
    )
}

/// A running check makes the pull request running, wherever it stands in the
/// list and whatever else the list or the roll-up holds.
pub proof fn lemma_running_check_wins(
    rollup: Option<Seq<char>>,
    checks: Seq<CiCheckModel>,
    i: int,
)
    requires
        0 <= i < checks.len(),
        checks[i].state == CiCheckState::Running,
    ensures
        ci_state_spec(rollup, checks) == CiState::Running,
{
}

proof fn lemma_state_present_in_reordering(
    s: Seq<CiCheckModel>,
    t: Seq<CiCheckModel>,
    st: CiCheckState,
)
    requires
        s.to_multiset() == t.to_multiset(),
        has_check_state(s, st),
    ensures
        has_check_state(t, st),
{
    broadcast use vstd::seq_lib::group_to_multiset_ensures;

    let i = choose|i: int| 0 <= i < s.len() && s[i].state == st;
    assert(s.contains(s[i]));
    assert(t.to_multiset().count(s[i]) > 0);
    assert(t.contains(s[i]));
    let j = choose|j: int| 0 <= j < t.len() && t[j] == s[i];
    assert(t[j].state == st);
}

/// The CI state does not depend on the order of the checks.
pub proof fn lemma_ci_state_ignores_order(
    rollup: Option<Seq<char>>,
    s: Seq<CiCheckModel>,
    t: Seq<CiCheckModel>,
)
    requires
        s.to_multiset() == t.to_multiset(),
    ensures
        ci_state_spec(rollup, s) == ci_state_spec(rollup, t),
{
    broadcast use vstd::seq_lib::group_to_multiset_ensures;

    vstd::seq_lib::to_multiset_len(s);
    vstd::seq_lib::to_multiset_len(t);
    assert(s.len() == t.len());
    let states = seq![
        CiCheckState::Running,
        CiCheckState::Failure,
        CiCheckState::Success,
    ];
    assert forall|k: int| 0 <= k < 3 implies has_check_state(s, #[trigger] states[k])
        == has_check_state(t, states[k]) by {
        if has_check_state(s, states[k]) {
            lemma_state_present_in_reordering(s, t, states[k]);
        }
        if has_check_state(t, states[k]) {
            lemma_state_present_in_reordering(t, s, states[k]);
        }
    }
    assert(states[0] == CiCheckState::Running);
    assert(states[1] == CiCheckState::Failure);
    assert(states[2] == CiCheckState::Success);
}

/// With no running check, a failing check makes the pull request failing.
pub proof fn lemma_failing_check_beats_success(
    rollup: Option<Seq<char>>,
    checks: Seq<CiCheckModel>,
    i: int,
)
    requires
        0 <= i < checks.len(),
        checks[i].state == CiCheckState::Failure,
        !has_check_state(checks, CiCheckState::Running),
    ensures
        ci_state_spec(rollup, checks) == CiState::Failure,
{
}

/// A node that asks the viewer by name for a review has
/// review state `Requested`, even when its review decision is `APPROVED`.
pub proof fn lemma_requested_beats_approved(node: PullRequestNode, viewer: Seq<char>)
    requires
        requested_of_user(node, viewer),
    ensures
        review_state_spec(opt_text(node.review_decision), requested_of_user(node, viewer))
            == ReviewState::Requested,
{
}

} // verus!

//! How a record becomes a task: its title, its external key, and its
//! priority and due offset.
use crate::derive::pr_key_text;
use crate::model::Pr;
use crate::text::{decimal_text, eq_ignore_ascii_case, eq_ignore_ascii_case_spec, push_int};
use crate::todo::Priority;
use vstd::prelude::*;

verus! {

/// `owner/repo#number by author: title`
pub open spec fn task_title_text(pr: Pr) -> Seq<char> {
    pr.owner@ + "/"@ + pr.repo@ + "#"@ + decimal_text(pr.number as int) + " by "@ + pr.author@
        + ": "@ + pr.title@
}

/// `github_pr:owner/repo#number`
pub open spec fn external_key_text(pr: Pr) -> Seq<char> {
    "github_pr:"@ + pr_key_text(pr.owner@, pr.repo@, pr.number as int)
}

/// Pull requests of the dependency-update bot, whatever the case of its login.
pub open spec fn is_renovate(author: Seq<char>) -> bool {
    eq_ignore_ascii_case_spec(author, "renovate"@) || eq_ignore_ascii_case_spec(
        author,
        "renovate-bot"@,
    ) || eq_ignore_ascii_case_spec(author, "renovate[bot]"@)
}

/// The title of the task for a record.
pub fn pr_task_title(pr: &Pr) -> (r: String)
    ensures
        r@ == task_title_text(*pr),
{
    let mut t = pr.owner.clone();
    t.append("/");
    t.append(pr.repo.as_str());
    t.append("#");
    push_int(&mut t, pr.number);
    t.append(" by ");
    t.append(pr.author.as_str());
    t.append(": ");
    t.append(pr.title.as_str());
    t
}

/// The key that identifies the task for a record across syncs.
pub fn pr_external_key(pr: &Pr) -> (r: String)
    ensures
        r@ == external_key_text(*pr),
{
    let mut k = String::from_str("github_pr:");
    k.append(pr.owner.as_str());
    k.append("/");
    k.append(pr.repo.as_str());
    k.append("#");
    push_int(&mut k, pr.number);
    assert(k@ =~= external_key_text(*pr));
    k
}

/// Whether `author` is the dependency-update bot.
pub fn is_renovate_author(author: &str) -> (r: bool)
    ensures
        r == is_renovate(author@),
{
    eq_ignore_ascii_case(author, "renovate") || eq_ignore_ascii_case(author, "renovate-bot")
        || eq_ignore_ascii_case(author, "renovate[bot]")
}

/// Priority of the task for a record and in how many days it is due:
/// dependency updates are medium and due in 30 days, everything else high
/// and due today.
pub fn classify_pr_task(pr: &Pr) -> (r: (Priority, u32))
    ensures
        r == if is_renovate(pr.author@) {
            (Priority::Medium, 30u32)
        } else {
            (Priority::High, 0u32)
        },
{
    if is_renovate_author(pr.author.as_str()) {
        (Priority::Medium, 30)
    } else {
        (Priority::High, 0)
    }
}

} // verus!

//! Settings of a sync with the code host and what a sync hands back.
use crate::model::Pr;
use vstd::prelude::*;

verus! {

/// What the text input is being used for.
#[derive(Debug, Clone, Copy, PartialEq, Eq, Structural)]
pub enum InputMode {
    Normal,
    Editing,
    EditingDue,
}

/// How to reach the code host and which pull requests to gather.
#[derive(Debug, Clone)]
pub struct GithubConfig {
    pub token: String,
    /// Another API address than the public one.
    pub api_base: Option<String>,
    /// How many days back to look.
    pub days: u64,
    pub include_team_requests: bool,
}

/// `now - days * 86400`, with the span and the result saturating at the
/// bounds of `i64`.
pub open spec fn cutoff_spec(now: int, days: int) -> int {
    let span = if days * 86400 > i64::MAX {
        i64::MAX as int
    } else {
        days * 86400
    };
    if now - span < i64::MIN {
        i64::MIN as int
    } else {
        now - span
    }
}

impl GithubConfig {
    /// The cutoff timestamp for a sync started at `now_unix`: `days` days
    /// earlier.
    pub fn cutoff_ts(&self, now_unix: i64) -> (r: i64)
        ensures
            r == cutoff_spec(now_unix as int, self.days as int),
    {
        let limit: u64 = 9223372036854775807u64 / 86400;
        let span: i64 = if self.days > limit {
            proof {
                assert(self.days * 86400 > i64::MAX) by (nonlinear_arith)
                    requires
                        self.days > limit,
                        limit == 9223372036854775807u64 / 86400,
                ;
            }
            i64::MAX
        } else {
            proof {
                assert(self.days * 86400 <= i64::MAX) by (nonlinear_arith)
                    requires
                        self.days <= limit,
                        limit == 9223372036854775807u64 / 86400,
                ;
            }
            (self.days * 86400) as i64
        };
        if now_unix < i64::MIN + span {
            i64::MIN
        } else {
            now_unix - span
        }
    }
}

/// The outcome of one sync: the records, or a description of the failure.
#[derive(Debug)]
pub struct SyncOutcome {
    pub result: Result<Vec<Pr>, String>,
}

} // verus!

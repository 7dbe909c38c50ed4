//! Task priorities and the shorthand tokens that set them.
use crate::text::str_eq;
use vstd::prelude::*;

verus! {

/// Task priority; `High` sorts first.
#[derive(Debug, Clone, Copy, PartialEq, Eq, PartialOrd, Ord, Hash, Structural)]
pub enum Priority {
    High,
    Medium,
    Low,
}

impl Priority {
    /// Priority of a numeric level: 1 is high, 3 is low, anything else medium.
    pub fn from_level(level: u8) -> (r: Self)
        ensures
            r == (if level == 1 {
                Priority::High
            } else if level == 3 {
                Priority::Low
            } else {
                Priority::Medium
            }),
    {
        if level == 1 {
            Priority::High
        } else if level == 3 {
            Priority::Low
        } else {
            Priority::Medium
        }
    }
}

pub open spec fn is_one_of(t: Seq<char>, words: Seq<Seq<char>>) -> bool {
    exists|i: int| 0 <= i < words.len() && words[i] == t
}

pub open spec fn high_words() -> Seq<Seq<char>> {
    seq!["p1"@, "p:1"@, "!"@, "high"@, "h"@, "hi"@]
}

pub open spec fn low_words() -> Seq<Seq<char>> {
    seq!["p3"@, "p:3"@, "!!!"@, "low"@, "l"@]
}

pub open spec fn medium_words() -> Seq<Seq<char>> {
    seq!["p2"@, "p:2"@, "!!"@, "m"@, "med"@, "mid"@, "medium"@]
}

/// The priority a lower-case token names, if any.
pub open spec fn priority_of_token(t: Seq<char>) -> Option<Priority> {
    if is_one_of(t, high_words()) {
        Some(Priority::High)
    } else if is_one_of(t, low_words()) {
        Some(Priority::Low)
    } else if is_one_of(t, medium_words()) {
        Some(Priority::Medium)
    } else {
        None
    }
}

fn token_in(token: &str, words: &[&str]) -> (r: bool)
    ensures
        r == exists|i: int| 0 <= i < words@.len() && words@[i]@ == token@,
{
    let mut i: usize = 0;
    while i < words.len()
        invariant
            i <= words@.len(),
            forall|j: int| 0 <= j < i ==> words@[j]@ != token@,
        decreases words@.len() - i,
    {
        if str_eq(words[i], token) {
            return true;
        }
        i = i + 1;
    }
    false
}

/// The priority a lower-case shorthand token names: `p1`, `p:1`, `!`,
/// `high`, `h`, `hi` for high; `p3`, `p:3`, `!!!`, `low`, `l` for low;
/// `p2`, `p:2`, `!!`, `m`, `med`, `mid`, `medium` for medium.
pub fn parse_priority_token(token: &str) -> (r: Option<Priority>)
    ensures
        r == priority_of_token(token@),
{
    let high: [&str; 6] = ["p1", "p:1", "!", "high", "h", "hi"];
    let low: [&str; 5] = ["p3", "p:3", "!!!", "low", "l"];
    let medium: [&str; 7] = ["p2", "p:2", "!!", "m", "med", "mid", "medium"];
    let ghost hw = high_words();
    let ghost lw = low_words();
    let ghost mw = medium_words();
    assert(high@.map_values(|w: &str| w@) =~= hw);
    assert(low@.map_values(|w: &str| w@) =~= lw);
    assert(medium@.map_values(|w: &str| w@) =~= mw);
    let in_high = token_in(token, high.as_slice());
    proof {
        if in_high {
            let i = choose|i: int| 0 <= i < high@.len() && high@[i]@ == token@;
            assert(hw[i] == high@.map_values(|w: &str| w@)[i]);
        }
        if is_one_of(token@, hw) {
            let i = choose|i: int| 0 <= i < hw.len() && hw[i] == token@;
            assert(hw[i] == high@.map_values(|w: &str| w@)[i]);
        }
    }
    if in_high {
        return Some(Priority::High);
    }
    let in_low = token_in(token, low.as_slice());
    proof {
        if in_low {
            let i = choose|i: int| 0 <= i < low@.len() && low@[i]@ == token@;
            assert(lw[i] == low@.map_values(|w: &str| w@)[i]);
        }
        if is_one_of(token@, lw) {
            let i = choose|i: int| 0 <= i < lw.len() && lw[i] == token@;
            assert(lw[i] == low@.map_values(|w: &str| w@)[i]);
        }
    }
    if in_low {
        return Some(Priority::Low);
    }
    let in_medium = token_in(token, medium.as_slice());
    proof {
        if in_medium {
            let i = choose|i: int| 0 <= i < medium@.len() && medium@[i]@ == token@;
            assert(mw[i] == medium@.map_values(|w: &str| w@)[i]);
        }
        if is_one_of(token@, mw) {
            let i = choose|i: int| 0 <= i < mw.len() && mw[i] == token@;
            assert(mw[i] == medium@.map_values(|w: &str| w@)[i]);
        }
    }
    if in_medium {
        Some(Priority::Medium)
    } else {
        None
    }
}

} // verus!

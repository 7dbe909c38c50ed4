//! Proleptic Gregorian calendar arithmetic anchored at 1970-01-01.
//!
//! Years are counted from March so that the leap day is the last day of a
//! year; a 400-year era holds exactly 146097 days.
use vstd::arithmetic::div_mod::lemma_fundamental_div_mod_converse;
use vstd::prelude::*;

verus! {

/// Days from 0000-03-01 to 1970-01-01.
pub const EPOCH_SHIFT: i64 = 719468;

/// Days in one 400-year era.
pub const DAYS_PER_ERA: i64 = 146097;

/// The day count of 2147483647-12-31, the last date whose year fits an `i32`.
pub const MAX_CIVIL_DAYS: i64 = 784351576776;

pub open spec fn is_leap_year(y: int) -> bool {
    (y % 4 == 0 && y % 100 != 0) || y % 400 == 0
}

pub open spec fn days_in_month(y: int, m: int) -> int {
    if m == 2 {
        if is_leap_year(y) {
            29
        } else {
            28
        }
    } else if m == 4 || m == 6 || m == 9 || m == 11 {
        30
    } else {
        31
    }
}

/// A real calendar date: the day exists in that month of that year.
pub open spec fn is_valid_date(y: int, m: int, d: int) -> bool {
    1 <= m <= 12 && 1 <= d <= days_in_month(y, m)
}

/// Month counted from March: March is 0, February is 11.
pub open spec fn march_month(m: int) -> int {
    if m > 2 {
        m - 3
    } else {
        m + 9
    }
}

/// First day of a March-based month within its year.
pub open spec fn month_start(mp: int) -> int {
    (153 * mp + 2) / 5
}

/// First day of year `yoe` (0..=400) within its era.
pub open spec fn era_day(yoe: int) -> int {
    365 * yoe + yoe / 4 - yoe / 100 + yoe / 400
}

/// Day count since 1970-01-01 of a (year, month, day) triple.
pub open spec fn days_from_civil_spec(y: int, m: int, d: int) -> int {
    let y1 = if m <= 2 {
        y - 1
    } else {
        y
    };
    (y1 / 400) * 146097 + era_day(y1 % 400) + month_start(march_month(m)) + d - 1 - 719468
}

/// Year of era that holds day `doe` of the era.
pub open spec fn year_of_era(doe: int) -> int {
    (doe - doe / 1460 + doe / 36524 - doe / 146096) / 365
}

/// The (year, month, day) triple of a day count since 1970-01-01.
pub open spec fn civil_of_days(days: int) -> (int, int, int) {
    let z = days + 719468;
    let era = z / 146097;
    let doe = z % 146097;
    let yoe = year_of_era(doe);
    let doy = doe - era_day(yoe);
    let mp = (5 * doy + 2) / 153;
    let d = doy - month_start(mp) + 1;
    let m = if mp < 10 {
        mp + 3
    } else {
        mp - 9
    };
    (era * 400 + yoe + if m <= 2 {
        1int
    } else {
        0int
    }, m, d)
}

/// Whether the March-based year `yoe` of an era ends with a leap day.
pub open spec fn era_year_is_long(yoe: int) -> bool {
    is_leap_year(yoe + 1)
}

pub open spec fn era_year_len(yoe: int) -> int {
    if era_year_is_long(yoe) {
        366
    } else {
        365
    }
}

proof fn lemma_year_of_era(yoe: int, doy: int)
    requires
        0 <= yoe < 400,
        0 <= doy < era_year_len(yoe),
    ensures
        year_of_era(era_day(yoe) + doy) == yoe,
{
    let a = yoe / 100;
    let r = yoe % 100;
    let b = r / 4;
    let c = r % 4;
    assert(yoe == 100 * a + 4 * b + c);
    lemma_fundamental_div_mod_converse(yoe, 4, 25 * a + b, c);
    lemma_fundamental_div_mod_converse(yoe, 100, a, r);
    lemma_fundamental_div_mod_converse(yoe, 400, 0, yoe);
    lemma_fundamental_div_mod_converse(yoe + 1, 4, 25 * a + b + (c + 1) / 4, (c + 1) % 4);
    assert(era_year_is_long(yoe) <==> (c == 3 && (b != 24 || a == 3))) by {
        if c == 3 {
            lemma_fundamental_div_mod_converse(yoe + 1, 100, a + (b + 1) / 25, 4 * ((b + 1) % 25));
            lemma_fundamental_div_mod_converse(yoe + 1, 400, (yoe + 1) / 400, (yoe + 1) % 400);
        }
    }
    let doe = era_day(yoe) + doy;
    assert(doe == 36524 * a + 1461 * b + 365 * c + doy);
    let rest = 24 * a + b + 365 * c + doy;
    let t: int = if rest >= 1460 {
        1
    } else {
        0
    };
    lemma_fundamental_div_mod_converse(doe, 1460, 25 * a + b + t, rest - 1460 * t);
    let e: int = if doe == 146096 {
        1
    } else {
        0
    };
    lemma_fundamental_div_mod_converse(doe, 36524, a + e, doe - 36524 * (a + e));
    lemma_fundamental_div_mod_converse(doe, 146096, e, doe - 146096 * e);
    lemma_fundamental_div_mod_converse(
        doe - doe / 1460 + doe / 36524 - doe / 146096,
        365,
        yoe,
        doy - t,
    );
}

proof fn lemma_month_starts()
    ensures
        month_start(0) == 0,
        month_start(1) == 31,
        month_start(2) == 61,
        month_start(3) == 92,
        month_start(4) == 122,
        month_start(5) == 153,
        month_start(6) == 184,
        month_start(7) == 214,
        month_start(8) == 245,
        month_start(9) == 275,
        month_start(10) == 306,
        month_start(11) == 337,
        month_start(12) == 367,
{
}

proof fn lemma_month_of_day(mp: int, doy: int)
    requires
        0 <= mp < 12,
        month_start(mp) <= doy < month_start(mp + 1),
    ensures
        (5 * doy + 2) / 153 == mp,
{
    lemma_fundamental_div_mod_converse(5 * doy + 2, 153, mp, 5 * doy + 2 - 153 * mp);
}

/// Leap years repeat every 400 years.
proof fn lemma_leap_period(x: int, k: int)
    ensures
        is_leap_year(x + 400 * k) == is_leap_year(x),
{
    lemma_fundamental_div_mod_converse(x + 400 * k, 4, x / 4 + 100 * k, x % 4);
    lemma_fundamental_div_mod_converse(x + 400 * k, 100, x / 100 + 4 * k, x % 100);
    lemma_fundamental_div_mod_converse(x + 400 * k, 400, x / 400 + k, x % 400);
}

/// Converting a real date to a day count and back gives the same date.
pub proof fn lemma_civil_round_trip(y: int, m: int, d: int)
    requires
        is_valid_date(y, m, d),
    ensures
        civil_of_days(days_from_civil_spec(y, m, d)) == (y, m, d),
{
    lemma_month_starts();
    let y1 = if m <= 2 {
        y - 1
    } else {
        y
    };
    let era = y1 / 400;
    let yoe = y1 % 400;
    let mp = march_month(m);
    let doy = month_start(mp) + d - 1;
    lemma_leap_period(yoe + 1, era);
    assert(y1 + 1 == yoe + 1 + 400 * era);
    assert(doy < era_year_len(yoe));
    lemma_year_of_era(yoe, doy);
    lemma_fundamental_div_mod_converse(yoe, 400, 0, yoe);
    let doe = era_day(yoe) + doy;
    let z = days_from_civil_spec(y, m, d) + 719468;
    assert(z == era * 146097 + doe);
    lemma_fundamental_div_mod_converse(z, 146097, era, doe);
    lemma_month_of_day(mp, doy);
}

/// Each year of an era starts where the previous one ends.
proof fn lemma_era_day_step(yoe: int)
    requires
        0 <= yoe < 400,
    ensures
        era_day(yoe + 1) == era_day(yoe) + era_year_len(yoe),
{
    let s4: int = if yoe % 4 == 3 {
        1
    } else {
        0
    };
    let s100: int = if yoe % 100 == 99 {
        1
    } else {
        0
    };
    let s400: int = if yoe % 400 == 399 {
        1
    } else {
        0
    };
    lemma_fundamental_div_mod_converse(yoe + 1, 4, yoe / 4 + s4, (yoe % 4 + 1) - 4 * s4);
    lemma_fundamental_div_mod_converse(yoe + 1, 100, yoe / 100 + s100, (yoe % 100 + 1) - 100 * s100);
    lemma_fundamental_div_mod_converse(yoe + 1, 400, yoe / 400 + s400, (yoe % 400 + 1) - 400 * s400);
    lemma_fundamental_div_mod_converse(yoe, 100, yoe / 100, yoe % 100);
    lemma_fundamental_div_mod_converse(yoe, 4, yoe / 4, yoe % 4);
    if s100 == 1 {
        lemma_fundamental_div_mod_converse(yoe % 100, 4, (yoe % 100) / 4, (yoe % 100) % 4);
        lemma_fundamental_div_mod_converse(yoe, 4, 25 * (yoe / 100) + 24, 3);
    }
    if s400 == 1 {
        lemma_fundamental_div_mod_converse(yoe, 100, 3, 99);
    }
}

/// Finds the year of an era that holds day `doe`, searching from year `y`.
proof fn lemma_find_year(doe: int, y: int) -> (r: int)
    requires
        0 <= y < 400,
        era_day(y) <= doe < 146097,
    ensures
        0 <= r < 400,
        era_day(r) <= doe < era_day(r) + era_year_len(r),
    decreases 400 - y,
{
    lemma_era_day_step(y);
    if doe < era_day(y) + era_year_len(y) {
        y
    } else {
        assert(y + 1 < 400);
        lemma_find_year(doe, y + 1)
    }
}

/// Finds the March-based month that holds day `doy` of a year, searching from `mp`.
proof fn lemma_find_month(doy: int, mp: int) -> (r: int)
    requires
        0 <= mp < 12,
        month_start(mp) <= doy < 367,
    ensures
        0 <= r < 12,
        month_start(r) <= doy < month_start(r + 1),
    decreases 12 - mp,
{
    lemma_month_starts();
    if doy < month_start(mp + 1) {
        mp
    } else {
        lemma_find_month(doy, mp + 1)
    }
}

/// Every day count is the day count of a real date, and that date is the
/// one `civil_of_days` gives.
pub proof fn lemma_civil_of_days_valid(days: int)
    ensures
        is_valid_date(civil_of_days(days).0, civil_of_days(days).1, civil_of_days(days).2),
        days_from_civil_spec(civil_of_days(days).0, civil_of_days(days).1, civil_of_days(days).2)
            == days,
        days >= 0 ==> civil_of_days(days).0 >= 0,
{
    lemma_month_starts();
    let z = days + 719468;
    let era = z / 146097;
    let doe = z % 146097;
    lemma_fundamental_div_mod_converse(0, 400, 0, 0);
    let yoe = lemma_find_year(doe, 0);
    let doy = doe - era_day(yoe);
    let mp = lemma_find_month(doy, 0);
    let d = doy - month_start(mp) + 1;
    let m = if mp < 10 {
        mp + 3
    } else {
        mp - 9
    };
    let y = era * 400 + yoe + if m <= 2 {
        1int
    } else {
        0int
    };
    lemma_leap_period(yoe + 1, era);
    assert(march_month(m) == mp);
    assert(is_valid_date(y, m, d));
    let y1 = era * 400 + yoe;
    lemma_fundamental_div_mod_converse(y1, 400, era, yoe);
    assert(days_from_civil_spec(y, m, d) == days);
    lemma_civil_round_trip(y, m, d);
}

/// A real date in a year past `i32::MAX` lies beyond `MAX_CIVIL_DAYS`.
proof fn lemma_year_bound(y: int, m: int, d: int)
    requires
        is_valid_date(y, m, d),
        days_from_civil_spec(y, m, d) <= MAX_CIVIL_DAYS,
    ensures
        y <= i32::MAX,
{
    lemma_month_starts();
    if y > i32::MAX {
        let y1 = if m <= 2 {
            y - 1
        } else {
            y
        };
        let era = y1 / 400;
        let yoe = y1 % 400;
        lemma_fundamental_div_mod_converse(y1, 400, era, yoe);
        lemma_fundamental_div_mod_converse(yoe, 4, yoe / 4, yoe % 4);
        lemma_fundamental_div_mod_converse(yoe, 100, yoe / 100, yoe % 100);
        lemma_fundamental_div_mod_converse(yoe, 400, 0, yoe);
        if era == 5368709 {
            assert(yoe >= 47);
            if yoe == 47 {
                assert(m <= 2);
            }
        }
    }
}

/// Day counts of years with at most four digits stay within five million.
pub proof fn lemma_days_bound(y: int, m: int, d: int)
    requires
        -10000 < y < 10000,
        1 <= m <= 12,
        1 <= d <= 31,
    ensures
        -5000000 <= days_from_civil_spec(y, m, d) <= 5000000,
{
    let y1 = if m <= 2 {
        y - 1
    } else {
        y
    };
    lemma_fundamental_div_mod_converse(y1, 400, y1 / 400, y1 % 400);
    let yoe = y1 % 400;
    lemma_fundamental_div_mod_converse(yoe, 4, yoe / 4, yoe % 4);
    lemma_fundamental_div_mod_converse(yoe, 100, yoe / 100, yoe % 100);
    lemma_fundamental_div_mod_converse(yoe, 400, 0, yoe);
    lemma_month_starts();
}

/// Day count since 1970-01-01 of a (year, month, day) triple; `None` when the
/// month is outside 1..=12 or the day outside 1..=31. The day is not checked
/// against the length of the month.
pub fn days_from_civil(year: i32, month: i32, day: i32) -> (r: Option<i64>)
    ensures
        r.is_some() <==> (1 <= month <= 12 && 1 <= day <= 31),
        r matches Some(n) ==> n == days_from_civil_spec(year as int, month as int, day as int),
{
    if month < 1 || month > 12 || day < 1 || day > 31 {
        return None;
    }
    let y1: i64 = year as i64 - if month <= 2 {
        1i64
    } else {
        0i64
    };
    let era: i64 = if y1 >= 0 {
        y1 / 400
    } else {
        -((399 - y1) / 400)
    };
    let yoe: i64 = y1 - era * 400;
    proof {
        if y1 < 0 {
            let w = 399 - y1;
            lemma_fundamental_div_mod_converse(w, 400, w / 400, w % 400);
        }
        lemma_fundamental_div_mod_converse(y1 as int, 400, era as int, yoe as int);
    }
    let m: i64 = month as i64;
    let mp: i64 = if m > 2 {
        m - 3
    } else {
        m + 9
    };
    let doy: i64 = (153 * mp + 2) / 5 + day as i64 - 1;
    let doe: i64 = yoe * 365 + yoe / 4 - yoe / 100 + doy;
    proof {
        lemma_fundamental_div_mod_converse(yoe as int, 400, 0, yoe as int);
    }
    Some(era * DAYS_PER_ERA + doe - EPOCH_SHIFT)
}

/// The date of a day count since 1970-01-01; `None` for a negative count and
/// for one whose year does not fit an `i32`.
pub fn civil_from_days(days: i64) -> (r: Option<(i32, u32, u32)>)
    ensures
        r.is_some() <==> (0 <= days <= MAX_CIVIL_DAYS),
        r matches Some((y, m, d)) ==> {
            &&& (y as int, m as int, d as int) == civil_of_days(days as int)
            &&& y >= 0
            &&& is_valid_date(y as int, m as int, d as int)
            &&& days_from_civil_spec(y as int, m as int, d as int) == days
        },
{
    if days < 0 || days > MAX_CIVIL_DAYS {
        return None;
    }
    let z: i64 = days + EPOCH_SHIFT;
    let era: i64 = z / DAYS_PER_ERA;
    let doe: i64 = z - era * DAYS_PER_ERA;
    let yoe: i64 = (doe - doe / 1460 + doe / 36524 - doe / 146096) / 365;
    let doy: i64 = doe - (365 * yoe + yoe / 4 - yoe / 100);
    let mp: i64 = (5 * doy + 2) / 153;
    let d: i64 = doy - (153 * mp + 2) / 5 + 1;
    let m: i64 = if mp < 10 {
        mp + 3
    } else {
        mp - 9
    };
    let y: i64 = yoe + era * 400 + if m <= 2 {
        1i64
    } else {
        0i64
    };
    proof {
        lemma_fundamental_div_mod_converse(z as int, 146097, era as int, doe as int);
        lemma_civil_of_days_valid(days as int);
        lemma_fundamental_div_mod_converse(yoe as int, 400, 0, yoe as int);
        lemma_year_bound(y as int, m as int, d as int);
    }
    Some((y as i32, m as u32, d as u32))
}

/// The UTC date of a unix timestamp; `None` before the epoch and past the
/// last date whose year fits an `i32`.
pub fn unix_to_ymd(ts: i64) -> (r: Option<(i32, u32, u32)>)
    ensures
        r.is_some() <==> (0 <= ts && ts / 86400 <= MAX_CIVIL_DAYS),
        r matches Some((y, m, d)) ==> {
            &&& (y as int, m as int, d as int) == civil_of_days(ts / 86400)
            &&& y >= 0
            &&& is_valid_date(y as int, m as int, d as int)
            &&& days_from_civil_spec(y as int, m as int, d as int) == ts / 86400
        },
{
    if ts < 0 {
        return None;
    }
    let days: i64 = ts / 86400;
    civil_from_days(days)
}

} // verus!

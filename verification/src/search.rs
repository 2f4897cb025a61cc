//! Search results from the catalogue service, and the choice of the best
//! candidate when adding a series by title.

use vstd::prelude::*;
use vstd::arithmetic::div_mod::{
    lemma_div_is_ordered, lemma_div_plus_one, lemma_fundamental_div_mod,
    lemma_fundamental_div_mod_converse_div, lemma_hoist_over_denominator, lemma_mod_bound,
    lemma_mod_multiples_basic,
};
use crate::dates::{spec_day_number, spec_days_in_month, Date, OptionalDate};
use crate::series::SeriesId;
use crate::text::str_eq;

verus! {

/// One page of search results.
#[derive(Debug)]
pub struct SearchResults<T> {
    pub page: i32,
    pub results: Vec<T>,
    pub total_pages: i32,
    pub total_results: i32,
}

/// One series as a search lists it.
#[derive(Debug)]
pub struct SeriesFound {
    pub id: SeriesId,
    /// Title
    pub name: String,
    pub overview: String,
    pub first_air_date: OptionalDate,
}

/// Date order, later dates being greater.
pub open spec fn spec_date_le(a: Date, b: Date) -> bool {
    ||| a.year < b.year
    ||| (a.year == b.year && a.month < b.month)
    ||| (a.year == b.year && a.month == b.month && a.day <= b.day)
}

/// Order on optional dates: an unknown date sorts before every known one.
pub open spec fn spec_opt_date_le(a: OptionalDate, b: OptionalDate) -> bool {
    match (a.0, b.0) {
        (None, _) => true,
        (Some(_), None) => false,
        (Some(x), Some(y)) => spec_date_le(x, y),
    }
}

/// Executable form of `spec_opt_date_le`.
pub fn opt_date_le(a: &OptionalDate, b: &OptionalDate) -> (r: bool)
    ensures
        r == spec_opt_date_le(*a, *b),
{
    match (a.0, b.0) {
        (None, _) => true,
        (Some(_), None) => false,
        (Some(x), Some(y)) => {
            if x.year != y.year {
                x.year < y.year
            } else if x.month != y.month {
                x.month < y.month
            } else {
                x.day <= y.day
            }
        },
    }
}

/// Whether a candidate takes part in the choice: when some candidate's
/// name matches the searched title exactly, only the exact matches do;
/// otherwise all do.
pub open spec fn spec_candidate_eligible(
    candidates: Seq<SeriesFound>,
    title: Seq<char>,
    i: int,
) -> bool {
    if exists|j: int| 0 <= j < candidates.len() && (#[trigger] candidates[j].name)@ == title {
        candidates[i].name@ == title
    } else {
        true
    }
}

/// Picks the candidate a by-title add settles on: among the eligible
/// candidates (exact name matches when there are any), the one released
/// most recently — unknown release dates sorting first — and of equally
/// dated candidates the one listed last.
pub fn select_best_candidate(candidates: &Vec<SeriesFound>, title: &str) -> (r: Option<usize>)
    ensures
        match r {
            None => candidates@.len() == 0,
            Some(i) => {
                &&& i < candidates@.len()
                &&& spec_candidate_eligible(candidates@, title@, i as int)
                &&& forall|j: int|
                    0 <= j < candidates@.len() && spec_candidate_eligible(candidates@, title@, j)
                        ==> spec_opt_date_le(
                        (#[trigger] candidates@[j]).first_air_date,
                        candidates@[i as int].first_air_date,
                    )
                &&& forall|j: int|
                    (i as int) < j < candidates@.len() && spec_candidate_eligible(
                        candidates@,
                        title@,
                        j,
                    ) ==> !spec_opt_date_le(
                        candidates@[i as int].first_air_date,
                        (#[trigger] candidates@[j]).first_air_date,
                    )
            },
        },
{
    if candidates.len() == 0 {
        return None;
    }

    // whether any candidate's name matches the title exactly
    let mut exact = false;
    let mut j: usize = 0;
    while j < candidates.len()
        invariant
            j <= candidates@.len(),
            exact == exists|k: int|
                0 <= k < j && (#[trigger] candidates@[k].name)@ == title@,
        decreases candidates@.len() - j,
    {
        if str_eq(candidates[j].name.as_str(), title) {
            exact = true;
            proof {
                assert(candidates@[j as int].name@ == title@);
            }
        }
        j = j + 1;
    }

    let ghost any_exact = exists|k: int|
        0 <= k < candidates@.len() && (#[trigger] candidates@[k].name)@ == title@;

    let mut best: Option<usize> = None;
    let mut i: usize = 0;
    while i < candidates.len()
        invariant
            i <= candidates@.len(),
            exact == any_exact,
            any_exact == exists|k: int|
                0 <= k < candidates@.len() && (#[trigger] candidates@[k].name)@ == title@,
            match best {
                None => forall|j2: int|
                    0 <= j2 < i ==> !spec_candidate_eligible(candidates@, title@, j2),
                Some(b) => {
                    &&& (b as int) < i
                    &&& i <= candidates@.len()
                    &&& spec_candidate_eligible(candidates@, title@, b as int)
                    &&& forall|j2: int|
                        0 <= j2 < i && spec_candidate_eligible(candidates@, title@, j2)
                            ==> spec_opt_date_le(
                            (#[trigger] candidates@[j2]).first_air_date,
                            candidates@[b as int].first_air_date,
                        )
                    &&& forall|j2: int|
                        (b as int) < j2 < i && spec_candidate_eligible(candidates@, title@, j2)
                            ==> !spec_opt_date_le(
                            candidates@[b as int].first_air_date,
                            (#[trigger] candidates@[j2]).first_air_date,
                        )
                },
            },
        decreases candidates@.len() - i,
    {
        let eligible = if exact {
            str_eq(candidates[i].name.as_str(), title)
        } else {
            true
        };
        proof {
            assert(eligible == spec_candidate_eligible(candidates@, title@, i as int));
        }
        if eligible {
            let take = match best {
                None => true,
                Some(b) => opt_date_le(
                    &candidates[b].first_air_date,
                    &candidates[i].first_air_date,
                ),
            };
            if take {
                best = Some(i);
            }
        }
        i = i + 1;
    }

    match best {
        Some(b) => Some(b),
        None => {
            proof {
                // some candidate is always eligible: with exact matches
                // the matching one, otherwise any
                if any_exact {
                    let k = choose|k: int|
                        0 <= k < candidates@.len() && (#[trigger] candidates@[k].name)@ == title@;
                    assert(spec_candidate_eligible(candidates@, title@, k));
                } else {
                    assert(spec_candidate_eligible(candidates@, title@, 0));
                }
                assert(false);
            }
            None
        },
    }
}

// What follows relates the date order used above to the day counting the
// schedule is stated over: a later calendar day never has a smaller day
// number.
/// The civil year a date belongs to for day counting: January and
/// February count with the preceding year, so every leap day falls at a
/// civil year's end.
pub open spec fn civil_year_of(dt: Date) -> int {
    if dt.month <= 2 {
        dt.year - 1
    } else {
        dt.year as int
    }
}

/// The month's position within its civil year: March is 0, February 11.
pub open spec fn civil_month_of(dt: Date) -> int {
    if dt.month > 2 {
        dt.month - 3
    } else {
        dt.month + 9
    }
}

/// How many leap days civil years 0 to `yy - 1` contain in all.
pub open spec fn leap_count(yy: int) -> int {
    yy / 4 - yy / 100 + yy / 400
}

/// Days from civil year 0's start to civil year `yy`'s start.
pub open spec fn civil_year_days(yy: int) -> int {
    365 * yy + leap_count(yy)
}

/// The day's position within its civil year.
pub open spec fn civil_doy_of(dt: Date) -> int {
    (153 * civil_month_of(dt) + 2) / 5 + dt.day - 1
}

/// The day number splits into a per-civil-year part and a day-of-year
/// part.
proof fn lemma_day_number_decompose(dt: Date)
    requires
        dt.valid(),
    ensures
        dt.day_number() == civil_year_days(civil_year_of(dt)) + civil_doy_of(dt) - 719468,
{
    let yy = civil_year_of(dt);
    let era = yy / 400;
    let yoe = yy - era * 400;
    assert(yoe / 4 + 100 * era == yy / 4) by {
        lemma_hoist_over_denominator(yoe, 100 * era, 4nat);
        assert(yoe + (100 * era) * 4 == yy);
    }
    assert(yoe / 100 + 4 * era == yy / 100) by {
        lemma_hoist_over_denominator(yoe, 4 * era, 100nat);
        assert(yoe + (4 * era) * 100 == yy);
    }
}

/// A quotient by a positive divisor grows by at most one per unit.
proof fn lemma_div_step(x: int, d: int)
    requires
        d > 0,
    ensures
        x / d <= (x + 1) / d <= x / d + 1,
{
    lemma_div_is_ordered(x, x + 1, d);
    lemma_div_is_ordered(x + 1, x + d, d);
    lemma_div_plus_one(x, d);
}

/// The quotient steps only at a multiple of the divisor.
proof fn lemma_div_step_multiple(x: int, d: int)
    requires
        d > 0,
        (x + 1) / d == x / d + 1,
    ensures
        (x + 1) % d == 0,
{
    lemma_fundamental_div_mod(x, d);
    lemma_fundamental_div_mod(x + 1, d);
    lemma_mod_bound(x, d);
    lemma_mod_bound(x + 1, d);
    assert(d * (x / d + 1) == d * (x / d) + d) by (nonlinear_arith);
}

/// At a multiple of the divisor the quotient has stepped.
proof fn lemma_div_at_multiple(x: int, d: int)
    requires
        d > 0,
        (x + 1) % d == 0,
    ensures
        (x + 1) / d == x / d + 1,
{
    let q = (x + 1) / d;
    lemma_fundamental_div_mod(x + 1, d);
    assert(x == (q - 1) * d + (d - 1)) by (nonlinear_arith)
        requires
            x + 1 == d * q,
    ;
    lemma_fundamental_div_mod_converse_div(x, d, q - 1, d - 1);
}

/// From one civil year to the next, the day count grows by 365 or 366.
proof fn lemma_civil_year_days_step(yy: int)
    ensures
        civil_year_days(yy) + 365 <= civil_year_days(yy + 1) <= civil_year_days(yy) + 366,
{
    lemma_div_step(yy, 4);
    lemma_div_step(yy, 100);
    lemma_div_step(yy, 400);
    if (yy + 1) / 100 == yy / 100 + 1 {
        // a century boundary is also a fourth-year boundary
        lemma_div_step_multiple(yy, 100);
        let k = (yy + 1) / 100;
        lemma_fundamental_div_mod(yy + 1, 100);
        assert(yy + 1 == (25 * k) * 4);
        lemma_mod_multiples_basic(25 * k, 4);
        lemma_div_at_multiple(yy, 4);
    }
    if (yy + 1) / 400 == yy / 400 + 1 {
        // a four-century boundary is also a century boundary
        lemma_div_step_multiple(yy, 400);
        let k = (yy + 1) / 400;
        lemma_fundamental_div_mod(yy + 1, 400);
        assert(yy + 1 == (4 * k) * 100);
        lemma_mod_multiples_basic(4 * k, 100);
        lemma_div_at_multiple(yy, 100);
    }
}

/// Later civil years start at least 365 days per year later.
proof fn lemma_civil_year_days_ordered(y1: int, y2: int)
    requires
        y1 <= y2,
    ensures
        civil_year_days(y1) + 365 * (y2 - y1) <= civil_year_days(y2),
    decreases y2 - y1,
{
    if y1 < y2 {
        lemma_civil_year_days_step(y2 - 1);
        lemma_civil_year_days_ordered(y1, y2 - 1);
    }
}

/// The day-of-year of a valid date lies between 0 and 365.
proof fn lemma_civil_doy_bounds(dt: Date)
    requires
        dt.valid(),
    ensures
        0 <= civil_doy_of(dt) <= 365,
{
}

/// Within one civil year, an earlier month and day has a smaller
/// day-of-year: each month's days fit before the next month's start.
proof fn lemma_civil_doy_ordered(a: Date, b: Date)
    requires
        a.valid(),
        b.valid(),
        civil_year_of(a) == civil_year_of(b),
        civil_month_of(a) < civil_month_of(b) || (civil_month_of(a) == civil_month_of(b)
            && a.day <= b.day),
    ensures
        civil_doy_of(a) <= civil_doy_of(b),
{
    if civil_month_of(a) < civil_month_of(b) {
        assert(a.day <= spec_days_in_month(a.year as int, a.month as int));
        assert((153 * civil_month_of(a) + 2) / 5 + spec_days_in_month(a.year as int, a.month as int)
            <= (153 * (civil_month_of(a) + 1) + 2) / 5);
        assert((153 * (civil_month_of(a) + 1) + 2) / 5 <= (153 * civil_month_of(b) + 2) / 5) by {
            lemma_div_is_ordered(153 * (civil_month_of(a) + 1) + 2, 153 * civil_month_of(b) + 2, 5);
        }
    }
}

/// The day count respects the calendar: a date no later than another has
/// no greater day number. This ties the date order the candidate choice
/// uses to the day counting the schedule is stated over.
pub proof fn lemma_day_number_respects_order(a: Date, b: Date)
    requires
        a.valid(),
        b.valid(),
        spec_date_le(a, b),
    ensures
        a.day_number() <= b.day_number(),
{
    lemma_day_number_decompose(a);
    lemma_day_number_decompose(b);
    lemma_civil_doy_bounds(a);
    lemma_civil_doy_bounds(b);
    let ya = civil_year_of(a);
    let yb = civil_year_of(b);
    if ya < yb {
        lemma_civil_year_days_ordered(ya, yb);
    } else {
        assert(ya == yb);
        lemma_civil_doy_ordered(a, b);
    }
}

} // verus!

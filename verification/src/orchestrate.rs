//! The single-entry update step: what happens to a tracked series once a
//! fresh snapshot has been fetched for it.
//!
//! The surrounding program drives the loop: it checks eligibility with
//! `schedule::should_update`, performs the fetch and the store write,
//! and hands the fetched snapshot to `update_one_series`.

use vstd::prelude::*;
use crate::changes::{collect_series_details_changes, spec_diff, spec_has_changes, SeriesDetailsChanges};
use crate::dates::Timestamp;
use crate::series::SeriesDetails;
use crate::store::Series;

verus! {

/// Applies a freshly fetched snapshot to a tracked entry.
///
/// The fetched snapshot is compared to the stored one. When nothing
/// tracked differs, the entry is left as it was and there is nothing to
/// report. When something differs, the entry takes the new snapshot and
/// the new update timestamp, and the change set is reported.
pub fn update_one_series(
    series: &mut Series,
    new_details: SeriesDetails,
    update_timestamp: Timestamp,
) -> (r: Option<SeriesDetailsChanges>)
    requires
        old(series).wf(),
        new_details.wf(),
        new_details.id == old(series).details.id,
    ensures
        match r {
            Some(c) => {
                &&& c == spec_diff(old(series).details, new_details)
                &&& spec_has_changes(c)
                &&& final(series).details == new_details
                &&& final(series).update_timestamp == update_timestamp
                &&& final(series).tmdb_id == old(series).tmdb_id
                &&& final(series).poster_id == old(series).poster_id
                &&& final(series).title == old(series).title
                &&& final(series).first_air_date == old(series).first_air_date
                &&& final(series).wf()
            },
            None => {
                &&& !spec_has_changes(spec_diff(old(series).details, new_details))
                &&& *final(series) == *old(series)
            },
        },
{
    let changes = collect_series_details_changes(&series.details, &new_details);
    if !changes.has_any_changes() {
        return None;
    }
    series.set_details(new_details, update_timestamp);
    Some(changes)
}

} // verus!

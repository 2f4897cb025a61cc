//! Change detection between two metadata snapshots of the same series.

use vstd::prelude::*;
use crate::episode::{episode_identify_rep, EpisodeDetails};
use crate::series::{status_rep, SeriesDetails, SeriesId, SeriesStatus};
use crate::text::{append_bool, append_i64, bool_rep, int_rep};

verus! {

/// Which tracked fields differ between two snapshots of one series: one
/// optional before/after pair per field, present exactly when the field
/// changed.
#[derive(Debug)]
pub struct SeriesDetailsChanges {
    pub id: SeriesId,
    pub in_production_change: Option<(bool, bool)>,
    pub status_change: Option<(SeriesStatus, SeriesStatus)>,
    pub last_episode_change: Option<(Option<EpisodeDetails>, Option<EpisodeDetails>)>,
    pub next_episode_change: Option<(Option<EpisodeDetails>, Option<EpisodeDetails>)>,
    pub episode_count_change: Option<(i32, i32)>,
}

/// The change set that comparing `old` to `new` yields: a pair per field,
/// present exactly when the values differ. Episodes are compared by air
/// date alone, which tolerates catalogue re-numbering noise; the recorded
/// pair still holds the full episode records.
pub open spec fn spec_diff(old: SeriesDetails, new: SeriesDetails) -> SeriesDetailsChanges {
    SeriesDetailsChanges {
        id: new.id,
        in_production_change: if old.in_production != new.in_production {
            Some((old.in_production, new.in_production))
        } else {
            None
        },
        status_change: if old.status != new.status {
            Some((old.status, new.status))
        } else {
            None
        },
        last_episode_change: if old.spec_last_episode_date() != new.spec_last_episode_date() {
            Some((old.last_episode_to_air, new.last_episode_to_air))
        } else {
            None
        },
        next_episode_change: if old.spec_next_episode_date() != new.spec_next_episode_date() {
            Some((old.next_episode_to_air, new.next_episode_to_air))
        } else {
            None
        },
        episode_count_change: if old.number_of_episodes != new.number_of_episodes {
            Some((old.number_of_episodes, new.number_of_episodes))
        } else {
            None
        },
    }
}

/// Whether a change set holds at least one before/after pair.
pub open spec fn spec_has_changes(c: SeriesDetailsChanges) -> bool {
    ||| c.in_production_change is Some
    ||| c.status_change is Some
    ||| c.last_episode_change is Some
    ||| c.next_episode_change is Some
    ||| c.episode_count_change is Some
}

impl SeriesDetailsChanges {
    /// An empty change set for the given series.
    pub fn new(id: SeriesId) -> (r: SeriesDetailsChanges)
        ensures
            r.id == id,
            !spec_has_changes(r),
    {
        SeriesDetailsChanges {
            id,
            in_production_change: None,
            status_change: None,
            last_episode_change: None,
            next_episode_change: None,
            episode_count_change: None,
        }
    }

    /// Episode records held in the pairs carry valid dates.
    pub open spec fn wf(self) -> bool {
        &&& (self.last_episode_change matches Some((o, n)) ==> {
            &&& (o matches Some(ep) ==> ep.wf())
            &&& (n matches Some(ep) ==> ep.wf())
        })
        &&& (self.next_episode_change matches Some((o, n)) ==> {
            &&& (o matches Some(ep) ==> ep.wf())
            &&& (n matches Some(ep) ==> ep.wf())
        })
    }

    /// Whether at least one field changed.
    pub fn has_any_changes(&self) -> (r: bool)
        ensures
            r == spec_has_changes(*self),
    {
        self.in_production_change.is_some() || self.status_change.is_some()
            || self.last_episode_change.is_some() || self.next_episode_change.is_some()
            || self.episode_count_change.is_some()
    }
}

/// Compares two snapshots of the same series field by field.
/// The caller must have checked that both describe the same identity.
pub fn collect_series_details_changes(
    old_details: &SeriesDetails,
    new_details: &SeriesDetails,
) -> (c: SeriesDetailsChanges)
    requires
        old_details.id == new_details.id,
    ensures
        c == spec_diff(*old_details, *new_details),
{
    let mut changes = SeriesDetailsChanges::new(new_details.id);

    if old_details.in_production != new_details.in_production {
        changes.in_production_change = Some(
            (old_details.in_production, new_details.in_production),
        );
    }

    if old_details.status != new_details.status {
        changes.status_change = Some((old_details.status, new_details.status));
    }

    // Changes on other fields of the last and next episode are not reported.
    let old_last_ep_date = old_details.last_episode_date();
    let new_last_ep_date = new_details.last_episode_date();
    if !old_last_ep_date.same_as(&new_last_ep_date) {
        changes.last_episode_change = Some(
            (
                crate::series::duplicate_episode_opt(&old_details.last_episode_to_air),
                crate::series::duplicate_episode_opt(&new_details.last_episode_to_air),
            ),
        );
    }

    let old_next_ep_date = old_details.next_episode_date();
    let new_next_ep_date = new_details.next_episode_date();
    if !old_next_ep_date.same_as(&new_next_ep_date) {
        changes.next_episode_change = Some(
            (
                crate::series::duplicate_episode_opt(&old_details.next_episode_to_air),
                crate::series::duplicate_episode_opt(&new_details.next_episode_to_air),
            ),
        );
    }

    if old_details.number_of_episodes != new_details.number_of_episodes {
        changes.episode_count_change = Some(
            (old_details.number_of_episodes, new_details.number_of_episodes),
        );
    }

    changes
}

/// Comparing a snapshot to itself yields an empty change set.
pub proof fn lemma_diff_self(x: SeriesDetails)
    ensures
        !spec_has_changes(spec_diff(x, x)),
{
}

/// The change set with every before/after pair swapped.
pub open spec fn spec_swap(c: SeriesDetailsChanges) -> SeriesDetailsChanges {
    SeriesDetailsChanges {
        id: c.id,
        in_production_change: match c.in_production_change {
            Some((o, n)) => Some((n, o)),
            None => None,
        },
        status_change: match c.status_change {
            Some((o, n)) => Some((n, o)),
            None => None,
        },
        last_episode_change: match c.last_episode_change {
            Some((o, n)) => Some((n, o)),
            None => None,
        },
        next_episode_change: match c.next_episode_change {
            Some((o, n)) => Some((n, o)),
            None => None,
        },
        episode_count_change: match c.episode_count_change {
            Some((o, n)) => Some((n, o)),
            None => None,
        },
    }
}

/// Comparing in the opposite direction reports changes on exactly the
/// same fields, with each before/after pair swapped.
pub proof fn lemma_diff_symmetric(a: SeriesDetails, b: SeriesDetails)
    requires
        a.id == b.id,
    ensures
        spec_diff(b, a) == spec_swap(spec_diff(a, b)),
{
}

/// An episode record rendered for the change summary; `unknown` when there
/// is none.
pub open spec fn opt_episode_rep(ep: Option<EpisodeDetails>) -> Seq<char> {
    match ep {
        Some(details) => episode_identify_rep(details),
        None => "unknown"@,
    }
}

/// The summary line for the in-production pair; empty when unchanged.
pub open spec fn in_production_line_rep(c: SeriesDetailsChanges) -> Seq<char> {
    match c.in_production_change {
        Some((o, n)) => " - In production: "@ + bool_rep(o) + " => "@ + bool_rep(n) + "\n"@,
        None => Seq::empty(),
    }
}

/// The summary line for the status pair; empty when unchanged.
pub open spec fn status_line_rep(c: SeriesDetailsChanges) -> Seq<char> {
    match c.status_change {
        Some((o, n)) => " - Status: "@ + status_rep(o) + " => "@ + status_rep(n) + "\n"@,
        None => Seq::empty(),
    }
}

/// The summary line for the last-episode pair; empty when unchanged.
pub open spec fn last_episode_line_rep(c: SeriesDetailsChanges) -> Seq<char> {
    match c.last_episode_change {
        Some((o, n)) => " - Last episode: "@ + opt_episode_rep(o) + " => "@ + opt_episode_rep(n)
            + "\n"@,
        None => Seq::empty(),
    }
}

/// The summary line for the next-episode pair; empty when unchanged.
pub open spec fn next_episode_line_rep(c: SeriesDetailsChanges) -> Seq<char> {
    match c.next_episode_change {
        Some((o, n)) => " - Next episode: "@ + opt_episode_rep(o) + " => "@ + opt_episode_rep(n)
            + "\n"@,
        None => Seq::empty(),
    }
}

/// The summary line for the episode-count pair; empty when unchanged.
pub open spec fn episode_count_line_rep(c: SeriesDetailsChanges) -> Seq<char> {
    match c.episode_count_change {
        Some((o, n)) => " - Episode count: "@ + int_rep(o as int) + " => "@ + int_rep(n as int)
            + "\n"@,
        None => Seq::empty(),
    }
}

/// The plain-text summary of a change set: the words `no changes`, or one
/// line per changed field with its before and after values.
pub open spec fn summary_rep(c: SeriesDetailsChanges) -> Seq<char> {
    if !spec_has_changes(c) {
        "no changes"@
    } else {
        "\n"@ + in_production_line_rep(c) + status_line_rep(c) + last_episode_line_rep(c)
            + next_episode_line_rep(c) + episode_count_line_rep(c)
    }
}

fn append_opt_episode(s: &mut String, ep: &Option<EpisodeDetails>)
    requires
        ep matches Some(details) ==> details.wf(),
    ensures
        final(s)@ == old(s)@ + opt_episode_rep(*ep),
{
    match ep {
        Some(details) => {
            let r = details.identify();
            s.append(r.as_str());
        },
        None => s.append("unknown"),
    }
}

fn append_in_production_line(s: &mut String, c: &SeriesDetailsChanges)
    ensures
        final(s)@ == old(s)@ + in_production_line_rep(*c),
{
    if let Some((old_in_prod, new_in_prod)) = c.in_production_change {
        s.append(" - In production: ");
        append_bool(s, old_in_prod);
        s.append(" => ");
        append_bool(s, new_in_prod);
        s.append("\n");
        proof {
            assert(final(s)@ =~= old(s)@ + in_production_line_rep(*c));
        }
    } else {
        proof {
            assert(final(s)@ =~= old(s)@ + in_production_line_rep(*c));
        }
    }
}

fn append_status_line(s: &mut String, c: &SeriesDetailsChanges)
    ensures
        final(s)@ == old(s)@ + status_line_rep(*c),
{
    if let Some((old_status, new_status)) = c.status_change {
        s.append(" - Status: ");
        s.append(old_status.display_str());
        s.append(" => ");
        s.append(new_status.display_str());
        s.append("\n");
        proof {
            assert(final(s)@ =~= old(s)@ + status_line_rep(*c));
        }
    } else {
        proof {
            assert(final(s)@ =~= old(s)@ + status_line_rep(*c));
        }
    }
}

fn append_last_episode_line(s: &mut String, c: &SeriesDetailsChanges)
    requires
        c.wf(),
    ensures
        final(s)@ == old(s)@ + last_episode_line_rep(*c),
{
    if let Some((ref old_last_ep, ref new_last_ep)) = c.last_episode_change {
        s.append(" - Last episode: ");
        append_opt_episode(s, old_last_ep);
        s.append(" => ");
        append_opt_episode(s, new_last_ep);
        s.append("\n");
        proof {
            assert(final(s)@ =~= old(s)@ + last_episode_line_rep(*c));
        }
    } else {
        proof {
            assert(final(s)@ =~= old(s)@ + last_episode_line_rep(*c));
        }
    }
}

fn append_next_episode_line(s: &mut String, c: &SeriesDetailsChanges)
    requires
        c.wf(),
    ensures
        final(s)@ == old(s)@ + next_episode_line_rep(*c),
{
    if let Some((ref old_next_ep, ref new_next_ep)) = c.next_episode_change {
        s.append(" - Next episode: ");
        append_opt_episode(s, old_next_ep);
        s.append(" => ");
        append_opt_episode(s, new_next_ep);
        s.append("\n");
        proof {
            assert(final(s)@ =~= old(s)@ + next_episode_line_rep(*c));
        }
    } else {
        proof {
            assert(final(s)@ =~= old(s)@ + next_episode_line_rep(*c));
        }
    }
}

fn append_episode_count_line(s: &mut String, c: &SeriesDetailsChanges)
    ensures
        final(s)@ == old(s)@ + episode_count_line_rep(*c),
{
    if let Some((old_ep_count, new_ep_count)) = c.episode_count_change {
        s.append(" - Episode count: ");
        append_i64(s, old_ep_count as i64);
        s.append(" => ");
        append_i64(s, new_ep_count as i64);
        s.append("\n");
        proof {
            assert(final(s)@ =~= old(s)@ + episode_count_line_rep(*c));
        }
    } else {
        proof {
            assert(final(s)@ =~= old(s)@ + episode_count_line_rep(*c));
        }
    }
}

impl SeriesDetailsChanges {
    /// The plain-text summary of this change set.
    pub fn summary(&self) -> (r: String)
        requires
            self.wf(),
        ensures
            r@ == summary_rep(*self),
    {
        if !self.has_any_changes() {
            let mut s = String::new();
            s.append("no changes");
            proof {
                assert(s@ =~= summary_rep(*self));
            }
            return s;
        }

        let mut s = String::new();
        s.append("\n");
        append_in_production_line(&mut s, self);
        append_status_line(&mut s, self);
        append_last_episode_line(&mut s, self);
        append_next_episode_line(&mut s, self);
        append_episode_count_line(&mut s, self);
        proof {
            assert(s@ =~= summary_rep(*self));
        }
        s
    }
}

} // verus!

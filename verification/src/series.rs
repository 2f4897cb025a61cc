//! Series records as the catalogue service describes them, and the
//! production-status enumeration with its external string form.

use vstd::prelude::*;
use crate::dates::OptionalDate;
use crate::episode::{spec_episode_date, EpisodeDetails};
use crate::text::{append_i64, dec_rep, int_rep, str_eq};

verus! {

/// The catalogue service's numeric identity of a series.
#[derive(Clone, Copy, Debug, PartialEq, Eq, Structural, Hash)]
pub struct SeriesId(pub i32);

/// The production status of a series. The external string form differs
/// from the variant names for the first two variants.
#[derive(Clone, Copy, Debug, PartialEq, Eq, Structural, Hash)]
pub enum SeriesStatus {
    /// Announced but not yet released; distinct from the in-production flag.
    InProduction,
    ReturningSeries,
    Ended,
    Canceled,
}

/// The external string form of a status, as the catalogue service and the
/// store write it.
pub open spec fn status_rep(st: SeriesStatus) -> Seq<char> {
    match st {
        SeriesStatus::InProduction => "In Production"@,
        SeriesStatus::ReturningSeries => "Returning Series"@,
        SeriesStatus::Ended => "Ended"@,
        SeriesStatus::Canceled => "Canceled"@,
    }
}

impl SeriesStatus {
    /// The external string form of this status.
    pub fn display_str(&self) -> (r: &'static str)
        ensures
            r@ == status_rep(*self),
    {
        match self {
            SeriesStatus::InProduction => "In Production",
            SeriesStatus::ReturningSeries => "Returning Series",
            SeriesStatus::Ended => "Ended",
            SeriesStatus::Canceled => "Canceled",
        }
    }

    /// Whether the series is over: ended or canceled.
    pub open spec fn spec_is_over(self) -> bool {
        self == SeriesStatus::Ended || self == SeriesStatus::Canceled
    }

    /// Executable form of `spec_is_over`.
    pub fn is_over(&self) -> (r: bool)
        ensures
            r == self.spec_is_over(),
    {
        match self {
            SeriesStatus::Ended | SeriesStatus::Canceled => true,
            _ => false,
        }
    }
}

/// Parses the external string form of a status; the inverse of
/// `SeriesStatus::display_str`.
pub fn parse_series_status(s: &str) -> (r: Option<SeriesStatus>)
    ensures
        match r {
            Some(st) => s@ == status_rep(st),
            None => forall|st: SeriesStatus| s@ != status_rep(st),
        },
{
    if str_eq(s, "In Production") {
        Some(SeriesStatus::InProduction)
    } else if str_eq(s, "Returning Series") {
        Some(SeriesStatus::ReturningSeries)
    } else if str_eq(s, "Ended") {
        Some(SeriesStatus::Ended)
    } else if str_eq(s, "Canceled") {
        Some(SeriesStatus::Canceled)
    } else {
        None
    }
}

/// The four status strings name four different statuses: the string
/// mapping is a bijection, so a round trip through `display_str` and
/// `parse_series_status` gives back the status it started from.
pub proof fn lemma_status_rep_injective(a: SeriesStatus, b: SeriesStatus)
    requires
        status_rep(a) == status_rep(b),
    ensures
        a == b,
{
    reveal_strlit("In Production");
    reveal_strlit("Returning Series");
    reveal_strlit("Ended");
    reveal_strlit("Canceled");
    assert(status_rep(SeriesStatus::InProduction).len() == 13);
    assert(status_rep(SeriesStatus::ReturningSeries).len() == 16);
    assert(status_rep(SeriesStatus::Ended).len() == 5);
    assert(status_rep(SeriesStatus::Canceled).len() == 8);
}

/// What the catalogue service knows of one series.
#[derive(Debug)]
pub struct SeriesDetails {
    pub id: SeriesId,
    /// Title
    pub name: String,
    pub first_air_date: OptionalDate,
    pub number_of_seasons: i32,
    pub number_of_episodes: i32,
    pub last_episode_to_air: Option<EpisodeDetails>,
    pub next_episode_to_air: Option<EpisodeDetails>,
    pub status: SeriesStatus,
    pub in_production: bool,
    /// Path of the poster image at the catalogue service.
    pub poster_path: String,
}

/// The one-line identification of a series: its identity, title, and the
/// release year or the word `unreleased`.
pub open spec fn series_display_rep(sd: SeriesDetails) -> Seq<char> {
    match sd.first_air_date.0 {
        Some(d) => "["@ + int_rep(sd.id.0 as int) + "] "@ + sd.name@ + " ("@ + dec_rep(
            d.year as int,
        ) + ")"@,
        None => "["@ + int_rep(sd.id.0 as int) + "] "@ + sd.name@ + " (unreleased)"@,
    }
}

impl SeriesDetails {
    /// All dates carried by the record, when known, are valid dates.
    pub open spec fn wf(self) -> bool {
        &&& self.first_air_date.wf()
        &&& (self.last_episode_to_air matches Some(ep) ==> ep.wf())
        &&& (self.next_episode_to_air matches Some(ep) ==> ep.wf())
    }

    /// The air date of the last episode known to have aired.
    pub open spec fn spec_last_episode_date(self) -> OptionalDate {
        spec_episode_date(self.last_episode_to_air)
    }

    /// The air date of the next episode known to air.
    pub open spec fn spec_next_episode_date(self) -> OptionalDate {
        spec_episode_date(self.next_episode_to_air)
    }

    /// The air date of the last episode known to have aired.
    pub fn last_episode_date(&self) -> (r: OptionalDate)
        ensures
            r == self.spec_last_episode_date(),
    {
        EpisodeDetails::date_of(&self.last_episode_to_air)
    }

    /// The air date of the next episode known to air.
    pub fn next_episode_date(&self) -> (r: OptionalDate)
        ensures
            r == self.spec_next_episode_date(),
    {
        EpisodeDetails::date_of(&self.next_episode_to_air)
    }

    /// The extension of the poster image's path, when it has one.
    pub fn poster_extension(&self) -> (r: Option<&str>)
        ensures
            match r {
                Some(e) => crate::paths::spec_extension_of(self.poster_path@) == Some(e@),
                None => crate::paths::spec_extension_of(self.poster_path@) is None,
            },
    {
        crate::paths::extension_of(self.poster_path.as_str())
    }

    /// A copy equal to this record.
    pub fn duplicate(&self) -> (r: SeriesDetails)
        ensures
            r == *self,
    {
        SeriesDetails {
            id: self.id,
            name: self.name.clone(),
            first_air_date: self.first_air_date,
            number_of_seasons: self.number_of_seasons,
            number_of_episodes: self.number_of_episodes,
            last_episode_to_air: duplicate_episode_opt(&self.last_episode_to_air),
            next_episode_to_air: duplicate_episode_opt(&self.next_episode_to_air),
            status: self.status,
            in_production: self.in_production,
            poster_path: self.poster_path.clone(),
        }
    }

    /// The one-line identification of this series.
    pub fn identify(&self) -> (r: String)
        requires
            self.first_air_date.wf(),
        ensures
            r@ == series_display_rep(*self),
    {
        let mut s = String::new();
        s.append("[");
        append_i64(&mut s, self.id.0 as i64);
        s.append("] ");
        s.append(self.name.as_str());
        match self.first_air_date.0 {
            Some(d) => {
                s.append(" (");
                crate::text::append_u64(&mut s, d.year as u64);
                s.append(")");
            },
            None => {
                s.append(" (unreleased)");
            },
        }
        proof {
            assert(s@ =~= series_display_rep(*self));
        }
        s
    }
}

/// A copy equal to the given optional episode record.
pub fn duplicate_episode_opt(ep: &Option<EpisodeDetails>) -> (r: Option<EpisodeDetails>)
    ensures
        r == *ep,
{
    match ep {
        Some(details) => Some(details.duplicate()),
        None => None,
    }
}

} // verus!

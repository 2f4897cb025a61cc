//! Episode records as the catalogue service describes them.

use vstd::prelude::*;
use crate::dates::{append_opt_date, opt_date_rep, OptionalDate};
use crate::text::{append_pad2, pad2_rep, str_eq};

verus! {

/// The catalogue service's numeric identity of an episode.
#[derive(Clone, Copy, Debug, PartialEq, Eq, Structural, Hash)]
pub struct EpisodeId(pub i32);

/// How the catalogue service classifies an episode.
#[derive(Clone, Copy, Debug, PartialEq, Eq, Structural, Hash)]
pub enum EpisodeType {
    Standard,
    Finale,
}

/// The display name of an episode type.
pub open spec fn episode_type_rep(t: EpisodeType) -> Seq<char> {
    match t {
        EpisodeType::Standard => "Standard"@,
        EpisodeType::Finale => "Finale"@,
    }
}

impl EpisodeType {
    /// The display name of this episode type.
    pub fn display_str(&self) -> (r: &'static str)
        ensures
            r@ == episode_type_rep(*self),
    {
        match self {
            EpisodeType::Standard => "Standard",
            EpisodeType::Finale => "Finale",
        }
    }
}

/// Parses the display name of an episode type; the inverse of
/// `EpisodeType::display_str`.
pub fn parse_episode_type(s: &str) -> (r: Option<EpisodeType>)
    ensures
        match r {
            Some(t) => s@ == episode_type_rep(t),
            None => forall|t: EpisodeType| s@ != episode_type_rep(t),
        },
{
    if str_eq(s, "Standard") {
        Some(EpisodeType::Standard)
    } else if str_eq(s, "Finale") {
        Some(EpisodeType::Finale)
    } else {
        None
    }
}

/// What the catalogue service knows of one episode.
#[derive(Debug)]
pub struct EpisodeDetails {
    pub id: EpisodeId,
    pub season_number: i32,
    pub episode_number: i32,
    /// Title
    pub name: String,
    pub episode_type: EpisodeType,
    pub air_date: OptionalDate,
}

/// The one-line identification of an episode: season and episode numbers,
/// title and air date, with the episode type appended when it is not a
/// standard one.
pub open spec fn episode_identify_rep(ep: EpisodeDetails) -> Seq<char> {
    let base = "S"@ + pad2_rep(ep.season_number as int) + "E"@ + pad2_rep(
        ep.episode_number as int,
    ) + " "@ + ep.name@ + " on "@ + opt_date_rep(ep.air_date);
    if ep.episode_type == EpisodeType::Standard {
        base
    } else {
        base + " ("@ + episode_type_rep(ep.episode_type) + ")"@
    }
}

impl EpisodeDetails {
    /// An air date, when known, is a valid date.
    pub open spec fn wf(self) -> bool {
        self.air_date.wf()
    }

    /// A copy equal to this record.
    pub fn duplicate(&self) -> (r: EpisodeDetails)
        ensures
            r == *self,
    {
        EpisodeDetails {
            id: self.id,
            season_number: self.season_number,
            episode_number: self.episode_number,
            name: self.name.clone(),
            episode_type: self.episode_type,
            air_date: self.air_date,
        }
    }

    /// The one-line identification of this episode.
    pub fn identify(&self) -> (r: String)
        requires
            self.wf(),
        ensures
            r@ == episode_identify_rep(*self),
    {
        let mut s = String::new();
        s.append("S");
        append_pad2(&mut s, self.season_number as i64);
        s.append("E");
        append_pad2(&mut s, self.episode_number as i64);
        s.append(" ");
        s.append(self.name.as_str());
        s.append(" on ");
        append_opt_date(&mut s, &self.air_date);
        match self.episode_type {
            EpisodeType::Standard => {},
            EpisodeType::Finale => {
                s.append(" (");
                s.append(self.episode_type.display_str());
                s.append(")");
            },
        }
        proof {
            assert(s@ =~= episode_identify_rep(*self));
        }
        s
    }

    /// A copy of the air date of an optional episode record; unknown when
    /// there is no record or the record has no date.
    pub fn date_of(ep: &Option<EpisodeDetails>) -> (r: OptionalDate)
        ensures
            r == spec_episode_date(*ep),
    {
        match ep {
            Some(details) => OptionalDate(details.air_date.0),
            None => OptionalDate(None),
        }
    }
}

/// The air date of an optional episode record.
pub open spec fn spec_episode_date(ep: Option<EpisodeDetails>) -> OptionalDate {
    match ep {
        Some(details) => OptionalDate(details.air_date.0),
        None => OptionalDate(None),
    }
}

} // verus!

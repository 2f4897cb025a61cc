//! The records the persistent store keeps: tracked series rows, poster
//! images, and subscribers.

use vstd::prelude::*;
use crate::dates::{OptionalDate, Timestamp};
use crate::mime::MimeType;
use crate::series::{SeriesDetails, SeriesId, SeriesStatus};

verus! {

/// The store's numeric identity of a poster row.
#[derive(Clone, Copy, Debug, PartialEq, Eq, Structural, Hash)]
pub struct PosterId(pub i64);

/// A stored poster image: its bytes and their MIME type.
#[derive(Debug)]
pub struct Poster {
    pub id: PosterId,
    pub img_data: Vec<u8>,
    pub mime_type: MimeType,
    pub source_url: Option<String>,
}

/// A subscriber: identity, display name and address.
#[derive(Debug)]
pub struct User {
    pub id: i64,
    pub name: String,
    pub email: String,
}

impl User {
    /// A copy equal to this record.
    pub fn duplicate(&self) -> (r: User)
        ensures
            r == *self,
    {
        User { id: self.id, name: self.name.clone(), email: self.email.clone() }
    }
}

/// One tracked series as the store keeps it: denormalized columns beside
/// the full metadata snapshot.
#[derive(Debug)]
pub struct Series {
    pub tmdb_id: SeriesId,
    pub poster_id: PosterId,
    /// Title
    pub title: String,
    pub first_air_date: OptionalDate,
    pub status: SeriesStatus,
    pub in_production: bool,
    pub last_episode_air_date: OptionalDate,
    pub next_episode_air_date: OptionalDate,
    /// The full metadata snapshot of the last observation.
    pub details: SeriesDetails,
    /// When the series was last re-fetched.
    pub update_timestamp: Timestamp,
}

impl Series {
    /// The snapshot describes this row's identity, and every date held is
    /// a valid one.
    pub open spec fn wf(self) -> bool {
        &&& self.details.id == self.tmdb_id
        &&& self.details.wf()
        &&& self.first_air_date.wf()
        &&& self.last_episode_air_date.wf()
        &&& self.next_episode_air_date.wf()
    }

    /// Replaces the snapshot after a fetch: the denormalized columns, the
    /// snapshot itself and the update timestamp all take the new
    /// observation's values; identity, title, first-air date and poster
    /// reference stay.
    pub fn set_details(&mut self, new_details: SeriesDetails, update_timestamp: Timestamp)
        requires
            new_details.id == old(self).tmdb_id,
        ensures
            final(self).tmdb_id == old(self).tmdb_id,
            final(self).poster_id == old(self).poster_id,
            final(self).title == old(self).title,
            final(self).first_air_date == old(self).first_air_date,
            final(self).status == new_details.status,
            final(self).in_production == new_details.in_production,
            final(self).last_episode_air_date == new_details.spec_last_episode_date(),
            final(self).next_episode_air_date == new_details.spec_next_episode_date(),
            final(self).details == new_details,
            final(self).update_timestamp == update_timestamp,
            old(self).wf() && new_details.wf() ==> final(self).wf(),
    {
        self.in_production = new_details.in_production;
        self.status = new_details.status;
        self.last_episode_air_date = new_details.last_episode_date();
        self.next_episode_air_date = new_details.next_episode_date();
        self.details = new_details;
        self.update_timestamp = update_timestamp;
    }
}

} // verus!

//! Notification fanout: grouping changed entries by subscriber and
//! composing one message per subscriber. Sending is the surrounding
//! program's work.

use vstd::prelude::*;
use crate::changes::SeriesDetailsChanges;
use crate::dates::{date_rep, Date};
use crate::mime::MimeType;
use crate::paths::spec_extension_of;
use crate::series::SeriesId;
use crate::store::{Poster, Series, User};
use crate::text::{append_i64, int_rep};

verus! {

/// The public page of a series at the catalogue service.
pub open spec fn series_url_rep(id: SeriesId) -> Seq<char> {
    "https://www.themoviedb.org/tv/"@ + int_rep(id.0 as int)
}

/// The address of the public page of the series with the given identity.
pub fn make_series_url(id: SeriesId) -> (r: String)
    ensures
        r@ == series_url_rep(id),
{
    let mut s = String::new();
    s.append("https://www.themoviedb.org/tv/");
    append_i64(&mut s, id.0 as i64);
    proof {
        assert(s@ =~= series_url_rep(id));
    }
    s
}

/// One changed series prepared for notification: the entry, what changed,
/// its public page, and its poster.
#[derive(Debug)]
pub struct SeriesEntry {
    pub series: Series,
    pub changes: SeriesDetailsChanges,
    pub url: String,
    pub poster: Poster,
}

impl SeriesEntry {
    /// The pieces fit together: the change set belongs to the series, the
    /// url is the series' public page, the poster path has an extension
    /// to name the attachment by, and the poster's MIME type is valid.
    pub open spec fn wf(self) -> bool {
        &&& self.series.wf()
        &&& self.changes.wf()
        &&& self.changes.id == self.series.tmdb_id
        &&& self.url@ == series_url_rep(self.series.tmdb_id)
        &&& spec_extension_of(self.series.details.poster_path@) is Some
        &&& self.poster.mime_type.wf()
    }
}

/// Pairs one changed series with its poster, giving it its public page.
pub fn make_entry(series: Series, changes: SeriesDetailsChanges, poster: Poster) -> (r: SeriesEntry)
    requires
        changes.id == series.tmdb_id,
    ensures
        r.series == series,
        r.changes == changes,
        r.poster == poster,
        r.url@ == series_url_rep(series.tmdb_id),
{
    let url = make_series_url(series.tmdb_id);
    SeriesEntry { series, changes, url, poster }
}

/// The content identifier of an entry's poster attachment: the series
/// identity followed by the poster file's extension.
pub open spec fn attachment_id_rep(e: SeriesEntry) -> Seq<char> {
    int_rep(e.series.details.id.0 as int) + "."@ + spec_extension_of(
        e.series.details.poster_path@,
    ).unwrap()
}

/// The reference to an entry's poster attachment from within the message
/// body.
pub open spec fn attachment_uri_rep(e: SeriesEntry) -> Seq<char> {
    "cid:"@ + attachment_id_rep(e)
}

impl SeriesEntry {
    /// The content identifier of this entry's poster attachment.
    pub fn poster_attachment_id(&self) -> (r: String)
        requires
            self.wf(),
        ensures
            r@ == attachment_id_rep(*self),
    {
        let mut s = String::new();
        append_i64(&mut s, self.series.details.id.0 as i64);
        s.append(".");
        let ext = crate::paths::extension_of(self.series.details.poster_path.as_str()).unwrap();
        s.append(ext);
        proof {
            assert(s@ =~= attachment_id_rep(*self));
        }
        s
    }

    /// The in-body reference to this entry's poster attachment.
    pub fn poster_attachment_uri(&self) -> (r: String)
        requires
            self.wf(),
        ensures
            r@ == attachment_uri_rep(*self),
    {
        let mut s = String::new();
        s.append("cid:");
        let id = self.poster_attachment_id();
        s.append(id.as_str());
        proof {
            assert(s@ =~= attachment_uri_rep(*self));
        }
        s
    }

    /// The inline attachment carrying this entry's poster.
    pub fn create_poster_attachment(&self) -> (r: Attachment)
        requires
            self.wf(),
        ensures
            r.content_id@ == attachment_id_rep(*self),
            r.data@ == self.poster.img_data@,
            r.mime_type == self.poster.mime_type,
    {
        Attachment {
            content_id: self.poster_attachment_id(),
            data: copy_bytes(&self.poster.img_data),
            mime_type: self.poster.mime_type.duplicate(),
        }
    }
}

/// A copy of a byte vector.
fn copy_bytes(v: &Vec<u8>) -> (r: Vec<u8>)
    ensures
        r@ == v@,
{
    let mut r: Vec<u8> = Vec::new();
    let mut i: usize = 0;
    while i < v.len()
        invariant
            i <= v@.len(),
            r@ == v@.subrange(0, i as int),
        decreases v@.len() - i,
    {
        r.push(v[i]);
        i = i + 1;
        proof {
            assert(r@ =~= v@.subrange(0, i as int));
        }
    }
    proof {
        assert(r@ =~= v@);
    }
    r
}

/// One inline part of a composed message: the content identifier the body
/// refers to it by, the bytes, and their MIME type.
#[derive(Debug)]
pub struct Attachment {
    pub content_id: String,
    pub data: Vec<u8>,
    pub mime_type: MimeType,
}

/// Whether some index of `users` holds a subscriber with identity `id`.
pub open spec fn spec_has_user_id(users: Seq<User>, id: i64) -> bool {
    exists|j: int| 0 <= j < users.len() && users[j].id == id
}

/// Whether `u` is one of the subscriber records of `subscribers`.
pub open spec fn spec_user_listed(subscribers: Seq<Vec<User>>, u: User) -> bool {
    exists|a: int, b: int|
        0 <= a < subscribers.len() && 0 <= b < subscribers[a]@.len() && subscribers[a]@[b] == u
}

/// Whether some group belongs to the subscriber at `subscribers[i][j]`
/// and lists entry `i`.
pub open spec fn spec_entry_covered(
    subscribers: Seq<Vec<User>>,
    groups: Seq<(User, Vec<usize>)>,
    i: int,
    j: int,
) -> bool {
    exists|k: int|
        0 <= k < groups.len() && groups[k].0.id == subscribers[i]@[j].id && groups[k].1@.contains(
            i as usize,
        )
}

/// Whether every subscriber of every entry has a group that lists that
/// entry: nobody subscribed to a changed entry is left without a message.
pub open spec fn spec_groups_complete(
    subscribers: Seq<Vec<User>>,
    groups: Seq<(User, Vec<usize>)>,
) -> bool {
    forall|i: int, j: int|
        0 <= i < subscribers.len() && 0 <= j < subscribers[i]@.len() ==> #[trigger] spec_entry_covered(
            subscribers,
            groups,
            i,
            j,
        )
}

/// Whether `users` holds a subscriber with identity `id`.
pub fn contains_user_id(users: &Vec<User>, id: i64) -> (r: bool)
    ensures
        r == spec_has_user_id(users@, id),
{
    let mut j: usize = 0;
    while j < users.len()
        invariant
            j <= users@.len(),
            forall|k: int| 0 <= k < j ==> users@[k].id != id,
        decreases users@.len() - j,
    {
        if users[j].id == id {
            return true;
        }
        j = j + 1;
    }
    false
}

/// Inverts the entry-to-subscribers relation into one group per
/// subscriber. `subscribers` is aligned with the changed entries: its
/// element `i` lists who subscribes to entry `i`. Each subscriber with at
/// least one entry gets one group, in order of first appearance, holding
/// the indices of exactly the entries they subscribe to, in order.
/// A subscriber of none of the entries gets no group.
pub fn group_entries_by_subscriber(subscribers: &Vec<Vec<User>>) -> (r: Vec<(User, Vec<usize>)>)
    requires
        // within one entry's list, identities are distinct
        forall|i: int, a: int, b: int|
            0 <= i < subscribers@.len() && 0 <= a < b < subscribers@[i]@.len()
                ==> subscribers@[i]@[a].id != subscribers@[i]@[b].id,
    ensures
        // every group holds at least one entry
        forall|k: int| 0 <= k < r@.len() ==> #[trigger] r@[k].1@.len() > 0,
        // one group per subscriber identity
        forall|k1: int, k2: int|
            0 <= k1 < k2 < r@.len() ==> r@[k1].0.id != r@[k2].0.id,
        // groups list entry indices in increasing order
        forall|k: int, t1: int, t2: int|
            0 <= k < r@.len() && 0 <= t1 < t2 < r@[k].1@.len() ==> r@[k].1@[t1] < r@[k].1@[t2],
        // a group holds exactly the entries its subscriber subscribes to
        forall|k: int, i: int|
            0 <= k < r@.len() && 0 <= i < subscribers@.len() ==> (#[trigger] r@[k].1@.contains(
                i as usize,
            ) <==> spec_has_user_id(subscribers@[i]@, r@[k].0.id)),
        // indices held by a group point at entries
        forall|k: int, t: int|
            0 <= k < r@.len() && 0 <= t < r@[k].1@.len() ==> (#[trigger] r@[k].1@[t] as int)
                < subscribers@.len(),
        // every group's subscriber record comes from some entry's list
        forall|k: int|
            0 <= k < r@.len() ==> spec_user_listed(subscribers@, #[trigger] r@[k].0),
        // every subscriber of a changed entry has a group listing it
        spec_groups_complete(subscribers@, r@),
{
    let n = subscribers.len();
    let users = collect_subscribers(subscribers);

    // for each subscriber, in first-appearance order, the entries they
    // subscribe to
    let mut groups: Vec<(User, Vec<usize>)> = Vec::new();
    let mut k: usize = 0;
    while k < users.len()
        invariant
            k <= users@.len(),
            n == subscribers@.len(),
            groups@.len() == k,
            forall|k1: int, k2: int|
                0 <= k1 < k2 < users@.len() ==> users@[k1].id != users@[k2].id,
            forall|q: int|
                0 <= q < users@.len() ==> spec_user_listed(subscribers@, #[trigger] users@[q]),
            forall|a: int, b: int|
                0 <= a < subscribers@.len() && 0 <= b < subscribers@[a]@.len() ==> spec_has_user_id(
                    users@,
                    #[trigger] subscribers@[a]@[b].id,
                ),
            forall|q: int| 0 <= q < k ==> (#[trigger] groups@[q].0) == users@[q],
            forall|q: int, t1: int, t2: int|
                0 <= q < k && 0 <= t1 < t2 < groups@[q].1@.len() ==> groups@[q].1@[t1]
                    < groups@[q].1@[t2],
            forall|q: int, t: int|
                0 <= q < k && 0 <= t < groups@[q].1@.len() ==> (#[trigger] groups@[q].1@[t] as int)
                    < n,
            forall|q: int, i2: int|
                0 <= q < k && 0 <= i2 < n ==> (#[trigger] groups@[q].1@.contains(i2 as usize)
                    <==> spec_has_user_id(subscribers@[i2]@, groups@[q].0.id)),
        decreases users@.len() - k,
    {
        let uid = users[k].id;
        let idxs = entries_of_subscriber(subscribers, uid);
        groups.push((users[k].duplicate(), idxs));
        k = k + 1;
    }

    proof {
        lemma_groups_cover(subscribers@, users@, groups@);
    }
    groups
}

/// From the two passes' facts: every group is non-empty, and every
/// subscriber of every entry has a group listing that entry.
proof fn lemma_groups_cover(
    subscribers: Seq<Vec<User>>,
    users: Seq<User>,
    groups: Seq<(User, Vec<usize>)>,
)
    requires
        groups.len() == users.len(),
        forall|q: int| 0 <= q < users.len() ==> spec_user_listed(subscribers, #[trigger] users[q]),
        forall|a: int, b: int|
            0 <= a < subscribers.len() && 0 <= b < subscribers[a]@.len() ==> spec_has_user_id(
                users,
                (#[trigger] subscribers[a]@[b]).id,
            ),
        forall|q: int| 0 <= q < groups.len() ==> (#[trigger] groups[q].0) == users[q],
        forall|q: int, i2: int|
            0 <= q < groups.len() && 0 <= i2 < subscribers.len() ==> (#[trigger] groups[q].1@.contains(
                i2 as usize,
            ) <==> spec_has_user_id(subscribers[i2]@, groups[q].0.id)),
    ensures
        forall|k: int| 0 <= k < groups.len() ==> #[trigger] groups[k].1@.len() > 0,
        spec_groups_complete(subscribers, groups),
{
    // every group is non-empty: its subscriber appears in some entry's
    // list, and that entry's index is then in the group
    assert forall|q: int| 0 <= q < groups.len() implies #[trigger] groups[q].1@.len() > 0 by {
        assert(spec_user_listed(subscribers, users[q]));
        let (a, b) = choose|a: int, b: int|
            0 <= a < subscribers.len() && 0 <= b < subscribers[a]@.len() && subscribers[a]@[b]
                == users[q];
        assert(subscribers[a]@[b].id == groups[q].0.id);
        assert(spec_has_user_id(subscribers[a]@, groups[q].0.id));
        assert(groups[q].1@.contains(a as usize));
        assert(0 <= groups[q].1@.index_of(a as usize) < groups[q].1@.len());
    }
    // completeness: the group of the matching identity lists the entry
    assert forall|i3: int, j3: int|
        0 <= i3 < subscribers.len() && 0 <= j3 < subscribers[i3]@.len() implies #[trigger] spec_entry_covered(
        subscribers,
        groups,
        i3,
        j3,
    ) by {
        let id = subscribers[i3]@[j3].id;
        assert(spec_has_user_id(users, id));
        let q = choose|q: int| 0 <= q < users.len() && users[q].id == id;
        assert(groups[q].0.id == id);
        assert(spec_has_user_id(subscribers[i3]@, groups[q].0.id)) by {
            assert(subscribers[i3]@[j3].id == groups[q].0.id);
        }
        assert(groups[q].1@.contains(i3 as usize));
        assert(0 <= q < groups.len() && groups[q].0.id == subscribers[i3]@[j3].id
            && groups[q].1@.contains(i3 as usize));
    }
}

/// The distinct subscribers of the given per-entry lists, in order of
/// first appearance.
fn collect_subscribers(subscribers: &Vec<Vec<User>>) -> (users: Vec<User>)
    ensures
        forall|k1: int, k2: int|
            0 <= k1 < k2 < users@.len() ==> users@[k1].id != users@[k2].id,
        forall|q: int|
            0 <= q < users@.len() ==> spec_user_listed(subscribers@, #[trigger] users@[q]),
        forall|a: int, b: int|
            0 <= a < subscribers@.len() && 0 <= b < subscribers@[a]@.len() ==> spec_has_user_id(
                users@,
                #[trigger] subscribers@[a]@[b].id,
            ),
{
    let n = subscribers.len();
    let mut users: Vec<User> = Vec::new();
    let mut i: usize = 0;
    while i < n
        invariant
            i <= n,
            n == subscribers@.len(),
            forall|k1: int, k2: int|
                0 <= k1 < k2 < users@.len() ==> users@[k1].id != users@[k2].id,
            forall|q: int|
                0 <= q < users@.len() ==> spec_user_listed(subscribers@, #[trigger] users@[q]),
            forall|a: int, b: int|
                0 <= a < i && 0 <= b < subscribers@[a]@.len() ==> spec_has_user_id(
                    users@,
                    #[trigger] subscribers@[a]@[b].id,
                ),
        decreases n - i,
    {
        let subs = &subscribers[i];
        let mut j: usize = 0;
        while j < subs.len()
            invariant
                i < n,
                n == subscribers@.len(),
                j <= subs@.len(),
                subs@ == subscribers@[i as int]@,
                forall|k1: int, k2: int|
                    0 <= k1 < k2 < users@.len() ==> users@[k1].id != users@[k2].id,
                forall|q: int|
                    0 <= q < users@.len() ==> spec_user_listed(subscribers@, #[trigger] users@[q]),
                forall|a: int, b: int|
                    0 <= a < i && 0 <= b < subscribers@[a]@.len() ==> spec_has_user_id(
                        users@,
                        #[trigger] subscribers@[a]@[b].id,
                    ),
                forall|b: int| 0 <= b < j ==> spec_has_user_id(users@, #[trigger] subs@[b].id),
            decreases subs@.len() - j,
        {
            if !contains_user_id(&users, subs[j].id) {
                let ghost prev = users@;
                users.push(subs[j].duplicate());
                proof {
                    assert(users@ == prev.push(subs@[j as int]));
                    assert(users@.last() == subs@[j as int]);
                    assert forall|q: int|
                        0 <= q < users@.len() implies spec_user_listed(
                        subscribers@,
                        #[trigger] users@[q],
                    ) by {
                        if q < prev.len() {
                            assert(users@[q] == prev[q]);
                        } else {
                            assert(users@[q] == subscribers@[i as int]@[j as int]);
                        }
                    }
                    assert forall|a: int, b: int|
                        0 <= a < i && 0 <= b < subscribers@[a]@.len() implies spec_has_user_id(
                        users@,
                        #[trigger] subscribers@[a]@[b].id,
                    ) by {
                        let w = choose|w: int|
                            0 <= w < prev.len() && prev[w].id == subscribers@[a]@[b].id;
                        assert(users@[w].id == subscribers@[a]@[b].id);
                    }
                    assert forall|b: int|
                        0 <= b <= j implies spec_has_user_id(users@, #[trigger] subs@[b].id) by {
                        if b < j {
                            let w = choose|w: int| 0 <= w < prev.len() && prev[w].id == subs@[b].id;
                            assert(users@[w].id == subs@[b].id);
                        } else {
                            assert(users@[users@.len() - 1].id == subs@[b].id);
                        }
                    }
                }
            }
            j = j + 1;
        }
        i = i + 1;
    }
    users
}

/// The indices of the entries the subscriber with identity `uid`
/// subscribes to, in increasing order.
fn entries_of_subscriber(subscribers: &Vec<Vec<User>>, uid: i64) -> (idxs: Vec<usize>)
    ensures
        forall|t1: int, t2: int| 0 <= t1 < t2 < idxs@.len() ==> idxs@[t1] < idxs@[t2],
        forall|t: int|
            0 <= t < idxs@.len() ==> (#[trigger] idxs@[t] as int) < subscribers@.len(),
        forall|q: int|
            0 <= q < subscribers@.len() ==> (idxs@.contains(q as usize) <==> spec_has_user_id(
                #[trigger] subscribers@[q]@,
                uid,
            )),
{
    let n = subscribers.len();
    let mut idxs: Vec<usize> = Vec::new();
    let mut i: usize = 0;
    while i < n
        invariant
            i <= n,
            n == subscribers@.len(),
            forall|t1: int, t2: int| 0 <= t1 < t2 < idxs@.len() ==> idxs@[t1] < idxs@[t2],
            forall|t: int| 0 <= t < idxs@.len() ==> (#[trigger] idxs@[t] as int) < i,
            forall|q: int|
                0 <= q < i ==> (idxs@.contains(q as usize) <==> spec_has_user_id(
                    #[trigger] subscribers@[q]@,
                    uid,
                )),
        decreases n - i,
    {
        let ghost prev = idxs@;
        let subscribed = contains_user_id(&subscribers[i], uid);
        if subscribed {
            idxs.push(i);
        }
        proof {
            assert forall|q: int|
                0 <= q < i + 1 implies (idxs@.contains(q as usize) <==> spec_has_user_id(
                #[trigger] subscribers@[q]@,
                uid,
            )) by {
                if subscribed {
                    assert(idxs@ == prev.push(i as usize));
                    if q == i {
                        assert(idxs@[idxs@.len() - 1] == q as usize);
                        assert(idxs@.contains(q as usize));
                    } else {
                        // a smaller index is in the new list exactly when
                        // it was in the old one
                        if idxs@.contains(q as usize) {
                            let t = choose|t: int|
                                0 <= t < idxs@.len() && idxs@[t] == q as usize;
                            assert(t < prev.len());
                            assert(prev[t] == q as usize);
                            assert(prev.contains(q as usize));
                        }
                        if prev.contains(q as usize) {
                            let t = choose|t: int| 0 <= t < prev.len() && prev[t] == q as usize;
                            assert(idxs@[t] == q as usize);
                            assert(idxs@.contains(q as usize));
                        }
                    }
                } else {
                    if q == i {
                        if idxs@.contains(q as usize) {
                            let t = choose|t: int|
                                0 <= t < idxs@.len() && idxs@[t] == q as usize;
                            assert((idxs@[t] as int) < i);
                        }
                    }
                }
            }
        }
        i = i + 1;
    }
    idxs
}

/// One composed notification message, ready for a mail transport.
#[derive(Debug)]
pub struct EmailMessage {
    pub to_name: String,
    pub to_address: String,
    pub subject: String,
    pub html_body: String,
    pub attachments: Vec<Attachment>,
}

/// The subject line of a notification sent on the given day.
pub open spec fn subject_rep(today: Date) -> Seq<char> {
    "TVTrack updates "@ + date_rep(today)
}

/// Whether `m` is the message owed to `user` for the entries of `idxs`.
pub open spec fn spec_message_matches(
    entries: Seq<SeriesEntry>,
    user: User,
    idxs: Seq<usize>,
    today: Date,
    m: EmailMessage,
) -> bool {
    &&& m.to_name@ == user.name@
    &&& m.to_address@ == user.email@
    &&& m.subject@ == subject_rep(today)
    &&& m.html_body@ == crate::html::html_rep(idxs.map_values(|t: usize| entries[t as int]))
    &&& m.attachments@.len() == idxs.len()
    &&& forall|t: int|
        0 <= t < idxs.len() ==> {
            &&& (#[trigger] m.attachments@[t]).content_id@ == attachment_id_rep(
                entries[idxs[t] as int],
            )
            &&& m.attachments@[t].data@ == entries[idxs[t] as int].poster.img_data@
            &&& m.attachments@[t].mime_type == entries[idxs[t] as int].poster.mime_type
        }
}

/// Composes the one message a subscriber is owed: an HTML body rendering
/// only the entries of `idxs` — that subscriber's own subset — and one
/// inline poster attachment per entry of that subset.
pub fn compose_notification(
    entries: &Vec<SeriesEntry>,
    user: &User,
    idxs: &Vec<usize>,
    today: Date,
) -> (m: EmailMessage)
    requires
        forall|t: int| 0 <= t < idxs@.len() ==> (#[trigger] idxs@[t] as int) < entries@.len(),
        forall|i: int| 0 <= i < entries@.len() ==> (#[trigger] entries@[i]).wf(),
        today.valid(),
    ensures
        spec_message_matches(entries@, *user, idxs@, today, m),
{
    let mut subject = String::new();
    subject.append("TVTrack updates ");
    crate::dates::append_date(&mut subject, today);

    let html_body = crate::html::make_email_html_selected(entries, idxs);

    let mut attachments: Vec<Attachment> = Vec::new();
    let mut t: usize = 0;
    while t < idxs.len()
        invariant
            t <= idxs@.len(),
            forall|u: int| 0 <= u < idxs@.len() ==> (#[trigger] idxs@[u] as int) < entries@.len(),
            forall|i: int| 0 <= i < entries@.len() ==> (#[trigger] entries@[i]).wf(),
            attachments@.len() == t,
            forall|u: int|
                0 <= u < t ==> {
                    &&& (#[trigger] attachments@[u]).content_id@ == attachment_id_rep(
                        entries@[idxs@[u] as int],
                    )
                    &&& attachments@[u].data@ == entries@[idxs@[u] as int].poster.img_data@
                    &&& attachments@[u].mime_type == entries@[idxs@[u] as int].poster.mime_type
                },
        decreases idxs@.len() - t,
    {
        let e = &entries[idxs[t]];
        attachments.push(e.create_poster_attachment());
        t = t + 1;
    }

    EmailMessage {
        to_name: user.name.clone(),
        to_address: user.email.clone(),
        subject,
        html_body,
        attachments,
    }
}

/// Composes the batch of messages a completed update owes: one per group,
/// each scoped to that subscriber's own entries.
pub fn compose_notifications(
    entries: &Vec<SeriesEntry>,
    groups: &Vec<(User, Vec<usize>)>,
    today: Date,
) -> (r: Vec<EmailMessage>)
    requires
        forall|k: int, t: int|
            0 <= k < groups@.len() && 0 <= t < groups@[k].1@.len() ==> (#[trigger] groups@[k].1@[t]
                as int) < entries@.len(),
        forall|i: int| 0 <= i < entries@.len() ==> (#[trigger] entries@[i]).wf(),
        today.valid(),
    ensures
        r@.len() == groups@.len(),
        forall|k: int|
            0 <= k < groups@.len() ==> spec_message_matches(
                entries@,
                groups@[k].0,
                groups@[k].1@,
                today,
                #[trigger] r@[k],
            ),
{
    let mut messages: Vec<EmailMessage> = Vec::new();
    let mut k: usize = 0;
    while k < groups.len()
        invariant
            k <= groups@.len(),
            forall|k2: int, t: int|
                0 <= k2 < groups@.len() && 0 <= t < groups@[k2].1@.len() ==> (
                #[trigger] groups@[k2].1@[t] as int) < entries@.len(),
            forall|i: int| 0 <= i < entries@.len() ==> (#[trigger] entries@[i]).wf(),
            today.valid(),
            messages@.len() == k,
            forall|k2: int|
                0 <= k2 < k ==> spec_message_matches(
                    entries@,
                    groups@[k2].0,
                    groups@[k2].1@,
                    today,
                    #[trigger] messages@[k2],
                ),
        decreases groups@.len() - k,
    {
        let (user, idxs) = &groups[k];
        messages.push(compose_notification(entries, user, idxs, today));
        k = k + 1;
    }
    messages
}

} // verus!

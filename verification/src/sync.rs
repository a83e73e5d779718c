//! Synchronisation of a client with the catalog.
//!
//! A full sync lists the user's live media. A partial sync lists what has
//! changed after a watermark: the live media among the changed rows, and the
//! ids of the deleted ones. A client that applies a partial sync to the
//! result of an earlier full sync holds what a full sync would give it now.

use crate::catalog::{changed_at, unique_media_ids, DbManager, Media};
use vstd::prelude::*;

verus! {

/// What a client learns of one live media.
pub struct RemoteMediaAdded {
    pub id: String,
    pub created_at: i64,
    pub hash: String,
}

/// What a client learns of one deleted media.
pub struct RemoteMediaDeleted {
    pub id: String,
}

/// What a client holds of one media: its id, capture time and digest.
pub struct MediaSummary {
    pub id: Seq<char>,
    pub created_at: i64,
    pub hash: Seq<char>,
}

impl View for RemoteMediaAdded {
    type V = MediaSummary;

    open spec fn view(&self) -> MediaSummary {
        MediaSummary { id: self.id@, created_at: self.created_at, hash: self.hash@ }
    }
}

impl View for RemoteMediaDeleted {
    type V = Seq<char>;

    open spec fn view(&self) -> Seq<char> {
        self.id@
    }
}

/// What a client holds of the row `m`.
pub open spec fn summary_of(m: Media) -> MediaSummary {
    MediaSummary { id: m.id@, created_at: m.created_at, hash: m.hash@ }
}

/// Whether `m` is a live media of `user`.
pub open spec fn is_live(m: Media, user: Seq<char>) -> bool {
    m.user_id@ == user && !m.deleted
}

/// Selects the live media of `user`.
pub open spec fn select_live(user: Seq<char>) -> spec_fn(Media) -> Option<MediaSummary> {
    |m: Media|
        if is_live(m, user) {
            Some(summary_of(m))
        } else {
            None
        }
}

/// Selects the live media of `user` that changed after `since`.
pub open spec fn select_uploaded(user: Seq<char>, since: i64) -> spec_fn(Media) -> Option<
    MediaSummary,
> {
    |m: Media|
        if is_live(m, user) && m.last_modified_at > since {
            Some(summary_of(m))
        } else {
            None
        }
}

/// Selects the ids of the media of `user` that were deleted after `since`.
pub open spec fn select_deleted(user: Seq<char>, since: i64) -> spec_fn(Media) -> Option<
    Seq<char>,
> {
    |m: Media|
        if m.user_id@ == user && m.deleted && m.last_modified_at > since {
            Some(m.id@)
        } else {
            None
        }
}

/// What a full sync of `user` returns: the user's live media, in catalog
/// order.
pub open spec fn full_view(media: Seq<Media>, user: Seq<char>) -> Seq<MediaSummary> {
    media.filter_map(select_live(user))
}

/// The first half of a partial sync: the user's live media that changed
/// after `since`, in catalog order.
pub open spec fn uploaded_view(media: Seq<Media>, user: Seq<char>, since: i64) -> Seq<
    MediaSummary,
> {
    media.filter_map(select_uploaded(user, since))
}

/// The second half of a partial sync: the ids of the user's media that were
/// deleted after `since`, in catalog order.
pub open spec fn deleted_view(media: Seq<Media>, user: Seq<char>, since: i64) -> Seq<Seq<char>> {
    media.filter_map(select_deleted(user, since))
}

/// The summaries that a list of answers carries.
pub open spec fn summaries(answers: Seq<RemoteMediaAdded>) -> Seq<MediaSummary> {
    answers.map_values(|a: RemoteMediaAdded| a@)
}

/// The ids that a list of answers carries.
pub open spec fn deleted_ids(answers: Seq<RemoteMediaDeleted>) -> Seq<Seq<char>> {
    answers.map_values(|a: RemoteMediaDeleted| a@)
}

impl DbManager {
    /// Lists the user's live media.
    pub fn sync_full(&self, user_id: &str) -> (live: Vec<RemoteMediaAdded>)
        ensures
            summaries(live@) == full_view(self.media@, user_id@),
    {
        let (live, _) = self.select_changes(user_id, None);
        live
    }

    /// Lists what has changed for the user after `since`: the live media
    /// among the changed rows, and the ids of the deleted ones.
    pub fn sync_partial(&self, user_id: &str, since: i64) -> (changes: (
        Vec<RemoteMediaAdded>,
        Vec<RemoteMediaDeleted>,
    ))
        ensures
            summaries(changes.0@) == uploaded_view(self.media@, user_id@, since),
            deleted_ids(changes.1@) == deleted_view(self.media@, user_id@, since),
    {
        self.select_changes(user_id, Some(since))
    }

    fn select_changes(&self, user_id: &str, since: Option<i64>) -> (changes: (
        Vec<RemoteMediaAdded>,
        Vec<RemoteMediaDeleted>,
    ))
        ensures
            match since {
                Some(t) => {
                    &&& summaries(changes.0@) == uploaded_view(self.media@, user_id@, t)
                    &&& deleted_ids(changes.1@) == deleted_view(self.media@, user_id@, t)
                },
                None => summaries(changes.0@) == full_view(self.media@, user_id@),
            },
    {
        let mut uploaded: Vec<RemoteMediaAdded> = Vec::new();
        let mut deleted: Vec<RemoteMediaDeleted> = Vec::new();
        let ghost keep = match since {
            Some(t) => select_uploaded(user_id@, t),
            None => select_live(user_id@),
        };
        let ghost drop = match since {
            Some(t) => select_deleted(user_id@, t),
            None => select_deleted(user_id@, i64::MAX),
        };
        let mut i: usize = 0;
        assert(self.media@.take(0).filter_map(keep) =~= Seq::<MediaSummary>::empty());
        assert(self.media@.take(0).filter_map(drop) =~= Seq::<Seq<char>>::empty());
        while i < self.media.len()
            invariant
                0 <= i <= self.media@.len(),
                keep == match since {
                    Some(t) => select_uploaded(user_id@, t),
                    None => select_live(user_id@),
                },
                drop == match since {
                    Some(t) => select_deleted(user_id@, t),
                    None => select_deleted(user_id@, i64::MAX),
                },
                summaries(uploaded@) == self.media@.take(i as int).filter_map(keep),
                deleted_ids(deleted@) == self.media@.take(i as int).filter_map(drop),
            decreases self.media@.len() - i,
        {
            let m = &self.media[i];
            proof {
                self.media@.lemma_filter_map_take_succ(keep, i as int);
                self.media@.lemma_filter_map_take_succ(drop, i as int);
            }
            if crate::text::str_eq(m.user_id.as_str(), user_id) {
                let changed = match since {
                    Some(t) => m.last_modified_at > t,
                    None => true,
                };
                if changed {
                    if m.deleted {
                        if since.is_some() {
                            let answer = RemoteMediaDeleted { id: m.id.clone() };
                            let ghost before = deleted@;
                            let ghost id = answer@;
                            deleted.push(answer);
                            assert(deleted_ids(deleted@) =~= deleted_ids(before).push(id));
                        }
                    } else {
                        let answer = RemoteMediaAdded {
                            id: m.id.clone(),
                            created_at: m.created_at,
                            hash: m.hash.clone(),
                        };
                        let ghost before = uploaded@;
                        let ghost summary = answer@;
                        uploaded.push(answer);
                        assert(summaries(uploaded@) =~= summaries(before).push(summary));
                    }
                }
            }
            i += 1;
        }
        assert(self.media@.take(self.media@.len() as int) == self.media@);
        (uploaded, deleted)
    }
}


/// An element is selected from a sequence exactly if some element of the
/// sequence is mapped to it.
pub proof fn lemma_selected<A, B>(s: Seq<A>, f: spec_fn(A) -> Option<B>, b: B)
    ensures
        s.filter_map(f).contains(b) <==> exists|i: int|
            0 <= i < s.len() && f(#[trigger] s[i]) == Some(b),
    decreases s.len(),
{
    if s.len() == 0 {
        assert(s.filter_map(f) =~= Seq::<B>::empty());
    } else {
        let rest = s.drop_last();
        lemma_selected(rest, f, b);
        let chosen = s.filter_map(f);
        if chosen.contains(b) {
            let c = choose|c: int| 0 <= c < chosen.len() && chosen[c] == b;
            if f(s.last()) is Some && c == chosen.len() - 1 {
                assert(f(s[s.len() - 1]) == Some(b));
            } else {
                assert(rest.filter_map(f)[c] == b);
                assert(rest.filter_map(f).contains(b));
                let i = choose|i: int| 0 <= i < rest.len() && f(#[trigger] rest[i]) == Some(b);
                assert(f(s[i]) == Some(b));
            }
        }
        if exists|i: int| 0 <= i < s.len() && f(#[trigger] s[i]) == Some(b) {
            let i = choose|i: int| 0 <= i < s.len() && f(#[trigger] s[i]) == Some(b);
            if i == s.len() - 1 {
                assert(chosen.last() == b);
            } else {
                assert(f(rest[i]) == Some(b));
                let c = choose|c: int|
                    0 <= c < rest.filter_map(f).len() && rest.filter_map(f)[c] == b;
                assert(chosen[c] == b);
            }
        }
    }
}

/// What a client holds: for each id, what it knows of that media.
pub open spec fn library(view: Seq<MediaSummary>) -> Map<Seq<char>, MediaSummary> {
    Map::new(
        |id: Seq<char>| exists|i: int| 0 <= i < view.len() && (#[trigger] view[i]).id == id,
        |id: Seq<char>| view[choose|i: int| 0 <= i < view.len() && (#[trigger] view[i]).id == id],
    )
}

/// What a client holds after it has applied a partial sync to what it held:
/// the deleted ids are gone, the uploaded media are there.
pub open spec fn apply_changes(
    held: Map<Seq<char>, MediaSummary>,
    uploaded: Seq<MediaSummary>,
    deleted: Seq<Seq<char>>,
) -> Map<Seq<char>, MediaSummary> {
    held.remove_keys(deleted.to_set()).union_prefer_right(library(uploaded))
}

/// Whether `f` selects rows by their summary.
pub open spec fn selects_summaries(f: spec_fn(Media) -> Option<MediaSummary>) -> bool {
    forall|m: Media| (#[trigger] f(m)) is Some ==> f(m) == Some(summary_of(m))
}

/// In a catalog with unique ids, a client that holds a selection of the
/// rows holds each selected row under its id.
pub proof fn lemma_library_holds(
    media: Seq<Media>,
    f: spec_fn(Media) -> Option<MediaSummary>,
    j: int,
)
    requires
        unique_media_ids(media),
        selects_summaries(f),
        0 <= j < media.len(),
        f(media[j]) is Some,
    ensures
        library(media.filter_map(f)).dom().contains(media[j].id@),
        library(media.filter_map(f))[media[j].id@] == summary_of(media[j]),
{
    let view = media.filter_map(f);
    let id = media[j].id@;
    lemma_selected(media, f, summary_of(media[j]));
    let i = choose|i: int| 0 <= i < view.len() && view[i] == summary_of(media[j]);
    assert(view[i].id == id);
    let c = choose|c: int| 0 <= c < view.len() && (#[trigger] view[c]).id == id;
    assert(view.contains(view[c]));
    lemma_selected(media, f, view[c]);
    let k = choose|k: int| 0 <= k < media.len() && f(#[trigger] media[k]) == Some(view[c]);
    assert(summary_of(media[k]).id == id);
    if k < j {
        assert(media[k].id@ != media[j].id@);
    } else if j < k {
        assert(media[j].id@ != media[k].id@);
    }
}

/// What a client holds of a selection of the rows comes from a selected
/// row.
pub proof fn lemma_library_source(
    media: Seq<Media>,
    f: spec_fn(Media) -> Option<MediaSummary>,
    id: Seq<char>,
) -> (j: int)
    requires
        selects_summaries(f),
        library(media.filter_map(f)).dom().contains(id),
    ensures
        0 <= j < media.len(),
        media[j].id@ == id,
        f(media[j]) is Some,
{
    let view = media.filter_map(f);
    let c = choose|c: int| 0 <= c < view.len() && (#[trigger] view[c]).id == id;
    assert(view.contains(view[c]));
    lemma_selected(media, f, view[c]);
    let k = choose|k: int| 0 <= k < media.len() && f(#[trigger] media[k]) == Some(view[c]);
    k
}

/// Whether the catalog `after` can have come from `before` by changes made
/// after the time `t0`: the rows of `before` were last changed at `t0` or
/// earlier; each of them is still there, under its id and owner, with its
/// capture time and digest, and is either as it was or stamped later than
/// `t0`; every row that is new is stamped later than `t0`.
pub open spec fn evolved(before: Seq<Media>, after: Seq<Media>, t0: i64) -> bool {
    &&& before.len() <= after.len()
    &&& forall|i: int| 0 <= i < before.len() ==> (#[trigger] before[i]).last_modified_at <= t0
    &&& forall|i: int|
        0 <= i < before.len() ==> {
            &&& (#[trigger] after[i]).id@ == before[i].id@
            &&& after[i].user_id@ == before[i].user_id@
            &&& after[i].created_at == before[i].created_at
            &&& after[i].hash@ == before[i].hash@
            &&& (after[i] == before[i] || after[i].last_modified_at > t0)
        }
    &&& forall|i: int|
        before.len() <= i < after.len() ==> (#[trigger] after[i]).last_modified_at > t0
}

/// A catalog whose rows were all last changed at `t0` or earlier has
/// evolved from itself.
pub proof fn lemma_evolved_start(media: Seq<Media>, t0: i64)
    requires
        forall|i: int| 0 <= i < media.len() ==> (#[trigger] media[i]).last_modified_at <= t0,
    ensures
        evolved(media, media, t0),
{
}

/// A change of one row that stamps it later than `t0` continues an
/// evolution since `t0`.
pub proof fn lemma_evolved_change(
    before: Seq<Media>,
    middle: Seq<Media>,
    after: Seq<Media>,
    at: int,
    t0: i64,
)
    requires
        evolved(before, middle, t0),
        changed_at(middle, after, at),
        after[at].last_modified_at > t0,
    ensures
        evolved(before, after, t0),
{
    assert forall|i: int| 0 <= i < before.len() implies {
        &&& (#[trigger] after[i]).id@ == before[i].id@
        &&& after[i].user_id@ == before[i].user_id@
        &&& after[i].created_at == before[i].created_at
        &&& after[i].hash@ == before[i].hash@
        &&& (after[i] == before[i] || after[i].last_modified_at > t0)
    } by {
        assert(middle[i].id@ == before[i].id@);
        if i != at {
            assert(after[i] == middle[i]);
        }
    }
    assert forall|i: int| before.len() <= i < after.len() implies (
    #[trigger] after[i]).last_modified_at > t0 by {
        assert(middle[i].last_modified_at > t0);
        if i != at {
            assert(after[i] == middle[i]);
        }
    }
}

/// A new row that is stamped later than `t0` continues an evolution since
/// `t0`.
pub proof fn lemma_evolved_add(before: Seq<Media>, middle: Seq<Media>, after: Seq<Media>, t0: i64)
    requires
        evolved(before, middle, t0),
        after.len() == middle.len() + 1,
        after.drop_last() == middle,
        after.last().last_modified_at > t0,
    ensures
        evolved(before, after, t0),
{
    assert forall|i: int| 0 <= i < middle.len() implies #[trigger] after[i] == middle[i] by {
        assert(after.drop_last()[i] == after[i]);
    }
    assert forall|i: int| 0 <= i < before.len() implies {
        &&& (#[trigger] after[i]).id@ == before[i].id@
        &&& after[i].user_id@ == before[i].user_id@
        &&& after[i].created_at == before[i].created_at
        &&& after[i].hash@ == before[i].hash@
        &&& (after[i] == before[i] || after[i].last_modified_at > t0)
    } by {
        assert(after[i] == middle[i]);
        assert(middle[i].id@ == before[i].id@);
    }
    assert forall|i: int| before.len() <= i < after.len() implies (
    #[trigger] after[i]).last_modified_at > t0 by {
        if i < middle.len() {
            assert(after[i] == middle[i]);
            assert(middle[i].last_modified_at > t0);
        }
    }
}

/// Sync round trip. A client makes a full sync when the catalog is `before`
/// and the server's clock says `t0`. The catalog then evolves into `after`
/// by uploads, deletions and other changes, all stamped later than `t0`. If
/// the client now applies a partial sync since `t0` to what it held, it
/// holds exactly what a full sync would give it now.
pub proof fn lemma_sync_round_trip(before: Seq<Media>, after: Seq<Media>, user: Seq<char>, t0: i64)
    requires
        unique_media_ids(before),
        unique_media_ids(after),
        evolved(before, after, t0),
    ensures
        apply_changes(
            library(full_view(before, user)),
            uploaded_view(after, user, t0),
            deleted_view(after, user, t0),
        ) == library(full_view(after, user)),
{
    let live = select_live(user);
    let up = select_uploaded(user, t0);
    let gone = select_deleted(user, t0);
    let held = library(full_view(before, user));
    let uploaded = uploaded_view(after, user, t0);
    let deleted = deleted_view(after, user, t0);
    let result = apply_changes(held, uploaded, deleted);
    let now = library(full_view(after, user));
    assert(selects_summaries(live));
    assert(selects_summaries(up));
    assert forall|id: Seq<char>| #[trigger] now.dom().contains(id) implies result.dom().contains(
        id,
    ) && result[id] == now[id] by {
        let j = lemma_library_source(after, live, id);
        lemma_library_holds(after, live, j);
        if after[j].last_modified_at > t0 {
            lemma_library_holds(after, up, j);
        } else {
            assert(j < before.len());
            assert(after[j] == before[j]);
            lemma_library_holds(before, live, j);
            if library(uploaded).dom().contains(id) {
                let k = lemma_library_source(after, up, id);
                if k < j {
                    assert(after[k].id@ != after[j].id@);
                } else if j < k {
                    assert(after[j].id@ != after[k].id@);
                }
            }
            if deleted.to_set().contains(id) {
                assert(deleted.contains(id));
                lemma_selected(after, gone, id);
                let k = choose|k: int| 0 <= k < after.len() && gone(#[trigger] after[k]) == Some(id);
                if k < j {
                    assert(after[k].id@ != after[j].id@);
                } else if j < k {
                    assert(after[j].id@ != after[k].id@);
                }
            }
        }
    }
    assert forall|id: Seq<char>| #[trigger] result.dom().contains(id) implies now.dom().contains(
        id,
    ) by {
        if library(uploaded).dom().contains(id) {
            let k = lemma_library_source(after, up, id);
            lemma_library_holds(after, live, k);
        } else {
            let j = lemma_library_source(before, live, id);
            assert(after[j].id@ == before[j].id@);
            if after[j].deleted {
                assert(gone(after[j]) == Some(id));
                lemma_selected(after, gone, id);
                assert(deleted.contains(id));
                assert(deleted.to_set().contains(id));
            }
            lemma_library_holds(after, live, j);
        }
    }
    assert(result =~= now);
}

/// Partial sync partitions the changes. In a catalog with unique ids, for
/// every row of the user that was stamped later than `since`: if it is
/// live, its summary is among the uploaded and its id is not among the
/// deleted; if it is deleted, its id is among the deleted and it is not
/// among the uploaded. A row that was not stamped later than `since`, or
/// belongs to someone else, is in neither list.
pub proof fn lemma_partial_sync_partitions(media: Seq<Media>, user: Seq<char>, since: i64, j: int)
    requires
        unique_media_ids(media),
        0 <= j < media.len(),
    ensures
        uploaded_view(media, user, since).contains(summary_of(media[j])) <==> (is_live(
            media[j],
            user,
        ) && media[j].last_modified_at > since),
        deleted_view(media, user, since).contains(media[j].id@) <==> (media[j].user_id@ == user
            && media[j].deleted && media[j].last_modified_at > since),
{
    let up = select_uploaded(user, since);
    let gone = select_deleted(user, since);
    lemma_selected(media, up, summary_of(media[j]));
    lemma_selected(media, gone, media[j].id@);
    if uploaded_view(media, user, since).contains(summary_of(media[j])) {
        let k = choose|k: int|
            0 <= k < media.len() && up(#[trigger] media[k]) == Some(summary_of(media[j]));
        assert(summary_of(media[k]).id == media[j].id@);
        if k < j {
            assert(media[k].id@ != media[j].id@);
        } else if j < k {
            assert(media[j].id@ != media[k].id@);
        }
    }
    if deleted_view(media, user, since).contains(media[j].id@) {
        let k = choose|k: int| 0 <= k < media.len() && gone(#[trigger] media[k]) == Some(media[j].id@);
        if k < j {
            assert(media[k].id@ != media[j].id@);
        } else if j < k {
            assert(media[j].id@ != media[k].id@);
        }
    }
    if is_live(media[j], user) && media[j].last_modified_at > since {
        assert(up(media[j]) == Some(summary_of(media[j])));
    }
    if media[j].user_id@ == user && media[j].deleted && media[j].last_modified_at > since {
        assert(gone(media[j]) == Some(media[j].id@));
    }
}

/// Everything that a partial sync reports comes from a row of the user that
/// was stamped later than `since`.
pub proof fn lemma_partial_sync_is_exact(media: Seq<Media>, user: Seq<char>, since: i64)
    ensures
        forall|s: MediaSummary| #[trigger]
            uploaded_view(media, user, since).contains(s) ==> exists|j: int|
                0 <= j < media.len() && is_live(#[trigger] media[j], user)
                    && media[j].last_modified_at > since && summary_of(media[j]) == s,
        forall|id: Seq<char>| #[trigger]
            deleted_view(media, user, since).contains(id) ==> exists|j: int|
                0 <= j < media.len() && (#[trigger] media[j]).user_id@ == user
                    && media[j].deleted && media[j].last_modified_at > since && media[j].id@
                    == id,
{
    let up = select_uploaded(user, since);
    let gone = select_deleted(user, since);
    assert forall|s: MediaSummary| #[trigger]
        uploaded_view(media, user, since).contains(s) implies exists|j: int|
        0 <= j < media.len() && is_live(#[trigger] media[j], user) && media[j].last_modified_at
            > since && summary_of(media[j]) == s by {
        lemma_selected(media, up, s);
        let k = choose|k: int| 0 <= k < media.len() && up(#[trigger] media[k]) == Some(s);
        assert(is_live(media[k], user));
    }
    assert forall|id: Seq<char>| #[trigger]
        deleted_view(media, user, since).contains(id) implies exists|j: int|
        0 <= j < media.len() && (#[trigger] media[j]).user_id@ == user && media[j].deleted
            && media[j].last_modified_at > since && media[j].id@ == id by {
        lemma_selected(media, gone, id);
        let k = choose|k: int| 0 <= k < media.len() && gone(#[trigger] media[k]) == Some(id);
        assert(media[k].user_id@ == user);
    }
}

/// The watermark of a row never decreases while the clock does not run
/// backwards: a change of one row that stamps it with a time that is not
/// earlier than its stamp leaves no row with an earlier stamp than it had.
pub proof fn lemma_watermark_is_monotonic(before: Seq<Media>, after: Seq<Media>, at: int, now: i64)
    requires
        changed_at(before, after, at),
        after[at].last_modified_at == now,
        now >= before[at].last_modified_at,
    ensures
        forall|j: int|
            0 <= j < before.len() ==> (#[trigger] after[j]).last_modified_at
                >= before[j].last_modified_at,
{
    assert forall|j: int| 0 <= j < before.len() implies (#[trigger] after[j]).last_modified_at
        >= before[j].last_modified_at by {
        if j != at {
            assert(after[j] == before[j]);
        }
    }
}


/// Access scoping of the sync endpoints. In a catalog with unique ids, no
/// sync of one user reports a media that belongs to another.
pub proof fn lemma_sync_is_scoped(
    media: Seq<Media>,
    owner: Seq<char>,
    other: Seq<char>,
    since: i64,
    at: int,
)
    requires
        unique_media_ids(media),
        0 <= at < media.len(),
        media[at].user_id@ == owner,
        owner != other,
    ensures
        !library(full_view(media, other)).dom().contains(media[at].id@),
        !library(uploaded_view(media, other, since)).dom().contains(media[at].id@),
        !deleted_view(media, other, since).contains(media[at].id@),
{
    let id = media[at].id@;
    let live = select_live(other);
    let up = select_uploaded(other, since);
    let gone = select_deleted(other, since);
    assert(selects_summaries(live));
    assert(selects_summaries(up));
    if library(full_view(media, other)).dom().contains(id) {
        let j = lemma_library_source(media, live, id);
        if j < at {
            assert(media[j].id@ != media[at].id@);
        } else if at < j {
            assert(media[at].id@ != media[j].id@);
        }
    }
    if library(uploaded_view(media, other, since)).dom().contains(id) {
        let j = lemma_library_source(media, up, id);
        if j < at {
            assert(media[j].id@ != media[at].id@);
        } else if at < j {
            assert(media[at].id@ != media[j].id@);
        }
    }
    if deleted_view(media, other, since).contains(id) {
        lemma_selected(media, gone, id);
        let j = choose|j: int| 0 <= j < media.len() && gone(#[trigger] media[j]) == Some(id);
        if j < at {
            assert(media[j].id@ != media[at].id@);
        } else if at < j {
            assert(media[at].id@ != media[j].id@);
        }
    }
}

} // verus!

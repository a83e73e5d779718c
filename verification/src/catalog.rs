//! The catalog: users and their media.
//!
//! [`DbManager`] holds the rows and the rules that every change obeys: a
//! media id occurs once, a user holds a digest once, a username occurs once.
//! Every change of a media row stamps it with the time of the change.

use crate::logs::LogRow;
use crate::metadata::MediaMetadata;
use crate::text::{str_eq, text_of};
use vstd::prelude::*;

verus! {

/// A registered user.
pub struct User {
    pub id: String,
    pub username: String,
    /// The bcrypt hash of the password.
    pub password: String,
}

/// A media row: one original and what has been derived from it.
pub struct Media {
    /// The id, which is also the object key of the original.
    pub id: String,
    /// The owner.
    pub user_id: String,
    /// The object key of the preview, once the preview worker has made it.
    pub preview_id: Option<String>,
    /// The digest that the client declared.
    pub hash: String,
    /// When the media was captured, in milliseconds since the epoch.
    pub created_at: i64,
    /// When the row was last changed, in milliseconds since the epoch.
    pub last_modified_at: i64,
    /// The tombstone: set when the media was deleted.
    pub deleted: bool,
    pub file_size: i64,
    pub file_name: String,
    pub metadata: MediaMetadata,
}

/// A face that was detected on a media.
pub struct MediaFace {
    pub id: i32,
    /// The media on which the face was detected.
    pub media_id: String,
    /// Where on the media the face is: left, top, right, bottom.
    pub face_bounding_box: Vec<i32>,
    /// The cluster of detections that this one was put in.
    pub cluster_id: i32,
}

/// A set of detections that were judged to show the same person.
pub struct ClusterRow {
    pub id: i32,
    pub user_id: String,
    /// The person that the user has named for this cluster, if any.
    pub face_id: Option<i32>,
}

/// A person that a user has named. A person is the union of the clusters
/// that carry its id.
pub struct FaceRow {
    pub id: i32,
    pub user_id: String,
    pub name: String,
    /// The media that stands for the person, if the user has chosen one.
    pub featured_photo_id: Option<String>,
}

/// Why a user could not be found.
#[derive(Clone, Copy, Debug, PartialEq, Eq, Structural)]
pub enum GetUserError {
    NotFound,
    InternalError,
}

/// Why a user could not be added.
#[derive(Clone, Copy, Debug, PartialEq, Eq, Structural)]
pub enum AddUserError {
    AlreadyExists,
    InternalError,
}

/// Why a media could not be added.
#[derive(Clone, Copy, Debug, PartialEq, Eq, Structural)]
pub enum AddMediaError {
    /// The user already holds media with this digest.
    DuplicateDigest,
    /// The id is already taken.
    DuplicateId,
}

/// Why a media could not be changed.
#[derive(Clone, Copy, Debug, PartialEq, Eq, Structural)]
pub enum UpdateMediaError {
    /// No media has this id, or it belongs to another user.
    NotFound,
}

/// Why a preview could not be listed or found.
#[derive(Clone, Copy, Debug, PartialEq, Eq, Structural)]
pub enum GetPreviewError {
    NotFound,
    InternalError,
}

/// Whether no id occurs twice among `media`.
pub open spec fn unique_media_ids(media: Seq<Media>) -> bool {
    forall|i: int, j: int|
        0 <= i < j < media.len() ==> (#[trigger] media[i]).id@ != (#[trigger] media[j]).id@
}

/// Whether `m` belongs to `user` and carries the digest `hash`.
pub open spec fn carries(m: Media, user: Seq<char>, hash: Seq<char>) -> bool {
    m.user_id@ == user && m.hash@ == hash
}

/// Whether no user holds a digest twice among `media`.
pub open spec fn unique_digests(media: Seq<Media>) -> bool {
    forall|i: int, j: int|
        0 <= i < j < media.len() ==> !carries(
            #[trigger] media[i],
            (#[trigger] media[j]).user_id@,
            media[j].hash@,
        )
}

/// Whether no username and no user id occurs twice among `users`.
pub open spec fn unique_users(users: Seq<User>) -> bool {
    forall|i: int, j: int|
        0 <= i < j < users.len() ==> (#[trigger] users[i]).username@ != (
        #[trigger] users[j]).username@ && users[i].id@ != users[j].id@
}

/// Whether some row of `media` belongs to `user` and carries `hash`.
pub open spec fn holds_digest(media: Seq<Media>, user: Seq<char>, hash: Seq<char>) -> bool {
    exists|i: int| 0 <= i < media.len() && carries(#[trigger] media[i], user, hash)
}

/// Whether some row of `media` has the id `id`.
pub open spec fn has_id(media: Seq<Media>, id: Seq<char>) -> bool {
    exists|i: int| 0 <= i < media.len() && (#[trigger] media[i]).id@ == id
}

/// Whether `m` is the media `id`, belongs to `user` and is not deleted.
pub open spec fn readable(m: Media, user: Seq<char>, id: Seq<char>) -> bool {
    m.id@ == id && m.user_id@ == user && !m.deleted
}

/// Whether `user` may read the media `id`: it exists, it is theirs, and it
/// is not deleted.
pub open spec fn may_read(media: Seq<Media>, user: Seq<char>, id: Seq<char>) -> bool {
    exists|i: int| 0 <= i < media.len() && readable(#[trigger] media[i], user, id)
}

/// Whether `after` is `before` with the row at `at` changed and every other
/// row as it was.
pub open spec fn changed_at(before: Seq<Media>, after: Seq<Media>, at: int) -> bool {
    &&& 0 <= at < before.len()
    &&& after.len() == before.len()
    &&& forall|j: int| 0 <= j < before.len() && j != at ==> #[trigger] after[j] == before[j]
    &&& after[at].id@ == before[at].id@
    &&& after[at].user_id@ == before[at].user_id@
    &&& after[at].hash@ == before[at].hash@
    &&& after[at].created_at == before[at].created_at
    &&& after[at].file_size == before[at].file_size
    &&& after[at].file_name@ == before[at].file_name@
}

/// Whether no id occurs twice among `clusters`.
pub open spec fn unique_cluster_ids(clusters: Seq<ClusterRow>) -> bool {
    forall|i: int, j: int|
        0 <= i < j < clusters.len() ==> (#[trigger] clusters[i]).id != (#[trigger] clusters[j]).id
}

/// Whether no id occurs twice among `faces`.
pub open spec fn unique_face_ids(faces: Seq<FaceRow>) -> bool {
    forall|i: int, j: int|
        0 <= i < j < faces.len() ==> (#[trigger] faces[i]).id != (#[trigger] faces[j]).id
}

/// The position of the first element of `s` that satisfies `p`.
pub open spec fn first_where<T>(s: Seq<T>, p: spec_fn(T) -> bool) -> Option<int>
    decreases s.len(),
{
    if s.len() == 0 {
        None
    } else {
        match first_where(s.drop_last(), p) {
            Some(i) => Some(i),
            None => if p(s.last()) {
                Some(s.len() - 1)
            } else {
                None
            },
        }
    }
}

/// An element that satisfies `p` and has none before it that does is the
/// first.
pub proof fn lemma_first_where<T>(s: Seq<T>, p: spec_fn(T) -> bool, at: int)
    requires
        0 <= at < s.len(),
        p(s[at]),
        forall|j: int| 0 <= j < at ==> !p(#[trigger] s[j]),
    ensures
        first_where(s, p) == Some(at),
    decreases s.len(),
{
    let init = s.drop_last();
    if at < s.len() - 1 {
        assert(init[at] == s[at]);
        assert forall|j: int| 0 <= j < at implies !p(#[trigger] init[j]) by {
            assert(init[j] == s[j]);
        }
        lemma_first_where(init, p, at);
    } else {
        assert forall|j: int| 0 <= j < init.len() implies !p(#[trigger] init[j]) by {
            assert(init[j] == s[j]);
        }
        lemma_first_where_none(init, p);
    }
}

/// Where no element satisfies `p`, there is no first.
pub proof fn lemma_first_where_none<T>(s: Seq<T>, p: spec_fn(T) -> bool)
    requires
        forall|j: int| 0 <= j < s.len() ==> !p(#[trigger] s[j]),
    ensures
        first_where(s, p) is None,
    decreases s.len(),
{
    if s.len() > 0 {
        let init = s.drop_last();
        assert forall|j: int| 0 <= j < init.len() implies !p(#[trigger] init[j]) by {
            assert(init[j] == s[j]);
        }
        lemma_first_where_none(init, p);
        assert(s.last() == s[s.len() - 1]);
    }
}

/// Selects the user with the name `name`.
pub open spec fn named(name: Seq<char>) -> spec_fn(User) -> bool {
    |u: User| u.username@ == name
}

/// The user with the name `name`: the first of `users` that carries it.
pub open spec fn user_named(users: Seq<User>, name: Seq<char>) -> Result<User, GetUserError> {
    match first_where(users, named(name)) {
        Some(at) => Ok(users[at]),
        None => Err(GetUserError::NotFound),
    }
}

/// Selects the media `id` where it belongs to `user` and is not deleted.
pub open spec fn readable_by(user: Seq<char>, id: Seq<char>) -> spec_fn(Media) -> bool {
    |m: Media| readable(m, user, id)
}

/// The row that `user` reads under the id `id`: the first that is theirs
/// and is not deleted.
pub open spec fn readable_row(media: Seq<Media>, user: Seq<char>, id: Seq<char>) -> Option<Media> {
    match first_where(media, readable_by(user, id)) {
        Some(at) => Some(media[at]),
        None => None,
    }
}

/// The catalog.
pub struct DbManager {
    pub users: Vec<User>,
    pub media: Vec<Media>,
    pub faces: Vec<FaceRow>,
    pub clusters: Vec<ClusterRow>,
    pub media_faces: Vec<MediaFace>,
    pub logs: Vec<LogRow>,
}

impl DbManager {
    /// The invariant of the catalog.
    pub open spec fn wf(&self) -> bool {
        &&& unique_media_ids(self.media@)
        &&& unique_digests(self.media@)
        &&& unique_users(self.users@)
        &&& unique_cluster_ids(self.clusters@)
        &&& unique_face_ids(self.faces@)
    }

    /// Whether `self` differs from `before` in its media at most.
    pub open spec fn same_but_media(&self, before: &Self) -> bool {
        &&& self.users == before.users
        &&& self.faces == before.faces
        &&& self.clusters == before.clusters
        &&& self.media_faces == before.media_faces
        &&& self.logs == before.logs
    }

    /// Whether `self` differs from `before` in its users at most.
    pub open spec fn same_but_users(&self, before: &Self) -> bool {
        &&& self.media == before.media
        &&& self.faces == before.faces
        &&& self.clusters == before.clusters
        &&& self.media_faces == before.media_faces
        &&& self.logs == before.logs
    }

    /// An empty catalog.
    pub fn new() -> (catalog: Self)
        ensures
            catalog.wf(),
            catalog.users@.len() == 0,
            catalog.media@.len() == 0,
            catalog.faces@.len() == 0,
            catalog.clusters@.len() == 0,
            catalog.media_faces@.len() == 0,
            catalog.logs@.len() == 0,
    {
        DbManager {
            users: Vec::new(),
            media: Vec::new(),
            faces: Vec::new(),
            clusters: Vec::new(),
            media_faces: Vec::new(),
            logs: Vec::new(),
        }
    }

    /// Whether the catalog meets its invariant. Rows that were read from
    /// elsewhere are checked with this before the catalog is changed.
    pub fn is_consistent(&self) -> (consistent: bool)
        ensures
            consistent == self.wf(),
    {
        media_keys_are_unique(&self.media) && users_are_unique(&self.users)
            && cluster_ids_are_unique(&self.clusters) && face_ids_are_unique(&self.faces)
    }

    /// The position of the media `id`, if there is one.
    pub fn find_media(&self, media_id: &str) -> (found: Option<usize>)
        ensures
            match found {
                Some(at) => at < self.media@.len() && self.media@[at as int].id@ == media_id@
                    && forall|j: int| 0 <= j < at ==> (#[trigger] self.media@[j]).id@ != media_id@,
                None => !has_id(self.media@, media_id@),
            },
    {
        let mut i: usize = 0;
        while i < self.media.len()
            invariant
                0 <= i <= self.media@.len(),
                forall|j: int| 0 <= j < i ==> (#[trigger] self.media@[j]).id@ != media_id@,
            decreases self.media@.len() - i,
        {
            if str_eq(self.media[i].id.as_str(), media_id) {
                return Some(i);
            }
            i += 1;
        }
        None
    }

    /// The position of the media `id` if `user` may read it: if it exists,
    /// is theirs and is not deleted.
    pub fn find_readable(&self, user_id: &str, media_id: &str) -> (found: Option<usize>)
        ensures
            match found {
                Some(at) => {
                    &&& at < self.media@.len()
                    &&& readable(self.media@[at as int], user_id@, media_id@)
                    &&& readable_row(self.media@, user_id@, media_id@) == Some(
                        self.media@[at as int],
                    )
                },
                None => !may_read(self.media@, user_id@, media_id@) && readable_row(
                    self.media@,
                    user_id@,
                    media_id@,
                ) is None,
            },
    {
        let ghost p = readable_by(user_id@, media_id@);
        let mut i: usize = 0;
        while i < self.media.len()
            invariant
                0 <= i <= self.media@.len(),
                p == readable_by(user_id@, media_id@),
                forall|j: int| 0 <= j < i ==> !p(#[trigger] self.media@[j]),
            decreases self.media@.len() - i,
        {
            let m = &self.media[i];
            if str_eq(m.id.as_str(), media_id) && str_eq(m.user_id.as_str(), user_id)
                && !m.deleted {
                proof {
                    lemma_first_where(self.media@, p, i as int);
                }
                return Some(i);
            }
            i += 1;
        }
        proof {
            lemma_first_where_none(self.media@, p);
            assert forall|j: int| 0 <= j < self.media@.len() implies !readable(
                #[trigger] self.media@[j],
                user_id@,
                media_id@,
            ) by {
                assert(!p(self.media@[j]));
            }
        }
        None
    }

    /// Adds a user. A username that is taken is refused.
    pub fn add_user(&mut self, id: String, username: String, password: String) -> (added: Result<
        (),
        AddUserError,
    >)
        requires
            old(self).wf(),
        ensures
            final(self).wf(),
            final(self).same_but_users(old(self)),
            match added {
                Ok(()) => {
                    &&& final(self).users@.len() == old(self).users@.len() + 1
                    &&& final(self).users@.drop_last() == old(self).users@
                    &&& final(self).users@.last().id@ == id@
                    &&& final(self).users@.last().username@ == username@
                    &&& final(self).users@.last().password@ == password@
                },
                Err(e) => e == AddUserError::AlreadyExists && final(self).users@ == old(
                    self,
                ).users@,
            },
            added is Ok <==> forall|i: int|
                0 <= i < old(self).users@.len() ==> (#[trigger] old(self).users@[i]).username@
                    != username@ && old(self).users@[i].id@ != id@,
    {
        let mut i: usize = 0;
        while i < self.users.len()
            invariant
                *self == *old(self),
                self.wf(),
                0 <= i <= self.users@.len(),
                forall|j: int|
                    0 <= j < i ==> (#[trigger] self.users@[j]).username@ != username@
                        && self.users@[j].id@ != id@,
            decreases self.users@.len() - i,
        {
            if str_eq(self.users[i].username.as_str(), username.as_str()) || str_eq(
                self.users[i].id.as_str(),
                id.as_str(),
            ) {
                return Err(AddUserError::AlreadyExists);
            }
            i += 1;
        }
        self.users.push(User { id, username, password });
        assert(self.users@.drop_last() =~= old(self).users@);
        Ok(())
    }

    /// The user with this username.
    pub fn get_user(&self, username: &str) -> (found: Result<&User, GetUserError>)
        ensures
            match found {
                Ok(user) => user_named(self.users@, username@) == Ok::<User, GetUserError>(*user),
                Err(e) => user_named(self.users@, username@) == Err::<User, GetUserError>(e),
            },
            found matches Ok(user) ==> user.username@ == username@ && self.users@.contains(*user),
    {
        let ghost p = named(username@);
        let mut i: usize = 0;
        while i < self.users.len()
            invariant
                0 <= i <= self.users@.len(),
                p == named(username@),
                forall|j: int| 0 <= j < i ==> !p(#[trigger] self.users@[j]),
            decreases self.users@.len() - i,
        {
            if str_eq(self.users[i].username.as_str(), username) {
                proof {
                    lemma_first_where(self.users@, p, i as int);
                }
                return Ok(&self.users[i]);
            }
            i += 1;
        }
        proof {
            lemma_first_where_none(self.users@, p);
        }
        Err(GetUserError::NotFound)
    }

    /// Whether the user already holds media with this digest, deleted or
    /// not.
    pub fn query_media(&self, user_id: &str, checksum: &str) -> (held: bool)
        ensures
            held == holds_digest(self.media@, user_id@, checksum@),
    {
        let mut i: usize = 0;
        while i < self.media.len()
            invariant
                0 <= i <= self.media@.len(),
                forall|j: int| 0 <= j < i ==> !carries(#[trigger] self.media@[j], user_id@, checksum@),
            decreases self.media@.len() - i,
        {
            let m = &self.media[i];
            if str_eq(m.user_id.as_str(), user_id) && str_eq(m.hash.as_str(), checksum) {
                return true;
            }
            i += 1;
        }
        false
    }

    /// Adds the row of a new media: no preview, no metadata, not deleted,
    /// last changed at `now`.
    ///
    /// Refused where the user already holds the digest, or the id is taken.
    pub fn add_media(
        &mut self,
        user_id: String,
        media_id: String,
        checksum: String,
        timestamp: i64,
        file_size: i64,
        file_name: String,
        now: i64,
    ) -> (added: Result<(), AddMediaError>)
        requires
            old(self).wf(),
        ensures
            final(self).wf(),
            final(self).same_but_media(old(self)),
            match added {
                Ok(()) => {
                    &&& !holds_digest(old(self).media@, user_id@, checksum@)
                    &&& !has_id(old(self).media@, media_id@)
                    &&& final(self).media@.len() == old(self).media@.len() + 1
                    &&& final(self).media@.drop_last() == old(self).media@
                    &&& final(self).media@.last().id@ == media_id@
                    &&& final(self).media@.last().user_id@ == user_id@
                    &&& final(self).media@.last().hash@ == checksum@
                    &&& final(self).media@.last().created_at == timestamp
                    &&& final(self).media@.last().last_modified_at == now
                    &&& final(self).media@.last().file_size == file_size
                    &&& final(self).media@.last().file_name@ == file_name@
                    &&& final(self).media@.last().preview_id is None
                    &&& final(self).media@.last().metadata.is_empty()
                    &&& !final(self).media@.last().deleted
                },
                Err(AddMediaError::DuplicateDigest) => {
                    &&& holds_digest(old(self).media@, user_id@, checksum@)
                    &&& final(self).media@ == old(self).media@
                },
                Err(AddMediaError::DuplicateId) => {
                    &&& !holds_digest(old(self).media@, user_id@, checksum@)
                    &&& has_id(old(self).media@, media_id@)
                    &&& final(self).media@ == old(self).media@
                },
            },
    {
        if self.query_media(user_id.as_str(), checksum.as_str()) {
            return Err(AddMediaError::DuplicateDigest);
        }
        if self.find_media(media_id.as_str()).is_some() {
            return Err(AddMediaError::DuplicateId);
        }
        self.media.push(
            Media {
                id: media_id,
                user_id,
                preview_id: None,
                hash: checksum,
                created_at: timestamp,
                last_modified_at: now,
                deleted: false,
                file_size,
                file_name,
                metadata: MediaMetadata::empty(),
            },
        );
        assert(self.media@.drop_last() =~= old(self).media@);
        Ok(())
    }

    /// The media with this id, deleted or not: the first row that carries
    /// it.
    pub fn get_media(&self, media_id: &str) -> (found: Option<&Media>)
        ensures
            match found {
                Some(m) => m.id@ == media_id@ && exists|at: int|
                    {
                        &&& 0 <= at < self.media@.len()
                        &&& #[trigger] self.media@[at] == *m
                        &&& forall|j: int| 0 <= j < at ==> (#[trigger] self.media@[j]).id@ != media_id@
                    },
                None => !has_id(self.media@, media_id@),
            },
    {
        match self.find_media(media_id) {
            Some(at) => Some(&self.media[at]),
            None => None,
        }
    }

    /// Whether the user may read the media: whether it exists, is theirs
    /// and is not deleted.
    pub fn user_has_media(&self, user_id: &str, media_id: &str) -> (has: bool)
        ensures
            has == may_read(self.media@, user_id@, media_id@),
    {
        self.find_readable(user_id, media_id).is_some()
    }

    /// The object key of the preview of a media that the user may read
    /// (`None` inside: the preview has not been made yet).
    pub fn get_preview_from_user(&self, user_id: &str, media_id: &str) -> (found: Result<
        Option<String>,
        GetPreviewError,
    >)
        ensures
            found is Ok <==> may_read(self.media@, user_id@, media_id@),
            match found {
                Ok(preview) => readable_row(self.media@, user_id@, media_id@) matches Some(m)
                    && text_of(preview) == text_of(m.preview_id),
                Err(e) => e == GetPreviewError::NotFound && readable_row(
                    self.media@,
                    user_id@,
                    media_id@,
                ) is None,
            },
    {
        match self.find_readable(user_id, media_id) {
            Some(at) => Ok(
                match &self.media[at].preview_id {
                    Some(key) => Some(key.clone()),
                    None => None,
                },
            ),
            None => Err(GetPreviewError::NotFound),
        }
    }

    /// Files the object key of a media's preview and stamps the row with
    /// `now`.
    pub fn update_media_preview(&mut self, media_id: &str, preview_id: String, now: i64) -> (updated:
        Result<(), UpdateMediaError>)
        requires
            old(self).wf(),
        ensures
            final(self).wf(),
            final(self).same_but_media(old(self)),
            updated is Ok <==> has_id(old(self).media@, media_id@),
            match updated {
                Ok(()) => exists|at: int|
                    {
                        &&& #[trigger] changed_at(old(self).media@, final(self).media@, at)
                        &&& old(self).media@[at].id@ == media_id@
                        &&& text_of(final(self).media@[at].preview_id) == Some(preview_id@)
                        &&& final(self).media@[at].last_modified_at == now
                        &&& final(self).media@[at].deleted == old(self).media@[at].deleted
                        &&& final(self).media@[at].metadata == old(self).media@[at].metadata
                    },
                Err(_) => final(self).media@ == old(self).media@,
            },
    {
        match self.find_media(media_id) {
            Some(at) => {
                self.media[at].preview_id = Some(preview_id);
                self.media[at].last_modified_at = now;
                proof {
                    lemma_change_keeps_keys(old(self).media@, self.media@, at as int);
                    assert(changed_at(old(self).media@, self.media@, at as int));
                }
                Ok(())
            },
            None => Err(UpdateMediaError::NotFound),
        }
    }

    /// Files the camera metadata of a media and stamps the row with `now`.
    pub fn set_media_metadata(&mut self, media_id: &str, metadata: MediaMetadata, now: i64) -> (updated:
        Result<(), UpdateMediaError>)
        requires
            old(self).wf(),
        ensures
            final(self).wf(),
            final(self).same_but_media(old(self)),
            updated is Ok <==> has_id(old(self).media@, media_id@),
            match updated {
                Ok(()) => exists|at: int|
                    {
                        &&& #[trigger] changed_at(old(self).media@, final(self).media@, at)
                        &&& old(self).media@[at].id@ == media_id@
                        &&& final(self).media@[at].metadata == metadata
                        &&& final(self).media@[at].last_modified_at == now
                        &&& final(self).media@[at].deleted == old(self).media@[at].deleted
                        &&& final(self).media@[at].preview_id == old(self).media@[at].preview_id
                    },
                Err(_) => final(self).media@ == old(self).media@,
            },
    {
        match self.find_media(media_id) {
            Some(at) => {
                self.media[at].metadata = metadata;
                self.media[at].last_modified_at = now;
                proof {
                    lemma_change_keeps_keys(old(self).media@, self.media@, at as int);
                    assert(changed_at(old(self).media@, self.media@, at as int));
                }
                Ok(())
            },
            None => Err(UpdateMediaError::NotFound),
        }
    }

    /// Deletes a media of the user: sets the tombstone and stamps the row
    /// with `now`. The row stays, so that a partial sync can report the
    /// deletion.
    pub fn delete_media(&mut self, media_id: &str, user_id: &str, now: i64) -> (deleted: Result<
        (),
        UpdateMediaError,
    >)
        requires
            old(self).wf(),
        ensures
            final(self).wf(),
            final(self).same_but_media(old(self)),
            deleted is Ok <==> exists|i: int|
                0 <= i < old(self).media@.len() && (#[trigger] old(self).media@[i]).id@
                    == media_id@ && old(self).media@[i].user_id@ == user_id@,
            match deleted {
                Ok(()) => exists|at: int|
                    {
                        &&& #[trigger] changed_at(old(self).media@, final(self).media@, at)
                        &&& old(self).media@[at].id@ == media_id@
                        &&& old(self).media@[at].user_id@ == user_id@
                        &&& final(self).media@[at].deleted
                        &&& final(self).media@[at].last_modified_at == now
                        &&& final(self).media@[at].metadata == old(self).media@[at].metadata
                        &&& final(self).media@[at].preview_id == old(self).media@[at].preview_id
                    },
                Err(_) => final(self).media@ == old(self).media@,
            },
    {
        match self.find_media(media_id) {
            Some(at) => {
                if !str_eq(self.media[at].user_id.as_str(), user_id) {
                    assert forall|i: int|
                        0 <= i < self.media@.len() && (#[trigger] self.media@[i]).id@
                            == media_id@ implies self.media@[i].user_id@ != user_id@ by {
                        if i < at {
                            assert(self.media@[i].id@ != self.media@[at as int].id@);
                        } else if i > at {
                            assert(self.media@[at as int].id@ != self.media@[i].id@);
                        }
                    }
                    return Err(UpdateMediaError::NotFound);
                }
                self.media[at].deleted = true;
                self.media[at].last_modified_at = now;
                proof {
                    lemma_change_keeps_keys(old(self).media@, self.media@, at as int);
                    assert(changed_at(old(self).media@, self.media@, at as int));
                }
                Ok(())
            },
            None => Err(UpdateMediaError::NotFound),
        }
    }
}

/// Whether no media id occurs twice and no user holds a digest twice.
fn media_keys_are_unique(media: &Vec<Media>) -> (unique: bool)
    ensures
        unique == (unique_media_ids(media@) && unique_digests(media@)),
{
    let mut j: usize = 0;
    while j < media.len()
        invariant
            0 <= j <= media@.len(),
            forall|a: int, b: int|
                0 <= a < b < j ==> (#[trigger] media@[a]).id@ != (#[trigger] media@[b]).id@,
            forall|a: int, b: int|
                0 <= a < b < j ==> !carries(
                    #[trigger] media@[a],
                    (#[trigger] media@[b]).user_id@,
                    media@[b].hash@,
                ),
        decreases media@.len() - j,
    {
        let mut i: usize = 0;
        while i < j
            invariant
                0 <= i <= j < media@.len(),
                forall|a: int| 0 <= a < i ==> (#[trigger] media@[a]).id@ != media@[j as int].id@,
                forall|a: int|
                    0 <= a < i ==> !carries(
                        #[trigger] media@[a],
                        media@[j as int].user_id@,
                        media@[j as int].hash@,
                    ),
            decreases j - i,
        {
            let same_id = str_eq(media[i].id.as_str(), media[j].id.as_str());
            let same_digest = str_eq(media[i].user_id.as_str(), media[j].user_id.as_str())
                && str_eq(media[i].hash.as_str(), media[j].hash.as_str());
            if same_id || same_digest {
                assert(same_digest == carries(
                    media@[i as int],
                    media@[j as int].user_id@,
                    media@[j as int].hash@,
                ));
                return false;
            }
            i += 1;
        }
        j += 1;
    }
    true
}

/// Whether no username and no user id occurs twice.
fn users_are_unique(users: &Vec<User>) -> (unique: bool)
    ensures
        unique == unique_users(users@),
{
    let mut j: usize = 0;
    while j < users.len()
        invariant
            0 <= j <= users@.len(),
            forall|a: int, b: int|
                0 <= a < b < j ==> (#[trigger] users@[a]).username@ != (
                #[trigger] users@[b]).username@ && users@[a].id@ != users@[b].id@,
        decreases users@.len() - j,
    {
        let mut i: usize = 0;
        while i < j
            invariant
                0 <= i <= j < users@.len(),
                forall|a: int|
                    0 <= a < i ==> (#[trigger] users@[a]).username@ != users@[j as int].username@
                        && users@[a].id@ != users@[j as int].id@,
            decreases j - i,
        {
            if str_eq(users[i].username.as_str(), users[j].username.as_str()) || str_eq(
                users[i].id.as_str(),
                users[j].id.as_str(),
            ) {
                return false;
            }
            i += 1;
        }
        j += 1;
    }
    true
}

/// Whether no cluster id occurs twice.
fn cluster_ids_are_unique(clusters: &Vec<ClusterRow>) -> (unique: bool)
    ensures
        unique == unique_cluster_ids(clusters@),
{
    let mut j: usize = 0;
    while j < clusters.len()
        invariant
            0 <= j <= clusters@.len(),
            forall|a: int, b: int|
                0 <= a < b < j ==> (#[trigger] clusters@[a]).id != (#[trigger] clusters@[b]).id,
        decreases clusters@.len() - j,
    {
        let mut i: usize = 0;
        while i < j
            invariant
                0 <= i <= j < clusters@.len(),
                forall|a: int| 0 <= a < i ==> (#[trigger] clusters@[a]).id != clusters@[j as int].id,
            decreases j - i,
        {
            if clusters[i].id == clusters[j].id {
                return false;
            }
            i += 1;
        }
        j += 1;
    }
    true
}

/// Whether no face id occurs twice.
fn face_ids_are_unique(faces: &Vec<FaceRow>) -> (unique: bool)
    ensures
        unique == unique_face_ids(faces@),
{
    let mut j: usize = 0;
    while j < faces.len()
        invariant
            0 <= j <= faces@.len(),
            forall|a: int, b: int|
                0 <= a < b < j ==> (#[trigger] faces@[a]).id != (#[trigger] faces@[b]).id,
        decreases faces@.len() - j,
    {
        let mut i: usize = 0;
        while i < j
            invariant
                0 <= i <= j < faces@.len(),
                forall|a: int| 0 <= a < i ==> (#[trigger] faces@[a]).id != faces@[j as int].id,
            decreases j - i,
        {
            if faces[i].id == faces[j].id {
                return false;
            }
            i += 1;
        }
        j += 1;
    }
    true
}

/// A change of one row that keeps its id, owner and digest keeps the
/// catalog's keys unique.
pub proof fn lemma_change_keeps_keys(before: Seq<Media>, after: Seq<Media>, at: int)
    requires
        unique_media_ids(before),
        unique_digests(before),
        changed_at(before, after, at),
    ensures
        unique_media_ids(after),
        unique_digests(after),
{
    assert forall|i: int, j: int| 0 <= i < j < after.len() implies (#[trigger] after[i]).id@ != (
    #[trigger] after[j]).id@ by {
        assert(before[i].id@ != before[j].id@);
        assert(after[i].id@ == before[i].id@);
        assert(after[j].id@ == before[j].id@);
    }
    assert forall|i: int, j: int| 0 <= i < j < after.len() implies !carries(
        #[trigger] after[i],
        (#[trigger] after[j]).user_id@,
        after[j].hash@,
    ) by {
        assert(!carries(before[i], before[j].user_id@, before[j].hash@));
        assert(after[i].user_id@ == before[i].user_id@ && after[i].hash@ == before[i].hash@);
        assert(after[j].user_id@ == before[j].user_id@ && after[j].hash@ == before[j].hash@);
    }
}


/// Deduplication. Once the row of an upload with digest `hash` has been
/// added for `user`, the catalog holds that digest for the user, so that the
/// next upload of the same bytes is found to be a duplicate; and exactly one
/// row of the user carries the digest.
pub proof fn lemma_digest_is_held_once(
    before: Seq<Media>,
    after: Seq<Media>,
    user: Seq<char>,
    hash: Seq<char>,
)
    requires
        unique_digests(after),
        after.len() == before.len() + 1,
        after.drop_last() == before,
        carries(after.last(), user, hash),
    ensures
        holds_digest(after, user, hash),
        !holds_digest(before, user, hash),
        forall|i: int, j: int|
            0 <= i < after.len() && 0 <= j < after.len() && carries(#[trigger] after[i], user, hash)
                && carries(#[trigger] after[j], user, hash) ==> i == j,
{
    let last = after.len() - 1;
    assert(carries(after[last], user, hash));
    assert forall|i: int, j: int|
        0 <= i < after.len() && 0 <= j < after.len() && carries(#[trigger] after[i], user, hash)
            && carries(#[trigger] after[j], user, hash) implies i == j by {
        if i < j {
            assert(!carries(after[i], after[j].user_id@, after[j].hash@));
        } else if j < i {
            assert(!carries(after[j], after[i].user_id@, after[i].hash@));
        }
    }
    if holds_digest(before, user, hash) {
        let i = choose|i: int| 0 <= i < before.len() && carries(#[trigger] before[i], user, hash);
        assert(after.drop_last()[i] == after[i]);
        assert(carries(after[i], user, hash));
    }
}

/// A digest that a user holds stays held whatever is changed or added
/// afterwards: no row is ever removed, and a change keeps the owner and the
/// digest of its row. So a deleted media still stands in the way of a
/// second upload of the same bytes.
pub proof fn lemma_digest_stays_held(
    before: Seq<Media>,
    after: Seq<Media>,
    user: Seq<char>,
    hash: Seq<char>,
)
    requires
        holds_digest(before, user, hash),
        (exists|at: int| #[trigger] changed_at(before, after, at)) || (after.len() == before.len()
            + 1 && after.drop_last() == before),
    ensures
        holds_digest(after, user, hash),
{
    let i = choose|i: int| 0 <= i < before.len() && carries(#[trigger] before[i], user, hash);
    if exists|at: int| #[trigger] changed_at(before, after, at) {
        let at = choose|at: int| #[trigger] changed_at(before, after, at);
        if i != at {
            assert(after[i] == before[i]);
        }
        assert(carries(after[i], user, hash));
    } else {
        assert(after.drop_last()[i] == after[i]);
        assert(carries(after[i], user, hash));
    }
}

/// Access scoping. In a catalog with unique ids, a media that belongs to
/// one user cannot be read by another.
pub proof fn lemma_access_is_scoped(
    media: Seq<Media>,
    owner: Seq<char>,
    other: Seq<char>,
    at: int,
)
    requires
        unique_media_ids(media),
        0 <= at < media.len(),
        media[at].user_id@ == owner,
        owner != other,
    ensures
        !may_read(media, other, media[at].id@),
{
    if may_read(media, other, media[at].id@) {
        let i = choose|i: int|
            0 <= i < media.len() && readable(#[trigger] media[i], other, media[at].id@);
        if i < at {
            assert(media[i].id@ != media[at].id@);
        } else if at < i {
            assert(media[at].id@ != media[i].id@);
        }
    }
}

} // verus!

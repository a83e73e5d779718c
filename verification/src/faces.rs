//! People: the faces that were detected on a user's media, the clusters
//! they were put in, and the persons that the user has named.

use crate::browse::{presign_get, PresignRequest, PRESIGN_TTL_SECS};
use crate::catalog::{
    first_where, lemma_first_where, lemma_first_where_none, ClusterRow, DbManager, FaceRow, Media,
    MediaFace,
};
use crate::listing::{entries, listing_page, rows_at};
use crate::sync::is_live;
use crate::text::str_eq;
use vstd::prelude::*;

verus! {

/// A named person as the summary shows it.
pub struct Face {
    pub face_id: i32,
    pub name: String,
    /// The media that stands for the person.
    pub photo_id: String,
    /// Where on that media the face is.
    pub bbox: Vec<i32>,
}

/// A cluster without a name as the summary shows it.
pub struct Cluster {
    pub cluster_id: i32,
    /// The media that stands for the cluster.
    pub photo_id: String,
    /// Where on that media the face is.
    pub bbox: Vec<i32>,
}

/// What a summary says of a named person.
pub struct FaceView {
    pub face_id: i32,
    pub name: Seq<char>,
    pub photo_id: Seq<char>,
    pub bbox: Seq<i32>,
}

/// What a summary says of a cluster without a name.
pub struct ClusterView {
    pub cluster_id: i32,
    pub photo_id: Seq<char>,
    pub bbox: Seq<i32>,
}

impl View for Face {
    type V = FaceView;

    open spec fn view(&self) -> FaceView {
        FaceView {
            face_id: self.face_id,
            name: self.name@,
            photo_id: self.photo_id@,
            bbox: self.bbox@,
        }
    }
}

impl View for Cluster {
    type V = ClusterView;

    open spec fn view(&self) -> ClusterView {
        ClusterView { cluster_id: self.cluster_id, photo_id: self.photo_id@, bbox: self.bbox@ }
    }
}

/// Selects the media with the id `id`.
pub open spec fn with_id(id: Seq<char>) -> spec_fn(Media) -> bool {
    |m: Media| m.id@ == id
}

/// Selects the detections in the cluster `cluster_id`.
pub open spec fn in_cluster(cluster_id: i32) -> spec_fn(MediaFace) -> bool {
    |f: MediaFace| f.cluster_id == cluster_id
}

/// Selects the detections on the media `media_id`.
pub open spec fn on_media(media_id: Seq<char>) -> spec_fn(MediaFace) -> bool {
    |f: MediaFace| f.media_id@ == media_id
}

/// Selects the cluster with the id `id`.
pub open spec fn cluster_with_id(id: i32) -> spec_fn(ClusterRow) -> bool {
    |c: ClusterRow| c.id == id
}

/// Selects the person with the id `id`.
pub open spec fn face_with_id(id: i32) -> spec_fn(FaceRow) -> bool {
    |f: FaceRow| f.id == id
}

/// The live media of `user` on which the detection `f` was made, if the
/// detection is in the cluster `cluster_id`.
pub open spec fn cluster_member(media: Seq<Media>, user: Seq<char>, cluster_id: i32) -> spec_fn(
    MediaFace,
) -> Option<Media> {
    |f: MediaFace|
        if f.cluster_id != cluster_id {
            None
        } else {
            match first_where(media, with_id(f.media_id@)) {
                Some(at) => if is_live(media[at], user) {
                    Some(media[at])
                } else {
                    None
                },
                None => None,
            }
        }
}

/// The live media of `user` on which the detection `f` was made, if the
/// detection is in a cluster of the person `face_id`.
pub open spec fn face_member(
    media: Seq<Media>,
    clusters: Seq<ClusterRow>,
    user: Seq<char>,
    face_id: i32,
) -> spec_fn(MediaFace) -> Option<Media> {
    |f: MediaFace|
        match first_where(clusters, cluster_with_id(f.cluster_id)) {
            None => None,
            Some(c) => if clusters[c].face_id != Some(face_id) {
                None
            } else {
                match first_where(media, with_id(f.media_id@)) {
                    Some(at) => if is_live(media[at], user) {
                        Some(media[at])
                    } else {
                        None
                    },
                    None => None,
                }
            },
        }
}

impl DbManager {
    /// The position of the first detection in the cluster, if there is one.
    pub fn find_detection_in_cluster(&self, cluster_id: i32) -> (found: Option<usize>)
        ensures
            match found {
                Some(at) => first_where(self.media_faces@, in_cluster(cluster_id)) == Some(
                    at as int,
                ) && at < self.media_faces@.len(),
                None => first_where(self.media_faces@, in_cluster(cluster_id)) is None,
            },
    {
        let ghost p = in_cluster(cluster_id);
        let mut i: usize = 0;
        while i < self.media_faces.len()
            invariant
                0 <= i <= self.media_faces@.len(),
                p == in_cluster(cluster_id),
                forall|j: int| 0 <= j < i ==> !p(#[trigger] self.media_faces@[j]),
            decreases self.media_faces@.len() - i,
        {
            if self.media_faces[i].cluster_id == cluster_id {
                proof {
                    lemma_first_where(self.media_faces@, p, i as int);
                }
                return Some(i);
            }
            i += 1;
        }
        proof {
            lemma_first_where_none(self.media_faces@, p);
        }
        None
    }

    /// The position of the first detection on the media, if there is one.
    pub fn find_detection_on_media(&self, media_id: &str) -> (found: Option<usize>)
        ensures
            match found {
                Some(at) => first_where(self.media_faces@, on_media(media_id@)) == Some(at as int)
                    && at < self.media_faces@.len(),
                None => first_where(self.media_faces@, on_media(media_id@)) is None,
            },
    {
        let ghost p = on_media(media_id@);
        let mut i: usize = 0;
        while i < self.media_faces.len()
            invariant
                0 <= i <= self.media_faces@.len(),
                p == on_media(media_id@),
                forall|j: int| 0 <= j < i ==> !p(#[trigger] self.media_faces@[j]),
            decreases self.media_faces@.len() - i,
        {
            if str_eq(self.media_faces[i].media_id.as_str(), media_id) {
                proof {
                    lemma_first_where(self.media_faces@, p, i as int);
                }
                return Some(i);
            }
            i += 1;
        }
        proof {
            lemma_first_where_none(self.media_faces@, p);
        }
        None
    }

    /// The position of the cluster with this id, if there is one.
    pub fn find_cluster(&self, cluster_id: i32) -> (found: Option<usize>)
        ensures
            match found {
                Some(at) => first_where(self.clusters@, cluster_with_id(cluster_id)) == Some(
                    at as int,
                ) && at < self.clusters@.len(),
                None => first_where(self.clusters@, cluster_with_id(cluster_id)) is None,
            },
    {
        let ghost p = cluster_with_id(cluster_id);
        let mut i: usize = 0;
        while i < self.clusters.len()
            invariant
                0 <= i <= self.clusters@.len(),
                p == cluster_with_id(cluster_id),
                forall|j: int| 0 <= j < i ==> !p(#[trigger] self.clusters@[j]),
            decreases self.clusters@.len() - i,
        {
            if self.clusters[i].id == cluster_id {
                proof {
                    lemma_first_where(self.clusters@, p, i as int);
                }
                return Some(i);
            }
            i += 1;
        }
        proof {
            lemma_first_where_none(self.clusters@, p);
        }
        None
    }

    /// The position of the person with this id, if there is one.
    pub fn find_face(&self, face_id: i32) -> (found: Option<usize>)
        ensures
            match found {
                Some(at) => first_where(self.faces@, face_with_id(face_id)) == Some(at as int)
                    && at < self.faces@.len(),
                None => first_where(self.faces@, face_with_id(face_id)) is None,
            },
    {
        let ghost p = face_with_id(face_id);
        let mut i: usize = 0;
        while i < self.faces.len()
            invariant
                0 <= i <= self.faces@.len(),
                p == face_with_id(face_id),
                forall|j: int| 0 <= j < i ==> !p(#[trigger] self.faces@[j]),
            decreases self.faces@.len() - i,
        {
            if self.faces[i].id == face_id {
                proof {
                    lemma_first_where(self.faces@, p, i as int);
                }
                return Some(i);
            }
            i += 1;
        }
        proof {
            lemma_first_where_none(self.faces@, p);
        }
        None
    }

    /// The position of the live media of the user with this id, if there is
    /// one.
    fn find_live(&self, user_id: &str, media_id: &str) -> (found: Option<usize>)
        ensures
            match found {
                Some(at) => at < self.media@.len() && first_where(self.media@, with_id(media_id@))
                    == Some(at as int) && is_live(self.media@[at as int], user_id@),
                None => match first_where(self.media@, with_id(media_id@)) {
                    Some(at) => !is_live(self.media@[at], user_id@),
                    None => true,
                },
            },
    {
        let ghost p = with_id(media_id@);
        match self.find_media(media_id) {
            Some(at) => {
                proof {
                    lemma_first_where(self.media@, p, at as int);
                }
                let m = &self.media[at];
                if str_eq(m.user_id.as_str(), user_id) && !m.deleted {
                    Some(at)
                } else {
                    None
                }
            },
            None => {
                proof {
                    lemma_first_where_none(self.media@, p);
                }
                None
            },
        }
    }

    /// Lists a page of the user's live media on which a face of the cluster
    /// was detected, newest first, each with the object key of its preview.
    /// A media is listed once for each such detection.
    pub fn get_cluster_previews(&self, user_id: &str, cluster_id: i32, page: u64, page_size: u64) -> (answers:
        Vec<(String, Option<String>)>)
        ensures
            entries(answers@) == listing_page(
                self.media_faces@.filter_map(cluster_member(self.media@, user_id@, cluster_id)),
                page,
                page_size,
            ),
            answers@.len() <= page_size,
    {
        let ghost keep = cluster_member(self.media@, user_id@, cluster_id);
        let mut positions: Vec<usize> = Vec::new();
        let mut i: usize = 0;
        assert(rows_at(self.media@, positions@) =~= self.media_faces@.take(0).filter_map(keep));
        while i < self.media_faces.len()
            invariant
                0 <= i <= self.media_faces@.len(),
                keep == cluster_member(self.media@, user_id@, cluster_id),
                forall|k: int|
                    0 <= k < positions@.len() ==> #[trigger] positions@[k] < self.media@.len(),
                rows_at(self.media@, positions@) == self.media_faces@.take(i as int).filter_map(
                    keep,
                ),
            decreases self.media_faces@.len() - i,
        {
            proof {
                self.media_faces@.lemma_filter_map_take_succ(keep, i as int);
            }
            let f = &self.media_faces[i];
            if f.cluster_id == cluster_id {
                if let Some(at) = self.find_live(user_id, f.media_id.as_str()) {
                    let ghost before = positions@;
                    positions.push(at);
                    assert(rows_at(self.media@, positions@) =~= rows_at(self.media@, before).push(
                        self.media@[at as int],
                    ));
                }
            }
            i += 1;
        }
        assert(self.media_faces@.take(self.media_faces@.len() as int) == self.media_faces@);
        self.list_page(&positions, page, page_size)
    }

    /// Lists a page of the user's live media on which a face of the person
    /// was detected, newest first, each with the object key of its preview.
    /// A person is the union of the clusters that carry its id.
    pub fn get_face_previews(&self, user_id: &str, face_id: i32, page: u64, page_size: u64) -> (answers:
        Vec<(String, Option<String>)>)
        ensures
            entries(answers@) == listing_page(
                self.media_faces@.filter_map(
                    face_member(self.media@, self.clusters@, user_id@, face_id),
                ),
                page,
                page_size,
            ),
            answers@.len() <= page_size,
    {
        let ghost keep = face_member(self.media@, self.clusters@, user_id@, face_id);
        let mut positions: Vec<usize> = Vec::new();
        let mut i: usize = 0;
        assert(rows_at(self.media@, positions@) =~= self.media_faces@.take(0).filter_map(keep));
        while i < self.media_faces.len()
            invariant
                0 <= i <= self.media_faces@.len(),
                keep == face_member(self.media@, self.clusters@, user_id@, face_id),
                forall|k: int|
                    0 <= k < positions@.len() ==> #[trigger] positions@[k] < self.media@.len(),
                rows_at(self.media@, positions@) == self.media_faces@.take(i as int).filter_map(
                    keep,
                ),
            decreases self.media_faces@.len() - i,
        {
            proof {
                self.media_faces@.lemma_filter_map_take_succ(keep, i as int);
            }
            let f = &self.media_faces[i];
            let of_face = match self.find_cluster(f.cluster_id) {
                Some(c) => match self.clusters[c].face_id {
                    Some(id) => id == face_id,
                    None => false,
                },
                None => false,
            };
            if of_face {
                if let Some(at) = self.find_live(user_id, f.media_id.as_str()) {
                    let ghost before = positions@;
                    positions.push(at);
                    assert(rows_at(self.media@, positions@) =~= rows_at(self.media@, before).push(
                        self.media@[at as int],
                    ));
                }
            }
            i += 1;
        }
        assert(self.media_faces@.take(self.media_faces@.len() as int) == self.media_faces@);
        self.list_page(&positions, page, page_size)
    }
}


/// A copy of a bounding box.
fn copy_box(bbox: &Vec<i32>) -> (copy: Vec<i32>)
    ensures
        copy@ == bbox@,
{
    let mut copy: Vec<i32> = Vec::new();
    let mut i: usize = 0;
    while i < bbox.len()
        invariant
            0 <= i <= bbox@.len(),
            copy@ == bbox@.take(i as int),
        decreases bbox@.len() - i,
    {
        copy.push(bbox[i]);
        assert(copy@ =~= bbox@.take(i + 1));
        i += 1;
    }
    assert(bbox@.take(bbox@.len() as int) =~= bbox@);
    copy
}

impl DbManager {
    /// The person that the cluster at `k` stands for, if the cluster
    /// carries the id of a person that exists.
    pub open spec fn person_of(&self, k: int) -> Option<FaceRow> {
        match self.clusters@[k].face_id {
            None => None,
            Some(id) => match first_where(self.faces@, face_with_id(id)) {
                Some(at) => Some(self.faces@[at]),
                None => None,
            },
        }
    }

    /// The detection that is shown for the cluster at `k`: for a person
    /// with a featured media, the first detection on that media; else the
    /// first detection in the cluster.
    pub open spec fn representative(&self, k: int) -> Option<MediaFace> {
        let found = match self.person_of(k) {
            Some(FaceRow { featured_photo_id: Some(photo), .. }) => first_where(
                self.media_faces@,
                on_media(photo@),
            ),
            _ => first_where(self.media_faces@, in_cluster(self.clusters@[k].id)),
        };
        match found {
            Some(at) => Some(self.media_faces@[at]),
            None => None,
        }
    }

    /// Whether a cluster of `user` before the one at `k` carries the same
    /// person.
    pub open spec fn shown_before(&self, user: Seq<char>, k: int) -> bool {
        exists|j: int|
            0 <= j < k && (#[trigger] self.clusters@[j]).user_id@ == user
                && self.clusters@[j].face_id == self.clusters@[k].face_id
    }

    /// What the summary of `user` says of the person of the cluster at `k`:
    /// the cluster must be theirs, stand for a person, be the first of
    /// their clusters that does so for this person, and have a detection to
    /// show.
    pub open spec fn face_entry(&self, user: Seq<char>, k: int) -> Option<FaceView> {
        if self.clusters@[k].user_id@ != user || self.shown_before(user, k) {
            None
        } else {
            match (self.person_of(k), self.representative(k)) {
                (Some(person), Some(shown)) => Some(
                    FaceView {
                        face_id: person.id,
                        name: person.name@,
                        photo_id: shown.media_id@,
                        bbox: shown.face_bounding_box@,
                    },
                ),
                _ => None,
            }
        }
    }

    /// What the summary of `user` says of the cluster at `k` as a cluster
    /// without a name: the cluster must be theirs, stand for no person, and
    /// have a detection to show.
    pub open spec fn cluster_entry(&self, user: Seq<char>, k: int) -> Option<ClusterView> {
        if self.clusters@[k].user_id@ != user {
            None
        } else {
            match (self.person_of(k), self.representative(k)) {
                (None, Some(shown)) => Some(
                    ClusterView {
                        cluster_id: self.clusters@[k].id,
                        photo_id: shown.media_id@,
                        bbox: shown.face_bounding_box@,
                    },
                ),
                _ => None,
            }
        }
    }

    /// The named persons that the summary of `user` shows among the first
    /// `n` clusters, in catalog order.
    pub open spec fn face_entries(&self, user: Seq<char>, n: int) -> Seq<FaceView>
        decreases n,
    {
        if n <= 0 {
            Seq::empty()
        } else {
            match self.face_entry(user, n - 1) {
                Some(entry) => self.face_entries(user, n - 1).push(entry),
                None => self.face_entries(user, n - 1),
            }
        }
    }

    /// The clusters without a name that the summary of `user` shows among
    /// the first `n` clusters, in catalog order.
    pub open spec fn cluster_entries(&self, user: Seq<char>, n: int) -> Seq<ClusterView>
        decreases n,
    {
        if n <= 0 {
            Seq::empty()
        } else {
            match self.cluster_entry(user, n - 1) {
                Some(entry) => self.cluster_entries(user, n - 1).push(entry),
                None => self.cluster_entries(user, n - 1),
            }
        }
    }

    fn is_shown_before(&self, user_id: &str, k: usize) -> (shown: bool)
        requires
            k < self.clusters@.len(),
        ensures
            shown == self.shown_before(user_id@, k as int),
    {
        let mut j: usize = 0;
        while j < k
            invariant
                0 <= j <= k < self.clusters@.len(),
                forall|i: int|
                    0 <= i < j ==> !((#[trigger] self.clusters@[i]).user_id@ == user_id@
                        && self.clusters@[i].face_id == self.clusters@[k as int].face_id),
            decreases k - j,
        {
            let same = match (self.clusters[j].face_id, self.clusters[k].face_id) {
                (Some(a), Some(b)) => a == b,
                (None, None) => true,
                _ => false,
            };
            if same && str_eq(self.clusters[j].user_id.as_str(), user_id) {
                return true;
            }
            j += 1;
        }
        false
    }

    /// The summary of the user's people: the persons they have named, each
    /// once, and their clusters without a name, each with a media that
    /// stands for it and the place of the face on it.
    pub fn get_faces(&self, user_id: &str) -> (summary: (Vec<Face>, Vec<Cluster>))
        ensures
            summary.0@.map_values(|f: Face| f@) == self.face_entries(
                user_id@,
                self.clusters@.len() as int,
            ),
            summary.1@.map_values(|c: Cluster| c@) == self.cluster_entries(
                user_id@,
                self.clusters@.len() as int,
            ),
    {
        let mut faces: Vec<Face> = Vec::new();
        let mut clusters: Vec<Cluster> = Vec::new();
        let mut k: usize = 0;
        assert(faces@.map_values(|f: Face| f@) =~= self.face_entries(user_id@, 0));
        assert(clusters@.map_values(|c: Cluster| c@) =~= self.cluster_entries(user_id@, 0));
        while k < self.clusters.len()
            invariant
                0 <= k <= self.clusters@.len(),
                faces@.map_values(|f: Face| f@) == self.face_entries(user_id@, k as int),
                clusters@.map_values(|c: Cluster| c@) == self.cluster_entries(user_id@, k as int),
            decreases self.clusters@.len() - k,
        {
            let row = &self.clusters[k];
            if str_eq(row.user_id.as_str(), user_id) {
                let person: Option<usize> = match row.face_id {
                    Some(id) => self.find_face(id),
                    None => None,
                };
                assert(match person {
                    Some(at) => self.person_of(k as int) == Some(self.faces@[at as int]),
                    None => self.person_of(k as int) is None,
                });
                let shown: Option<usize> = match person {
                    Some(at) => match &self.faces[at].featured_photo_id {
                        Some(photo) => self.find_detection_on_media(photo.as_str()),
                        None => self.find_detection_in_cluster(row.id),
                    },
                    None => self.find_detection_in_cluster(row.id),
                };
                assert(match shown {
                    Some(at) => self.representative(k as int) == Some(self.media_faces@[at as int]),
                    None => self.representative(k as int) is None,
                });
                if let Some(at) = shown {
                    let detection = &self.media_faces[at];
                    match person {
                        Some(p) => {
                            if !self.is_shown_before(user_id, k) {
                                let ghost before = faces@;
                                let entry = Face {
                                    face_id: self.faces[p].id,
                                    name: self.faces[p].name.clone(),
                                    photo_id: detection.media_id.clone(),
                                    bbox: copy_box(&detection.face_bounding_box),
                                };
                                let ghost view = entry@;
                                faces.push(entry);
                                assert(faces@.map_values(|f: Face| f@) =~= before.map_values(
                                    |f: Face| f@,
                                ).push(view));
                            }
                        },
                        None => {
                            let ghost before = clusters@;
                            let entry = Cluster {
                                cluster_id: row.id,
                                photo_id: detection.media_id.clone(),
                                bbox: copy_box(&detection.face_bounding_box),
                            };
                            let ghost view = entry@;
                            clusters.push(entry);
                            assert(clusters@.map_values(|c: Cluster| c@) =~= before.map_values(
                                |c: Cluster| c@,
                            ).push(view));
                        },
                    }
                }
            }
            k += 1;
        }
        (faces, clusters)
    }
}


/// Why a person could not be added.
#[derive(Clone, Copy, Debug, PartialEq, Eq, Structural)]
pub enum InsertFaceError {
    /// There is no id left for a new person.
    OutOfIds,
}

/// The largest id of a person among `faces`, or 0 where none is positive.
pub open spec fn largest_face_id(faces: Seq<FaceRow>) -> int
    decreases faces.len(),
{
    if faces.len() == 0 {
        0
    } else {
        let rest = largest_face_id(faces.drop_last());
        if faces.last().id > rest {
            faces.last().id as int
        } else {
            rest
        }
    }
}

/// No person has an id above the largest.
pub proof fn lemma_largest_face_id(faces: Seq<FaceRow>)
    ensures
        largest_face_id(faces) >= 0,
        forall|i: int| 0 <= i < faces.len() ==> (#[trigger] faces[i]).id <= largest_face_id(faces),
    decreases faces.len(),
{
    if faces.len() > 0 {
        let init = faces.drop_last();
        lemma_largest_face_id(init);
        assert forall|i: int| 0 <= i < faces.len() implies (#[trigger] faces[i]).id
            <= largest_face_id(faces) by {
            if i < init.len() {
                assert(init[i] == faces[i]);
            }
        }
    }
}

/// What becomes of a cluster when `user` names the clusters `ids` as the
/// person `face_id`: a cluster of the user that is among them carries the
/// person from then on; every other cluster is as it was.
pub open spec fn labelled(c: ClusterRow, user: Seq<char>, ids: Seq<i32>, face_id: i32) -> ClusterRow {
    if c.user_id@ == user && ids.contains(c.id) {
        ClusterRow { id: c.id, user_id: c.user_id, face_id: Some(face_id) }
    } else {
        c
    }
}

/// Whether `id` is among `ids`.
fn is_among(ids: &Vec<i32>, id: i32) -> (among: bool)
    ensures
        among == ids@.contains(id),
{
    let mut i: usize = 0;
    while i < ids.len()
        invariant
            0 <= i <= ids@.len(),
            forall|j: int| 0 <= j < i ==> ids@[j] != id,
        decreases ids@.len() - i,
    {
        if ids[i] == id {
            return true;
        }
        i += 1;
    }
    false
}

impl DbManager {
    /// Adds a person that the user has named, and makes the user's clusters
    /// with the ids `ids` clusters of that person. The person gets the id
    /// after the largest that is taken, and has no featured media yet.
    /// Returns the id of the person.
    pub fn insert_face(&mut self, user_id: &str, ids: &Vec<i32>, name: String) -> (added: Result<
        i32,
        InsertFaceError,
    >)
        requires
            old(self).wf(),
        ensures
            final(self).wf(),
            final(self).users == old(self).users,
            final(self).media == old(self).media,
            final(self).media_faces == old(self).media_faces,
            final(self).logs == old(self).logs,
            added is Ok <==> largest_face_id(old(self).faces@) < i32::MAX,
            match added {
                Ok(face_id) => {
                    &&& face_id == largest_face_id(old(self).faces@) + 1
                    &&& final(self).faces@.len() == old(self).faces@.len() + 1
                    &&& final(self).faces@.drop_last() == old(self).faces@
                    &&& final(self).faces@.last().id == face_id
                    &&& final(self).faces@.last().user_id@ == user_id@
                    &&& final(self).faces@.last().name@ == name@
                    &&& final(self).faces@.last().featured_photo_id is None
                    &&& final(self).clusters@.len() == old(self).clusters@.len()
                    &&& forall|k: int|
                        0 <= k < old(self).clusters@.len() ==> #[trigger] final(self).clusters@[k]
                            == labelled(old(self).clusters@[k], user_id@, ids@, face_id)
                },
                Err(_) => final(self).faces@ == old(self).faces@ && final(self).clusters@ == old(
                    self,
                ).clusters@,
            },
    {
        let mut largest: i32 = 0;
        let mut i: usize = 0;
        while i < self.faces.len()
            invariant
                *self == *old(self),
                0 <= i <= self.faces@.len(),
                largest == largest_face_id(self.faces@.take(i as int)),
            decreases self.faces@.len() - i,
        {
            assert(self.faces@.take(i + 1).drop_last() =~= self.faces@.take(i as int));
            if self.faces[i].id > largest {
                largest = self.faces[i].id;
            }
            i += 1;
        }
        assert(self.faces@.take(self.faces@.len() as int) =~= self.faces@);
        if largest == i32::MAX {
            return Err(InsertFaceError::OutOfIds);
        }
        let face_id: i32 = largest + 1;
        proof {
            lemma_largest_face_id(self.faces@);
        }
        self.faces.push(
            FaceRow { id: face_id, user_id: user_id.to_owned(), name, featured_photo_id: None },
        );
        assert(self.faces@.drop_last() =~= old(self).faces@);
        let mut k: usize = 0;
        while k < self.clusters.len()
            invariant
                0 <= k <= self.clusters@.len(),
                self.clusters@.len() == old(self).clusters@.len(),
                self.users == old(self).users,
                self.media == old(self).media,
                self.media_faces == old(self).media_faces,
                self.logs == old(self).logs,
                self.faces@.len() == old(self).faces@.len() + 1,
                self.faces@.drop_last() == old(self).faces@,
                self.faces@.last().id == face_id,
                self.faces@.last().user_id@ == user_id@,
                self.faces@.last().name@ == name@,
                self.faces@.last().featured_photo_id is None,
                forall|j: int|
                    0 <= j < k ==> #[trigger] self.clusters@[j] == labelled(
                        old(self).clusters@[j],
                        user_id@,
                        ids@,
                        face_id,
                    ),
                forall|j: int|
                    k <= j < self.clusters@.len() ==> #[trigger] self.clusters@[j] == old(
                        self,
                    ).clusters@[j],
            decreases self.clusters@.len() - k,
        {
            if str_eq(self.clusters[k].user_id.as_str(), user_id) && is_among(
                ids,
                self.clusters[k].id,
            ) {
                self.clusters[k].face_id = Some(face_id);
            }
            k += 1;
        }
        proof {
            assert forall|a: int, b: int| 0 <= a < b < self.clusters@.len() implies (
            #[trigger] self.clusters@[a]).id != (#[trigger] self.clusters@[b]).id by {
                assert(old(self).clusters@[a].id != old(self).clusters@[b].id);
            }
            assert forall|a: int, b: int| 0 <= a < b < self.faces@.len() implies (
            #[trigger] self.faces@[a]).id != (#[trigger] self.faces@[b]).id by {
                if b < old(self).faces@.len() {
                    assert(self.faces@.drop_last()[a] == self.faces@[a]);
                    assert(self.faces@.drop_last()[b] == self.faces@[b]);
                    assert(old(self).faces@[a].id != old(self).faces@[b].id);
                } else {
                    assert(self.faces@.drop_last()[a] == self.faces@[a]);
                    assert(old(self).faces@[a].id <= largest);
                }
            }
        }
        Ok(face_id)
    }
}

/// A named person in the answer to a request for the summary.
pub struct FaceResponse {
    pub face_id: i32,
    pub name: String,
    /// The signed URL of the media that stands for the person.
    pub photo_url: String,
    pub bbox: Vec<i32>,
}

/// A cluster without a name in the answer to a request for the summary.
pub struct ClusterResponse {
    pub cluster_id: i32,
    /// The signed URL of the media that stands for the cluster.
    pub photo_url: String,
    pub bbox: Vec<i32>,
}

/// The body of the answer to a request for the summary.
pub struct GetFacesResponse {
    pub faces: Vec<FaceResponse>,
    pub clusters: Vec<ClusterResponse>,
}

/// The requests to sign the media that stand for the persons of a summary,
/// one for each person, in order.
pub fn face_requests(faces: &Vec<Face>) -> (requests: Vec<PresignRequest>)
    ensures
        requests@.len() == faces@.len(),
        forall|i: int|
            0 <= i < faces@.len() ==> (#[trigger] requests@[i]).spec_key() == faces@[i].photo_id@
                && requests@[i].spec_expiry_secs() == PRESIGN_TTL_SECS,
{
    let mut requests: Vec<PresignRequest> = Vec::new();
    let mut i: usize = 0;
    while i < faces.len()
        invariant
            0 <= i <= faces@.len(),
            requests@.len() == i,
            forall|j: int|
                0 <= j < i ==> (#[trigger] requests@[j]).spec_key() == faces@[j].photo_id@
                    && requests@[j].spec_expiry_secs() == PRESIGN_TTL_SECS,
        decreases faces@.len() - i,
    {
        requests.push(presign_get(faces[i].photo_id.clone()));
        i += 1;
    }
    requests
}

/// The requests to sign the media that stand for the clusters of a
/// summary, one for each cluster, in order.
pub fn cluster_requests(clusters: &Vec<Cluster>) -> (requests: Vec<PresignRequest>)
    ensures
        requests@.len() == clusters@.len(),
        forall|i: int|
            0 <= i < clusters@.len() ==> (#[trigger] requests@[i]).spec_key() == clusters@[i].photo_id@
                && requests@[i].spec_expiry_secs() == PRESIGN_TTL_SECS,
{
    let mut requests: Vec<PresignRequest> = Vec::new();
    let mut i: usize = 0;
    while i < clusters.len()
        invariant
            0 <= i <= clusters@.len(),
            requests@.len() == i,
            forall|j: int|
                0 <= j < i ==> (#[trigger] requests@[j]).spec_key() == clusters@[j].photo_id@
                    && requests@[j].spec_expiry_secs() == PRESIGN_TTL_SECS,
        decreases clusters@.len() - i,
    {
        requests.push(presign_get(clusters[i].photo_id.clone()));
        i += 1;
    }
    requests
}

/// Builds the answer to a request for the summary from the summary and the
/// signed URLs, one for each person and one for each cluster, in order.
/// `None` where a URL is missing or there is one too many.
pub fn faces_response(
    faces: &Vec<Face>,
    clusters: &Vec<Cluster>,
    face_urls: &Vec<String>,
    cluster_urls: &Vec<String>,
) -> (response: Option<GetFacesResponse>)
    ensures
        response is Some <==> face_urls@.len() == faces@.len() && cluster_urls@.len()
            == clusters@.len(),
        match response {
            Some(r) => {
                &&& r.faces@.len() == faces@.len()
                &&& r.clusters@.len() == clusters@.len()
                &&& forall|i: int|
                    0 <= i < faces@.len() ==> {
                        &&& (#[trigger] r.faces@[i]).face_id == faces@[i].face_id
                        &&& r.faces@[i].name@ == faces@[i].name@
                        &&& r.faces@[i].photo_url@ == face_urls@[i]@
                        &&& r.faces@[i].bbox@ == faces@[i].bbox@
                    }
                &&& forall|i: int|
                    0 <= i < clusters@.len() ==> {
                        &&& (#[trigger] r.clusters@[i]).cluster_id == clusters@[i].cluster_id
                        &&& r.clusters@[i].photo_url@ == cluster_urls@[i]@
                        &&& r.clusters@[i].bbox@ == clusters@[i].bbox@
                    }
            },
            None => true,
        },
{
    if face_urls.len() != faces.len() || cluster_urls.len() != clusters.len() {
        return None;
    }
    let mut shown_faces: Vec<FaceResponse> = Vec::new();
    let mut i: usize = 0;
    while i < faces.len()
        invariant
            0 <= i <= faces@.len(),
            face_urls@.len() == faces@.len(),
            shown_faces@.len() == i,
            forall|j: int|
                0 <= j < i ==> {
                    &&& (#[trigger] shown_faces@[j]).face_id == faces@[j].face_id
                    &&& shown_faces@[j].name@ == faces@[j].name@
                    &&& shown_faces@[j].photo_url@ == face_urls@[j]@
                    &&& shown_faces@[j].bbox@ == faces@[j].bbox@
                },
        decreases faces@.len() - i,
    {
        shown_faces.push(
            FaceResponse {
                face_id: faces[i].face_id,
                name: faces[i].name.clone(),
                photo_url: face_urls[i].clone(),
                bbox: copy_box(&faces[i].bbox),
            },
        );
        i += 1;
    }
    let mut shown_clusters: Vec<ClusterResponse> = Vec::new();
    let mut k: usize = 0;
    while k < clusters.len()
        invariant
            0 <= k <= clusters@.len(),
            cluster_urls@.len() == clusters@.len(),
            shown_clusters@.len() == k,
            forall|j: int|
                0 <= j < k ==> {
                    &&& (#[trigger] shown_clusters@[j]).cluster_id == clusters@[j].cluster_id
                    &&& shown_clusters@[j].photo_url@ == cluster_urls@[j]@
                    &&& shown_clusters@[j].bbox@ == clusters@[j].bbox@
                },
        decreases clusters@.len() - k,
    {
        shown_clusters.push(
            ClusterResponse {
                cluster_id: clusters[k].cluster_id,
                photo_url: cluster_urls[k].clone(),
                bbox: copy_box(&clusters[k].bbox),
            },
        );
        k += 1;
    }
    Some(GetFacesResponse { faces: shown_faces, clusters: shown_clusters })
}

} // verus!

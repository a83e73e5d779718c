use chronolens::browse::{parse_since, sync_partial};
use chronolens::catalog::DbManager;
use chronolens::status::Status;

fn add(c: &mut DbManager, user: &str, id: &str, hash: &str, created: i64, now: i64) {
    let r = c.add_media(user.into(), id.into(), hash.into(), created, 1, id.into(), now);
    assert_eq!(r, Ok(()));
}

fn ids(v: &[chronolens::sync::RemoteMediaAdded]) -> Vec<String> {
    v.iter().map(|a| a.id.clone()).collect()
}

#[test]
fn full_sync_lists_live_media_of_the_user() {
    let mut c = DbManager::new();
    add(&mut c, "alice", "m1", "h1", 1700000000000, 10);
    add(&mut c, "bob", "m2", "h2", 2, 11);
    add(&mut c, "alice", "m3", "h3", 3, 12);
    add(&mut c, "alice", "m4", "h4", 4, 13);
    assert_eq!(c.delete_media("m3", "alice", 14), Ok(()));
    let full = c.sync_full("alice");
    assert_eq!(ids(&full), vec!["m1".to_string(), "m4".to_string()]);
    assert_eq!(full[0].created_at, 1700000000000);
    assert_eq!(full[0].hash, "h1");
    assert!(c.sync_full("carol").is_empty());
}

#[test]
fn partial_sync_reports_what_changed_after_the_watermark() {
    let mut c = DbManager::new();
    add(&mut c, "alice", "m1", "h1", 1, 10);
    add(&mut c, "alice", "m2", "h2", 2, 20);
    add(&mut c, "alice", "m3", "h3", 3, 30);
    add(&mut c, "bob", "m4", "h4", 4, 40);
    assert_eq!(c.delete_media("m1", "alice", 50), Ok(()));
    let (uploaded, deleted) = c.sync_partial("alice", 20);
    assert_eq!(ids(&uploaded), vec!["m3".to_string()]);
    assert_eq!(deleted.len(), 1);
    assert_eq!(deleted[0].id, "m1");

    let (uploaded, deleted) = c.sync_partial("alice", 19);
    assert_eq!(ids(&uploaded), vec!["m2".to_string(), "m3".to_string()]);
    assert_eq!(deleted.len(), 1);

    let (uploaded, deleted) = c.sync_partial("alice", 50);
    assert!(uploaded.is_empty());
    assert!(deleted.is_empty());
}

#[test]
fn partial_sync_after_an_upload() {
    let mut c = DbManager::new();
    add(&mut c, "alice", "m1", "h1", 1700000000000, 1000);
    let t1 = 2000;
    add(&mut c, "alice", "m2", "h2", 1700000000001, 3000);
    let (uploaded, deleted) = c.sync_partial("alice", t1);
    assert_eq!(ids(&uploaded), vec!["m2".to_string()]);
    assert!(deleted.is_empty());
}

#[test]
fn sync_round_trip_reconstructs_the_client_view() {
    let mut c = DbManager::new();
    add(&mut c, "alice", "m1", "h1", 1, 10);
    add(&mut c, "alice", "m2", "h2", 2, 20);
    add(&mut c, "alice", "m3", "h3", 3, 30);
    let t0 = 100;
    let mut view: Vec<(String, i64, String)> =
        c.sync_full("alice").into_iter().map(|a| (a.id, a.created_at, a.hash)).collect();

    add(&mut c, "alice", "m4", "h4", 4, 110);
    assert_eq!(c.delete_media("m2", "alice", 120), Ok(()));
    assert_eq!(c.update_media_preview("m1", "prev/m1".into(), 130), Ok(()));
    add(&mut c, "bob", "m5", "h5", 5, 140);
    add(&mut c, "alice", "m6", "h6", 6, 150);
    assert_eq!(c.delete_media("m6", "alice", 160), Ok(()));

    let (uploaded, deleted) = c.sync_partial("alice", t0);
    for d in &deleted {
        view.retain(|v| v.0 != d.id);
    }
    for u in uploaded {
        view.retain(|v| v.0 != u.id);
        view.push((u.id, u.created_at, u.hash));
    }
    view.sort();
    let mut now: Vec<(String, i64, String)> =
        c.sync_full("alice").into_iter().map(|a| (a.id, a.created_at, a.hash)).collect();
    now.sort();
    assert_eq!(view, now);
    assert_eq!(view.iter().map(|v| v.0.as_str()).collect::<Vec<_>>(), vec!["m1", "m3", "m4"]);
}

#[test]
fn watermark_follows_the_clock() {
    let mut c = DbManager::new();
    add(&mut c, "alice", "m1", "h1", 1, 10);
    assert_eq!(c.update_media_preview("m1", "prev/m1".into(), 20), Ok(()));
    assert_eq!(c.media[0].last_modified_at, 20);
    assert_eq!(c.delete_media("m1", "alice", 30), Ok(()));
    assert_eq!(c.media[0].last_modified_at, 30);
}

#[test]
fn since_header_must_be_a_number() {
    assert_eq!(parse_since(Some("1700000000000")), Ok(1700000000000));
    assert_eq!(parse_since(Some("-1")), Ok(-1));
    assert_eq!(parse_since(None), Err(Status::BadRequest));
    assert_eq!(parse_since(Some("")), Err(Status::BadRequest));
    assert_eq!(parse_since(Some("12x")), Err(Status::BadRequest));
}

#[test]
fn partial_sync_endpoint() {
    let mut c = DbManager::new();
    add(&mut c, "alice", "m1", "h1", 1, 10);
    add(&mut c, "alice", "m2", "h2", 2, 20);
    assert_eq!(c.delete_media("m1", "alice", 30), Ok(()));
    match sync_partial(&c, "alice", Some("15")) {
        Ok(r) => {
            assert_eq!(ids(&r.uploaded), vec!["m2".to_string()]);
            assert_eq!(r.deleted.len(), 1);
            assert_eq!(r.deleted[0].id, "m1");
        }
        Err(_) => panic!("the header is valid"),
    }
    assert!(matches!(sync_partial(&c, "alice", None), Err(Status::BadRequest)));
    assert!(matches!(sync_partial(&c, "alice", Some("x")), Err(Status::BadRequest)));
}

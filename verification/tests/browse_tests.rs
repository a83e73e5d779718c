use chronolens::browse::{
    assemble_previews, media, presign_get, preview, preview_requests, PRESIGN_TTL_SECS,
};
use chronolens::bus::{metadata_consumer, preview_consumer, search_subject, STREAM_MAX_MESSAGES, WORKER_CONCURRENCY};
use chronolens::catalog::DbManager;
use chronolens::config::api;
use chronolens::config::database::{default_port, DbEnvs, MAX_CONNECTIONS, MIN_CONNECTIONS};
use chronolens::config::gateway;
use chronolens::config::worker;
use chronolens::faces::{cluster_requests, face_requests, faces_response, Cluster, Face};
use chronolens::gateway::DbAccess;
use chronolens::metadata::{Coordinate, MediaMetadata, Rational};
use chronolens::search::{clip_search, read_search_reply, SearchQuery};
use chronolens::status::Status;

fn catalog() -> DbManager {
    let mut c = DbManager::new();
    assert_eq!(c.add_media("alice".into(), "m1".into(), "h".into(), 5, 77, "a.jpg".into(), 1), Ok(()));
    c
}

#[test]
fn presigned_urls_live_for_a_day() {
    assert_eq!(PRESIGN_TTL_SECS, 86_400);
    let r = presign_get("prev/m1".to_string());
    assert_eq!(r.key(), "prev/m1");
    assert_eq!(r.expiry_secs(), 86_400);
}

#[test]
fn preview_requests_skip_media_without_a_preview() {
    let rows = vec![
        ("m1".to_string(), Some("prev/m1".to_string())),
        ("m2".to_string(), None),
        ("m3".to_string(), Some("prev/m3".to_string())),
    ];
    let requests = preview_requests(&rows);
    assert_eq!(requests.len(), 3);
    assert_eq!(requests[0].as_ref().map(|r| r.key()), Some("prev/m1"));
    assert!(requests[1].is_none());
    assert_eq!(requests[2].as_ref().map(|r| r.expiry_secs()), Some(86_400));
    assert!(requests.iter().flatten().all(|r| r.expiry_secs() <= 86_400));
}

#[test]
fn previews_listing_drops_what_could_not_be_signed() {
    let rows = vec![
        ("m1".to_string(), Some("prev/m1".to_string())),
        ("m2".to_string(), None),
        ("m3".to_string(), Some("prev/m3".to_string())),
        ("m4".to_string(), Some("prev/m4".to_string())),
    ];
    let urls = vec![Some("https://s/prev/m1?sig".to_string()), None, None];
    let items = assemble_previews(&rows, &urls);
    assert_eq!(items.len(), 2);
    assert_eq!((items[0].id.as_str(), items[0].preview_url.as_str()), ("m1", "https://s/prev/m1?sig"));
    assert_eq!((items[1].id.as_str(), items[1].preview_url.as_str()), ("m2", ""));
    assert!(assemble_previews(&vec![], &vec![]).is_empty());
}

#[test]
fn cross_user_preview_is_forbidden() {
    let c = catalog();
    match preview(&c, "alice", "m1") {
        Ok(r) => assert_eq!((r.key(), r.expiry_secs()), ("m1", 86_400)),
        Err(_) => panic!("alice owns m1"),
    }
    assert!(matches!(preview(&c, "bob", "m1"), Err(Status::Forbidden)));
    assert!(matches!(preview(&c, "alice", "m2"), Err(Status::Forbidden)));
    assert_eq!(Status::Forbidden.code(), 403);
}

#[test]
fn media_fetch_returns_what_the_catalog_holds() {
    let mut c = catalog();
    let mut md = MediaMetadata::empty();
    md.model = Some("X100".into());
    md.image_width = Some(4000);
    md.longitude = Some(Coordinate {
        degrees: Rational { num: 8, denom: 1 },
        minutes: Rational { num: 30, denom: 1 },
        seconds: Rational { num: 0, denom: 1 },
        negative: true,
    });
    assert_eq!(c.set_media_metadata("m1", md, 9), Ok(()));
    match media(&c, "alice", "m1") {
        Ok((response, request)) => {
            assert_eq!(response.id, "m1");
            assert_eq!(response.media_url, "");
            assert_eq!(response.created_at, 5);
            assert_eq!(response.file_size, 77);
            assert_eq!(response.file_name, "a.jpg");
            assert_eq!(response.model.as_deref(), Some("X100"));
            assert_eq!(response.image_width, Some(4000));
            assert_eq!(response.longitude.map(|l| (l.degrees.num, l.negative)), Some((8, true)));
            assert!(response.make.is_none() && response.latitude.is_none());
            assert_eq!((request.key(), request.expiry_secs()), ("m1", 86_400));
        }
        Err(_) => panic!("alice owns m1"),
    }
    assert!(matches!(media(&c, "bob", "m1"), Err(Status::Forbidden)));
    assert_eq!(c.delete_media("m1", "alice", 10), Ok(()));
    assert!(matches!(media(&c, "alice", "m1"), Err(Status::Forbidden)));
}

#[test]
fn faces_answer_pairs_entries_with_urls() {
    let faces = vec![Face { face_id: 7, name: "Ann".into(), photo_id: "a1".into(), bbox: vec![1, 2, 3, 4] }];
    let clusters = vec![Cluster { cluster_id: 3, photo_id: "a2".into(), bbox: vec![5, 6, 7, 8] }];
    let fr = face_requests(&faces);
    let cr = cluster_requests(&clusters);
    assert_eq!((fr[0].key(), fr[0].expiry_secs()), ("a1", 86_400));
    assert_eq!((cr[0].key(), cr[0].expiry_secs()), ("a2", 86_400));
    let r = faces_response(&faces, &clusters, &vec!["u1".into()], &vec!["u2".into()])
        .expect("there is a url for each entry");
    assert_eq!((r.faces[0].face_id, r.faces[0].name.as_str(), r.faces[0].photo_url.as_str()), (7, "Ann", "u1"));
    assert_eq!(r.faces[0].bbox, vec![1, 2, 3, 4]);
    assert_eq!((r.clusters[0].cluster_id, r.clusters[0].photo_url.as_str()), (3, "u2"));
    assert_eq!(r.clusters[0].bbox, vec![5, 6, 7, 8]);
    assert!(faces_response(&faces, &clusters, &vec![], &vec!["u2".into()]).is_none());
}

#[test]
fn search_needs_a_query() {
    let empty = SearchQuery { query: String::new(), page: None, page_size: None };
    assert_eq!(clip_search("alice", &empty), Err(Status::BadRequest));
}

#[test]
fn search_question_is_a_json_object() {
    let q = SearchQuery { query: "red \"car\"".into(), page: None, page_size: None };
    assert_eq!(
        clip_search("alice", &q),
        Ok("{\"page\":1,\"page_size\":10,\"query\":\"red \\\"car\\\"\",\"user_id\":\"alice\"}".to_string())
    );
    let q = SearchQuery { query: "x".into(), page: Some(0), page_size: Some(500) };
    let message = clip_search("u-1", &q).expect("the query is valid");
    let v: serde_json::Value = serde_json::from_str(&message).expect("the question is JSON");
    assert_eq!(v["page"].as_u64(), Some(1));
    assert_eq!(v["page_size"].as_u64(), Some(30));
    assert_eq!(v["query"].as_str(), Some("x"));
    assert_eq!(v["user_id"].as_str(), Some("u-1"));
    let q = SearchQuery { query: "x".into(), page: Some(4), page_size: Some(0) };
    let v: serde_json::Value =
        serde_json::from_str(&clip_search("u", &q).expect("valid")).expect("JSON");
    assert_eq!((v["page"].as_u64(), v["page_size"].as_u64()), (Some(4), Some(1)));
}

#[test]
fn search_reply_is_passed_on() {
    let payload = b"[{\"id\":\"m1\",\"preview_url\":\"https://s/prev/m1\"},{\"id\":\"m2\",\"preview_url\":\"\",\"score\":1}]";
    let items = read_search_reply(payload).expect("the reply is valid");
    assert_eq!(items.len(), 2);
    assert_eq!((items[0].id.as_str(), items[0].preview_url.as_str()), ("m1", "https://s/prev/m1"));
    assert_eq!((items[1].id.as_str(), items[1].preview_url.as_str()), ("m2", ""));
    assert!(read_search_reply(b"[]").expect("an empty reply is valid").is_empty());
}

#[test]
fn unreadable_search_reply_is_an_internal_error() {
    assert!(matches!(read_search_reply(b"{}"), Err(Status::InternalServerError)));
    assert!(matches!(read_search_reply(b"not json"), Err(Status::InternalServerError)));
    assert!(matches!(read_search_reply(&[0xff, 0xfe]), Err(Status::InternalServerError)));
    assert!(matches!(read_search_reply(b"[{\"id\":\"m1\"}]"), Err(Status::InternalServerError)));
    assert!(matches!(
        read_search_reply(b"[{\"id\":1,\"preview_url\":\"u\"}]"),
        Err(Status::InternalServerError)
    ));
}

#[test]
fn configuration_defaults() {
    assert_eq!(api::listen_on_default(), "0.0.0.0:8080");
    assert_eq!(api::nats_endpoint_default(), "http://localhost");
    assert_eq!(api::object_storage_endpoint_default(), "http://localhost");
    assert_eq!(gateway::listen_on_default(), "0.0.0.0:8080");
    assert_eq!(worker::nats_endpoint_default(), "http://localhost");
    assert_eq!(worker::object_storage_endpoint_default(), "http://localhost");
    assert_eq!(default_port(), 5432);
    assert_eq!((MIN_CONNECTIONS, MAX_CONNECTIONS), (5, 100));
    let vars = api::EnvVars::new(None, "s".into(), Some("nats://n".into()), None, "b".into(), "ak".into(), "sk".into(), "r".into());
    assert_eq!(vars.listen_on, "0.0.0.0:8080");
    assert_eq!(vars.nats_endpoint, "nats://n");
    assert_eq!(vars.object_storage_endpoint, "http://localhost");
    assert_eq!((vars.jwt_secret.as_str(), vars.object_storage_bucket.as_str()), ("s", "b"));
    let vars = gateway::EnvVars::new(Some("127.0.0.1:1".into()), "s".into());
    assert_eq!(vars.listen_on, "127.0.0.1:1");
    let vars = worker::EnvVars::new(None, Some("http://s3".into()), "b".into(), "r".into(), "ak".into(), "sk".into());
    assert_eq!(vars.nats_endpoint, "http://localhost");
    assert_eq!(vars.object_storage_endpoint, "http://s3");
}

#[test]
fn database_url() {
    let envs = DbEnvs::new("u".into(), "p".into(), "db.local".into(), None, "photos".into());
    assert_eq!(envs.database_port, 5432);
    assert_eq!(envs.connection_string(), "postgresql://u:p@db.local:5432/photos");
    let envs = DbEnvs::new("u".into(), "p".into(), "h".into(), Some(65535), "n".into());
    assert_eq!(envs.connection_string(), "postgresql://u:p@h:65535/n");
}

#[test]
fn bus_names() {
    assert_eq!(search_subject(), "clip-process-search");
    assert_eq!(preview_consumer(), "preview_consumer");
    assert_eq!(metadata_consumer(), "metadata_consumer");
    assert_eq!(STREAM_MAX_MESSAGES, 10_000);
    assert_eq!(WORKER_CONCURRENCY, 5);
}

#[test]
fn gateway_reads_the_stored_hash() {
    let mut c = DbManager::new();
    assert_eq!(c.add_user("u1".into(), "alice".into(), "hash".into()), Ok(()));
    let access = DbAccess::new(c);
    assert_eq!(access.get_user_password("alice").map(|p| p.password), Some("hash".to_string()));
    assert!(access.get_user_password("bob").is_none());
}

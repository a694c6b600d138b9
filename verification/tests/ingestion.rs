use wk::auth::expected_credential;
use wk::db::MemRepository;
use wk::handler::on_heartbeat;
use wk::handler::Response;
use wk::model::HeartBeatJson;

use chrono::TimeZone;

fn blank() -> HeartBeatJson {
    HeartBeatJson {
        branch: None,
        category: None,
        entity: None,
        is_write: None,
        language: None,
        lineno: None,
        lines: None,
        project: None,
        time: None,
        user_agent: None,
        machine_name: None,
    }
}

fn key() -> String {
    expected_credential("shared-secret")
}

#[test]
fn unauthorized_when_header_missing() {
    let key = key();
    let mut repo = MemRepository::new();
    let mut rec = blank();
    rec.project = Some("foo".to_string());
    let r = on_heartbeat(vec![rec], None, None, &mut repo, key.as_str());
    assert_eq!(r, Response::Unauthorized);
    assert!(repo.batches.is_empty());
}

#[test]
fn unauthorized_when_header_mismatched() {
    let key = key();
    let mut repo = MemRepository::new();
    let auth = Some("Basic bm90LXRoZS1zZWNyZXQ=".to_string());
    let r = on_heartbeat(vec![blank()], None, auth, &mut repo, key.as_str());
    assert_eq!(r, Response::Unauthorized);
    assert!(repo.batches.is_empty());
}

#[test]
fn unauthorized_on_empty_batch_too() {
    let key = key();
    let mut repo = MemRepository::new();
    let r = on_heartbeat(Vec::new(), None, None, &mut repo, key.as_str());
    assert_eq!(r, Response::Unauthorized);
    assert!(repo.batches.is_empty());
}

#[test]
fn empty_batch_succeeds_without_backend_call() {
    let key = key();
    let mut repo = MemRepository::new();
    let auth = Some(key.clone());
    let r = on_heartbeat(Vec::new(), None, auth, &mut repo, key.as_str());
    assert_eq!(r, Response::Success);
    assert!(repo.batches.is_empty());
}

#[test]
fn no_override_maps_fields_one_to_one() {
    let key = key();
    let mut repo = MemRepository::new();
    let mut first = blank();
    first.branch = Some("main".to_string());
    first.is_write = Some(true);
    first.lineno = Some(12);
    first.lines = Some(340);
    first.machine_name = Some("their-box".to_string());
    first.time = Some(1610000000);
    let mut second = blank();
    second.entity = Some("src/lib.rs".to_string());
    second.language = Some("rust".to_string());
    let auth = Some(key.clone());
    let r = on_heartbeat(vec![first, second], None, auth, &mut repo, key.as_str());
    assert_eq!(r, Response::Success);
    assert_eq!(repo.batches.len(), 1);
    let batch = &repo.batches[0];
    assert_eq!(batch.len(), 2);
    assert_eq!(batch[0].branch.as_deref(), Some("main"));
    assert_eq!(batch[0].is_write, Some(true));
    assert_eq!(batch[0].lineno, Some(12));
    assert_eq!(batch[0].lines, Some(340));
    assert_eq!(batch[0].machine_name.as_deref(), Some("their-box"));
    assert_eq!(batch[0].time, Some(1610000000));
    assert_eq!(batch[0].category, None);
    assert_eq!(batch[1].entity.as_deref(), Some("src/lib.rs"));
    assert_eq!(batch[1].language.as_deref(), Some("rust"));
    assert_eq!(batch[1].machine_name, None);
    assert_eq!(batch[1].time, None);
}

#[test]
fn override_stamps_every_record() {
    let key = key();
    let mut repo = MemRepository::new();
    let mut first = blank();
    first.machine_name = Some("their-box".to_string());
    let second = blank();
    let auth = Some(key.clone());
    let machine = Some("laptop1".to_string());
    let r = on_heartbeat(vec![first, second], machine, auth, &mut repo, key.as_str());
    assert_eq!(r, Response::Success);
    assert_eq!(repo.batches.len(), 1);
    for hb in &repo.batches[0] {
        assert_eq!(hb.machine_name.as_deref(), Some("laptop1"));
    }
}

#[test]
fn single_record_scenario() {
    let key = key();
    let mut repo = MemRepository::new();
    let mut rec = blank();
    rec.project = Some("foo".to_string());
    rec.time = Some(1610000000);
    let auth = Some(key.clone());
    let machine = Some("laptop1".to_string());
    let r = on_heartbeat(vec![rec], machine, auth, &mut repo, key.as_str());
    assert_eq!(r, Response::Success);
    assert_eq!(r.status_code(), 200);
    assert_eq!(r.body(), "Ok");
    assert_eq!(repo.batches.len(), 1);
    assert_eq!(repo.batches[0].len(), 1);
    let hb = &repo.batches[0][0];
    assert_eq!(hb.project.as_deref(), Some("foo"));
    assert_eq!(hb.time, Some(1610000000));
    assert_eq!(hb.machine_name.as_deref(), Some("laptop1"));
    assert_eq!(hb.branch, None);
    assert_eq!(hb.category, None);
    assert_eq!(hb.entity, None);
    assert_eq!(hb.is_write, None);
    assert_eq!(hb.language, None);
    assert_eq!(hb.lineno, None);
    assert_eq!(hb.lines, None);
    assert_eq!(hb.user_agent, None);
}

#[test]
fn repository_failure_yields_internal_server_error() {
    let key = key();
    let mut repo = MemRepository::failing();
    let mut rec = blank();
    rec.project = Some("foo".to_string());
    let auth = Some(key.clone());
    let r = on_heartbeat(vec![rec], None, auth, &mut repo, key.as_str());
    assert_eq!(r, Response::InternalServerError);
    assert_eq!(r.status_code(), 500);
    assert_eq!(r.body(), "Internal Server Error");
    assert!(repo.batches.is_empty());
}

#[test]
fn epoch_seconds_name_the_expected_instant() {
    let instant = chrono::Utc.timestamp_opt(1610000000, 0).unwrap();
    assert_eq!(instant.to_rfc3339(), "2021-01-07T06:13:20+00:00");
}

use ghostink::api::{clean_expired, create_paste, get_paste, health_check, status_of};
use ghostink::client::{build_create_request, format_retrieval_command};
use ghostink::codec::open;
use ghostink::errors::{ApiError, ClientError};
use ghostink::reference::parse_reference;
use ghostink::store::PasteStore;
use ghostink::wire::CreatePasteRequest;

#[test]
fn end_to_end_hello_world() {
    let now = 1_700_000_000;
    let prepared = build_create_request("hello world", None, now).unwrap();
    let blob_sent = prepared.request.content.clone();

    let mut store = PasteStore::new();
    let resp = create_paste(&mut store, prepared.request, now).unwrap();
    assert_eq!(resp.uuid.len(), 36);

    let got = get_paste(&store, &resp.uuid, now).unwrap();
    assert_eq!(got.content, blob_sent);

    let line = format_retrieval_command(&resp.uuid, &prepared.key);
    assert!(line.starts_with("ghostink get "));
    let (id, key) = parse_reference(&line["ghostink get ".len()..]).unwrap();
    assert_eq!(id, resp.uuid);

    assert_eq!(open(&got.content, &key), Ok("hello world".to_string()));
}

#[test]
fn default_expiry_is_one_day_after_now() {
    let now = 1000;
    let day = 86400;
    let mut store = PasteStore::new();
    let req = CreatePasteRequest {
        content: "blob".to_string(),
        expires_at: None,
    };
    let resp = create_paste(&mut store, req, now).unwrap();
    // live up to one second before now + 1 day, absent from then on
    assert!(get_paste(&store, &resp.uuid, now + day - 1).is_ok());
    assert_eq!(
        get_paste(&store, &resp.uuid, now + day),
        Err(ApiError::NotFound)
    );
}

#[test]
fn explicit_rfc3339_expiry_is_honored() {
    // 2030-01-01T00:00:00Z is 1893456000 seconds since the epoch
    let exp = 1_893_456_000;
    let mut store = PasteStore::new();
    let req = CreatePasteRequest {
        content: "blob".to_string(),
        expires_at: Some("2030-01-01T00:00:00+00:00".to_string()),
    };
    let resp = create_paste(&mut store, req, 1000).unwrap();
    assert!(get_paste(&store, &resp.uuid, exp - 1).is_ok());
    assert_eq!(get_paste(&store, &resp.uuid, exp), Err(ApiError::NotFound));
}

#[test]
fn unparsable_expiry_is_a_validation_error() {
    let mut store = PasteStore::new();
    let req = CreatePasteRequest {
        content: "blob".to_string(),
        expires_at: Some("tomorrow-ish".to_string()),
    };
    assert_eq!(create_paste(&mut store, req, 1000), Err(ApiError::Validation));
    assert_eq!(store.rows().len(), 0);
}

#[test]
fn clean_removes_exactly_the_expired() {
    let now = 500;
    let mut store = PasteStore::new();
    let fresh = CreatePasteRequest {
        content: "keep".to_string(),
        expires_at: None,
    };
    let stale = CreatePasteRequest {
        content: "drop".to_string(),
        expires_at: Some("1970-01-01T00:00:30+00:00".to_string()),
    };
    let kept = create_paste(&mut store, fresh, now).unwrap();
    let gone = create_paste(&mut store, stale, now).unwrap();
    assert_eq!(clean_expired(&mut store, now), 1);
    assert!(get_paste(&store, &kept.uuid, now).is_ok());
    assert_eq!(get_paste(&store, &gone.uuid, now), Err(ApiError::NotFound));
}

#[test]
fn health_check_answers() {
    assert!(health_check());
}

#[test]
fn error_to_status_table() {
    assert_eq!(status_of(ApiError::Validation), 400);
    assert_eq!(status_of(ApiError::NotFound), 404);
    assert_eq!(status_of(ApiError::Storage), 500);
}

#[test]
fn duration_expiry_renders_an_absolute_timestamp() {
    let now = 1000;
    let prepared = build_create_request("text", Some("1h"), now).unwrap();
    let rendered = prepared.request.expires_at.unwrap();
    let parsed = chrono::DateTime::parse_from_rfc3339(&rendered).unwrap();
    assert_eq!(parsed.timestamp(), now + 3600);
}

#[test]
fn two_day_duration() {
    let now = 50_000;
    let prepared = build_create_request("text", Some("2d"), now).unwrap();
    let rendered = prepared.request.expires_at.unwrap();
    let parsed = chrono::DateTime::parse_from_rfc3339(&rendered).unwrap();
    assert_eq!(parsed.timestamp(), now + 2 * 86400);
}

#[test]
fn malformed_duration_is_a_validation_error() {
    assert!(matches!(
        build_create_request("text", Some("soon"), 1000),
        Err(ClientError::Validation)
    ));
}

#[test]
fn expiry_past_the_renderable_range_is_a_validation_error() {
    // a million years from now falls past the last RFC 3339 year
    assert!(matches!(
        build_create_request("text", Some("1000000years"), 1000),
        Err(ClientError::Validation)
    ));
}

#[test]
fn expiry_at_the_last_second_of_year_9999_is_accepted() {
    let prepared = build_create_request("text", Some("253402300799sec"), 0).unwrap();
    let rendered = prepared.request.expires_at.unwrap();
    assert!(rendered.starts_with("9999-12-31T23:59:59"));
    let parsed = chrono::DateTime::parse_from_rfc3339(&rendered).unwrap();
    assert_eq!(parsed.timestamp(), 253402300799);
}

#[test]
fn expiry_one_second_past_year_9999_is_a_validation_error() {
    // chrono would render year 10000 with an explicit sign, which the
    // strict parser refuses; the client must refuse it up front
    assert!(matches!(
        build_create_request("text", Some("253402300800sec"), 0),
        Err(ClientError::Validation)
    ));
}

#[test]
fn no_duration_sends_no_expiry() {
    let prepared = build_create_request("text", None, 1000).unwrap();
    assert!(prepared.request.expires_at.is_none());
}

#[test]
fn created_blob_opens_with_the_prepared_key() {
    let prepared = build_create_request("round trip", None, 0).unwrap();
    assert_eq!(
        open(&prepared.request.content, &prepared.key),
        Ok("round trip".to_string())
    );
}

#[test]
fn paste_survives_later_puts_and_sweeps() {
    let now = 1000;
    let day = 86400;
    let mut store = PasteStore::new();
    let mine = create_paste(
        &mut store,
        CreatePasteRequest { content: "mine".to_string(), expires_at: None },
        now,
    )
    .unwrap();
    // later traffic: more pastes, some already expiring, and sweeps in between
    for i in 0..4 {
        let expires_at = if i % 2 == 0 {
            Some("1970-01-01T00:20:00+00:00".to_string())
        } else {
            None
        };
        create_paste(
            &mut store,
            CreatePasteRequest { content: format!("other{i}"), expires_at },
            now + i,
        )
        .unwrap();
    }
    clean_expired(&mut store, now + 10);
    create_paste(
        &mut store,
        CreatePasteRequest { content: "late".to_string(), expires_at: None },
        now + 20,
    )
    .unwrap();
    clean_expired(&mut store, now + 30);
    // the first paste is still there, unchanged, until its expiry
    let got = get_paste(&store, &mine.uuid, now + day - 1).unwrap();
    assert_eq!(got.content, "mine");
    assert_eq!(
        get_paste(&store, &mine.uuid, now + day),
        Err(ApiError::NotFound)
    );
}

#[test]
fn fresh_ids_differ() {
    let now = 0;
    let mut store = PasteStore::new();
    let a = create_paste(
        &mut store,
        CreatePasteRequest { content: "a".to_string(), expires_at: None },
        now,
    )
    .unwrap();
    let b = create_paste(
        &mut store,
        CreatePasteRequest { content: "b".to_string(), expires_at: None },
        now,
    )
    .unwrap();
    assert_ne!(a.uuid, b.uuid);
}

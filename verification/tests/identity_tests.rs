use to_podcast::auth::SessionStore;
use to_podcast::ids::new_random_id;
use to_podcast::routes::submit::submission_authorized;
use to_podcast::routes::webauthn::{login_start_refusal, LoginRefusal};
use to_podcast::storage::{new_credential_row, new_user_row, user_id_from_column};
use to_podcast::timestamp::Timestamp;
use uuid::Uuid;

#[test]
fn random_ids_are_version_four() {
    for _ in 0..32 {
        let id = new_random_id();
        assert_eq!((id >> 76) & 0xf, 4);
        assert_eq!((id >> 62) & 0x3, 2);
        assert_eq!(Uuid::from_u128(id).get_version_num(), 4);
    }
    assert_ne!(new_random_id(), new_random_id());
}

#[test]
fn session_tokens_are_version_four_uuids() {
    let mut store = SessionStore::new();
    let token = store.create_session();
    assert_eq!(token.len(), 36);
    let parsed = Uuid::parse_str(&token).unwrap();
    assert_eq!(parsed.get_version_num(), 4);
    assert_eq!(parsed.to_string(), token);
    let other = store.create_session();
    assert_ne!(token, other);
    assert!(store.is_valid(&token));
    assert!(store.is_valid(&other));
}

#[test]
fn user_id_column_parses_hyphenated_uuid() {
    assert_eq!(
        user_id_from_column("67e55044-10b1-426f-9247-bb680e5fe0c8"),
        Some(0x67e55044_10b1_426f_9247_bb680e5fe0c8)
    );
    assert_eq!(user_id_from_column("not a uuid"), None);
    assert_eq!(user_id_from_column(""), None);
}

#[test]
fn user_row_holds_id_name_and_time() {
    let t = Timestamp::from_unix(784111777, 0).unwrap();
    let row = new_user_row(0x67e55044_10b1_426f_9247_bb680e5fe0c8, "alice", t);
    assert_eq!(row.id, "67e55044-10b1-426f-9247-bb680e5fe0c8");
    assert_eq!(row.username, "alice");
    assert_eq!(row.created_at, "1994-11-06T08:49:37+00:00");
    assert_eq!(user_id_from_column(&row.id), Some(0x67e55044_10b1_426f_9247_bb680e5fe0c8));
}

#[test]
fn credential_row_holds_all_fields() {
    let t = Timestamp::from_unix(0, 0).unwrap();
    let row = new_credential_row(1, 2, "bob", "{\"k\":1}", t);
    assert_eq!(row.id, "00000000-0000-0000-0000-000000000001");
    assert_eq!(row.user_id, "00000000-0000-0000-0000-000000000002");
    assert_eq!(row.username, "bob");
    assert_eq!(row.credential_json, "{\"k\":1}");
    assert_eq!(row.created_at, "1970-01-01T00:00:00+00:00");
}

#[test]
fn timestamp_range_bounds() {
    assert!(Timestamp::from_unix(-8334601228800, 0).is_some());
    assert!(Timestamp::from_unix(-8334601228801, 0).is_none());
    assert!(Timestamp::from_unix(8210266876799, 0).is_some());
    assert!(Timestamp::from_unix(8210266876800, 0).is_none());
    assert!(Timestamp::from_unix(59, 1_500_000_000).is_some());
    assert!(Timestamp::from_unix(58, 1_500_000_000).is_none());
    assert!(Timestamp::from_unix(-1, 1_999_999_999).is_some());
    assert!(Timestamp::from_unix(-2, 1_000_000_000).is_none());
    assert!(Timestamp::from_unix(0, 2_000_000_000).is_none());
}

#[test]
fn leap_second_round_trips() {
    let t = Timestamp::from_unix(59, 1_500_000_000).unwrap();
    let text = t.to_rfc3339();
    assert_eq!(text, "1970-01-01T00:00:60.500+00:00");
    assert_eq!(Timestamp::parse_rfc3339(&text), Some(t));
}

#[test]
fn four_digit_year_edges_round_trip() {
    for secs in [-62167219200i64, 253402300799] {
        let t = Timestamp::from_unix(secs, 123_456_789).unwrap();
        assert_eq!(Timestamp::parse_rfc3339(&t.to_rfc3339()), Some(t));
    }
}

#[test]
fn submission_needs_bearer_session() {
    let mut store = SessionStore::new();
    let token = store.create_session();
    let header = format!("Bearer {token}");
    assert!(submission_authorized(Some(&header), &store));
    assert!(!submission_authorized(Some(&token), &store));
    assert!(!submission_authorized(Some("Bearer "), &store));
    assert!(!submission_authorized(Some("Bearer nope"), &store));
    assert!(!submission_authorized(None, &store));
    store.revoke(&token);
    assert!(!submission_authorized(Some(&header), &store));
}

#[test]
fn login_refusals() {
    assert_eq!(login_start_refusal(0, 0), Some(LoginRefusal::NoCredentials));
    assert_eq!(login_start_refusal(2, 0), Some(LoginRefusal::UnreadableCredentials));
    assert_eq!(login_start_refusal(2, 1), None);
    assert_eq!(LoginRefusal::NoCredentials.message(), "No credentials registered for that username");
    assert_eq!(LoginRefusal::NoCredentials.status(), 400);
    assert_eq!(LoginRefusal::UnreadableCredentials.message(), "Could not parse stored credentials");
    assert_eq!(LoginRefusal::UnreadableCredentials.status(), 500);
}

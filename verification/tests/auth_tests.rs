use base64::engine::general_purpose::STANDARD as BASE64;
use base64::Engine;
use to_podcast::auth::{check_decoded_credentials, verify_basic_auth, SessionStore, SESSION_DURATION_NANOS};

fn encode_basic(u: &str, p: &str) -> String {
    format!("Basic {}", BASE64.encode(format!("{u}:{p}")))
}

#[test]
fn test_verify_basic_auth_valid() {
    assert!(verify_basic_auth(&encode_basic("alice", "secret"), "alice", "secret"));
}

#[test]
fn test_verify_basic_auth_wrong_password() {
    assert!(!verify_basic_auth(&encode_basic("alice", "wrong"), "alice", "secret"));
}

#[test]
fn test_verify_basic_auth_wrong_user() {
    assert!(!verify_basic_auth(&encode_basic("bob", "secret"), "alice", "secret"));
}

#[test]
fn test_verify_basic_auth_malformed_prefix() {
    assert!(!verify_basic_auth("Bearer sometoken", "alice", "secret"));
}

#[test]
fn test_verify_basic_auth_invalid_base64() {
    assert!(!verify_basic_auth("Basic !!!notbase64!!!", "alice", "secret"));
}

#[test]
fn test_verify_basic_auth_no_colon() {
    let encoded = BASE64.encode("alicesecret");
    assert!(!verify_basic_auth(&format!("Basic {}", encoded), "alice", "secret"));
}

#[test]
fn test_session_create_and_validate() {
    let mut store = SessionStore::new();
    let token = store.create_session();
    assert!(store.is_valid(&token));
}

#[test]
fn test_session_invalid_token() {
    let store = SessionStore::new();
    assert!(!store.is_valid("nonexistent-token"));
}

#[test]
fn test_session_revoke() {
    let mut store = SessionStore::new();
    let token = store.create_session();
    store.revoke(&token);
    assert!(!store.is_valid(&token));
}

#[test]
fn basic_auth_password_may_contain_colons() {
    assert!(verify_basic_auth(&encode_basic("alice", "se:cr:et"), "alice", "se:cr:et"));
    assert!(!verify_basic_auth(&encode_basic("alice", "se:cr:et"), "alice", "se"));
}

#[test]
fn basic_auth_payload_whitespace_is_trimmed() {
    let header = format!("Basic  \t{} \n", BASE64.encode("alice:secret"));
    assert!(verify_basic_auth(&header, "alice", "secret"));
}

#[test]
fn basic_auth_scheme_is_case_sensitive() {
    let header = format!("basic {}", BASE64.encode("alice:secret"));
    assert!(!verify_basic_auth(&header, "alice", "secret"));
    assert!(!verify_basic_auth("Basic", "alice", "secret"));
    assert!(!verify_basic_auth("", "", ""));
}

#[test]
fn basic_auth_non_ascii_credentials() {
    assert!(verify_basic_auth(&encode_basic("jürgen", "pässwörd✓"), "jürgen", "pässwörd✓"));
    assert!(!verify_basic_auth(&encode_basic("jürgen", "pässwörd✓"), "jurgen", "pässwörd✓"));
}

#[test]
fn basic_auth_unpadded_base64_rejected() {
    // "alice:secre" encodes with one padding character; dropping it is not canonical.
    let encoded = BASE64.encode("alice:secre");
    assert!(encoded.ends_with('='));
    let unpadded = encoded.trim_end_matches('=');
    assert!(!verify_basic_auth(&format!("Basic {}", unpadded), "alice", "secre"));
}

#[test]
fn decoded_credentials_checks() {
    assert!(check_decoded_credentials(Some(b"alice:secret".to_vec()), "alice", "secret"));
    assert!(check_decoded_credentials(Some(b":".to_vec()), "", ""));
    assert!(!check_decoded_credentials(Some(b"alice".to_vec()), "alice", ""));
    assert!(!check_decoded_credentials(None, "alice", "secret"));
    // invalid UTF-8 is refused even when the bytes would otherwise match
    assert!(!check_decoded_credentials(Some(vec![b'a', b':', 0xff]), "a", "\u{fffd}"));
    assert!(check_decoded_credentials(Some("é:ü".as_bytes().to_vec()), "é", "ü"));
}

#[test]
fn session_validity_follows_the_clock() {
    let mut store = SessionStore::new();
    store.create_session_at("tok".to_string(), 1_000);
    assert!(store.is_valid_at("tok", 1_000));
    assert!(store.is_valid_at("tok", 1_000 + SESSION_DURATION_NANOS - 1));
    assert!(!store.is_valid_at("tok", 1_000 + SESSION_DURATION_NANOS));
    assert!(!store.is_valid_at("other", 1_000));
}

#[test]
fn session_revoke_leaves_other_tokens() {
    let mut store = SessionStore::new();
    store.create_session_at("a".to_string(), 0);
    store.create_session_at("b".to_string(), 0);
    store.revoke("a");
    assert!(!store.is_valid_at("a", 1));
    assert!(store.is_valid_at("b", 1));
    store.revoke("a");
    assert!(store.is_valid_at("b", 1));
}

#[test]
fn session_reissue_replaces_expiry() {
    let mut store = SessionStore::new();
    store.create_session_at("t".to_string(), 0);
    store.create_session_at("t".to_string(), SESSION_DURATION_NANOS);
    assert!(store.is_valid_at("t", SESSION_DURATION_NANOS + 5));
}

#[test]
fn session_expiry_saturates() {
    let mut store = SessionStore::new();
    store.create_session_at("t".to_string(), u128::MAX - 1);
    assert!(store.is_valid_at("t", u128::MAX - 1));
    assert!(!store.is_valid_at("t", u128::MAX));
}

#[test]
fn created_tokens_are_hyphenated_uuids() {
    let mut store = SessionStore::default();
    let token = store.create_session();
    assert_eq!(token.len(), 36);
    assert!(uuid::Uuid::parse_str(&token).is_ok());
    assert_eq!(token, token.to_lowercase());
    let other = store.create_session();
    assert_ne!(token, other);
    assert!(store.is_valid(&token) && store.is_valid(&other));
}

use base64::engine::general_purpose::STANDARD as BASE64;
use base64::Engine;
use to_podcast::auth::SessionStore;
use to_podcast::config::AppConfig;
use to_podcast::media::AudioFile;
use to_podcast::routes::rss::feed_request_authorized;
use to_podcast::routes::submit::{bearer_token, new_episode, submission_authorized_at, SubmitRequest};
use to_podcast::routes::webauthn::{registration_username, request_username, PendingCeremonies, TokenResp, UsernameReq};
use to_podcast::timestamp::Timestamp;

#[test]
fn feed_authorization() {
    let good = format!("Basic {}", BASE64.encode("testuser:testpass"));
    let wrong = format!("Basic {}", BASE64.encode("wronguser:wrongpass"));
    assert!(feed_request_authorized(Some(&good), "testuser", "testpass"));
    assert!(!feed_request_authorized(Some(&wrong), "testuser", "testpass"));
    assert!(!feed_request_authorized(None, "testuser", "testpass"));
    assert!(!feed_request_authorized(Some(""), "", ""));
}

#[test]
fn bearer_tokens() {
    assert_eq!(bearer_token(Some("Bearer abc")), "abc");
    assert_eq!(bearer_token(Some("Bearer ")), "");
    assert_eq!(bearer_token(Some("bearer abc")), "");
    assert_eq!(bearer_token(Some("Basic abc")), "");
    assert_eq!(bearer_token(None), "");
}

#[test]
fn submission_needs_a_live_session() {
    let mut sessions = SessionStore::new();
    sessions.create_session_at("tok".to_string(), 10);
    assert!(submission_authorized_at(Some("Bearer tok"), &sessions, 11));
    assert!(!submission_authorized_at(Some("Bearer other"), &sessions, 11));
    assert!(!submission_authorized_at(None, &sessions, 11));
    assert!(!submission_authorized_at(Some("Bearer tok"), &sessions, 10 + 3_600_000_000_000));
    let req = SubmitRequest { url: "https://www.youtube.com/watch?v=test".to_string() };
    assert!(req.url.starts_with("https://"));
}

#[test]
fn episode_from_submission() {
    let audio = AudioFile {
        path: "/tmp/test_media/Some Title.mp3".to_string(),
        duration_secs: Some(61),
        title: "Some Title".to_string(),
    };
    let t = Timestamp::from_unix(5, 6).unwrap();
    let e = new_episode(audio, "https://v/1".to_string(), "http://localhost:3000", 9, t);
    assert_eq!(e.id, 9);
    assert_eq!(e.title, "Some Title");
    assert_eq!(e.source_url, "https://v/1");
    assert_eq!(e.audio_path, "/tmp/test_media/Some Title.mp3");
    assert_eq!(e.audio_url, "http://localhost:3000/audio/Some Title.mp3");
    assert_eq!(e.duration_secs, Some(61));
    assert_eq!(e.added_at, t);
}

#[test]
fn usernames() {
    assert_eq!(registration_username("  alice \n"), Some("alice".to_string()));
    assert_eq!(registration_username(" \u{3000}\t"), None);
    assert_eq!(request_username("\u{a0}bob\u{2003}"), "bob");
    let req = UsernameReq { username: "testuser".to_string() };
    assert_eq!(request_username(&req.username), "testuser");
    let resp = TokenResp { token: "t".to_string() };
    assert_eq!(resp.token, "t");
}

#[test]
fn ceremonies_finish_once() {
    let mut pending = PendingCeremonies::new();
    pending.start("alice".to_string(), "{\"s\":1}".to_string());
    pending.start("bob".to_string(), "{\"s\":2}".to_string());
    pending.start("alice".to_string(), "{\"s\":3}".to_string());
    assert_eq!(pending.finish("alice"), Some("{\"s\":3}".to_string()));
    assert_eq!(pending.finish("alice"), None);
    assert_eq!(pending.finish("bob"), Some("{\"s\":2}".to_string()));
    assert_eq!(PendingCeremonies::default().finish("carol"), None);
}

#[test]
fn configuration_defaults() {
    let c = AppConfig::from_settings(None, None, None, None, None, None, None, None, None, None, None);
    assert_eq!(c.host, "0.0.0.0:3000");
    assert_eq!(c.podcast_title, "My Podcast");
    assert_eq!(c.podcast_description, "My personal podcast feed");
    assert_eq!(c.podcast_link, "http://localhost:3000");
    assert_eq!(c.podcast_author, "Podcast Author");
    assert_eq!(c.rss_username, "podcast");
    assert_eq!(c.rss_password, "changeme");
    assert_eq!(c.database_url, "sqlite://podcast.db");
    assert_eq!(c.media_dir, "./media");
    assert_eq!(c.passkey_rp_id, "localhost");
    assert_eq!(c.passkey_rp_origin, "http://localhost:3000");
    let c = AppConfig::from_settings(Some("127.0.0.1:0".to_string()), None, None, None, None, Some("u".to_string()), None, None, None, None, None);
    assert_eq!(c.host, "127.0.0.1:0");
    assert_eq!(c.rss_username, "u");
    assert_eq!(c.rss_password, "changeme");
}

use to_podcast::feed::{build_feed, episode_item, format_duration, generate_rss, Episode, FeedConfig};
use to_podcast::timestamp::Timestamp;

fn make_episode(title: &str, audio_url: &str) -> Episode {
    Episode {
        id: uuid::Uuid::new_v4().as_u128(),
        title: title.to_string(),
        source_url: "https://www.youtube.com/watch?v=dQw4w9WgXcQ".to_string(),
        audio_path: format!("/media/{}.mp3", title.replace(' ', "_")),
        audio_url: audio_url.to_string(),
        duration_secs: Some(180),
        added_at: Timestamp::now(),
    }
}

fn make_config() -> FeedConfig {
    FeedConfig {
        title: "Test Podcast".to_string(),
        description: "A test podcast feed".to_string(),
        link: "http://localhost:3000".to_string(),
        author: "Test Author".to_string(),
    }
}

#[test]
fn test_episode_creation() {
    let ep = make_episode("My Episode", "http://localhost:3000/audio/my_episode.mp3");
    assert_eq!(ep.title, "My Episode");
    assert_eq!(ep.duration_secs, Some(180));
    assert!(!ep.audio_url.is_empty());
}

#[test]
fn test_generate_rss_valid_xml() {
    let episodes = vec![make_episode("Episode One", "http://localhost:3000/audio/ep1.mp3")];
    let config = make_config();
    let rss_str = generate_rss(&episodes, &config);

    assert!(rss_str.contains("<?xml"));
    assert!(rss_str.contains("<rss"));
    assert!(rss_str.contains("</rss>"));
}

#[test]
fn test_generate_rss_contains_channel_info() {
    let episodes = vec![];
    let config = make_config();
    let rss_str = generate_rss(&episodes, &config);

    assert!(rss_str.contains("Test Podcast"));
    assert!(rss_str.contains("A test podcast feed"));
    assert!(rss_str.contains("http://localhost:3000"));
}

#[test]
fn test_generate_rss_contains_episode() {
    let episodes = vec![make_episode("Great Episode", "http://localhost:3000/audio/great.mp3")];
    let config = make_config();
    let rss_str = generate_rss(&episodes, &config);

    assert!(rss_str.contains("Great Episode"));
    assert!(rss_str.contains("http://localhost:3000/audio/great.mp3"));
    assert!(rss_str.contains("<item>") || rss_str.contains("<item "));
}

#[test]
fn test_generate_rss_multiple_episodes() {
    let episodes = vec![
        make_episode("Episode A", "http://localhost:3000/audio/a.mp3"),
        make_episode("Episode B", "http://localhost:3000/audio/b.mp3"),
        make_episode("Episode C", "http://localhost:3000/audio/c.mp3"),
    ];
    let config = make_config();
    let rss_str = generate_rss(&episodes, &config);

    assert!(rss_str.contains("Episode A"));
    assert!(rss_str.contains("Episode B"));
    assert!(rss_str.contains("Episode C"));
}

#[test]
fn test_generate_rss_has_itunes_namespace() {
    let episodes = vec![make_episode("Test", "http://localhost:3000/audio/test.mp3")];
    let config = make_config();
    let rss_str = generate_rss(&episodes, &config);

    assert!(rss_str.contains("itunes"));
}

#[test]
fn test_generate_rss_enclosure_for_audio() {
    let episodes = vec![make_episode("Enc Test", "http://localhost:3000/audio/enc.mp3")];
    let config = make_config();
    let rss_str = generate_rss(&episodes, &config);

    assert!(rss_str.contains("enclosure"));
    assert!(rss_str.contains("audio/mpeg"));
}

#[test]
fn test_generate_rss_duration_in_itunes() {
    let episodes = vec![make_episode("Duration Test", "http://localhost:3000/audio/dur.mp3")];
    let config = make_config();
    let rss_str = generate_rss(&episodes, &config);

    assert!(rss_str.contains("itunes:duration") || rss_str.contains("duration"));
}

#[test]
fn test_episode_no_duration() {
    let mut ep = make_episode("No Duration", "http://localhost:3000/audio/nodur.mp3");
    ep.duration_secs = None;
    let config = make_config();
    let rss_str = generate_rss(&[ep], &config);
    assert!(rss_str.contains("<rss"));
    assert!(rss_str.contains("No Duration"));
}

#[test]
fn format_duration_values() {
    assert_eq!(format_duration(0), "00:00:00");
    assert_eq!(format_duration(180), "00:03:00");
    assert_eq!(format_duration(3725), "01:02:05");
    assert_eq!(format_duration(86399), "23:59:59");
    assert_eq!(format_duration(360000), "100:00:00");
    assert_eq!(format_duration(u32::MAX), "1193046:28:15");
}

fn fixed_episode() -> Episode {
    Episode {
        id: 0x0123_4567_89ab_cdef_0011_2233_4455_6677,
        title: "Fixed".to_string(),
        source_url: "https://example.com/v".to_string(),
        audio_path: "/media/fixed.mp3".to_string(),
        audio_url: "http://host/audio/fixed.mp3".to_string(),
        duration_secs: Some(3725),
        added_at: Timestamp::from_unix(784111777, 0).unwrap(),
    }
}

#[test]
fn episode_item_fields() {
    let ep = fixed_episode();
    let item = episode_item(&ep, "Author", "Sun, 06 Nov 1994 08:49:37 GMT".to_string());
    assert_eq!(item.title, "Fixed");
    assert_eq!(item.link, "https://example.com/v");
    assert_eq!(item.enclosure_url, "http://host/audio/fixed.mp3");
    assert_eq!(item.enclosure_length, "0");
    assert_eq!(item.enclosure_mime_type, "audio/mpeg");
    assert_eq!(item.guid, "01234567-89ab-cdef-0011-223344556677");
    assert!(!item.guid_is_permalink);
    assert_eq!(item.duration.as_deref(), Some("01:02:05"));
    assert_eq!(item.author, "Author");
    assert_eq!(item.pub_date, "Sun, 06 Nov 1994 08:49:37 GMT");
}

#[test]
fn feed_pub_date_and_guid_in_xml() {
    let feed = build_feed(&[fixed_episode()], &make_config());
    assert_eq!(feed.items.len(), 1);
    assert_eq!(feed.items[0].pub_date, "Sun, 06 Nov 1994 08:49:37 GMT");
    let xml = generate_rss(&[fixed_episode()], &make_config());
    assert!(xml.contains("<pubDate>Sun, 06 Nov 1994 08:49:37 GMT</pubDate>"));
    assert!(xml.contains("01234567-89ab-cdef-0011-223344556677"));
    assert!(xml.contains("isPermaLink=\"false\""));
    assert!(xml.contains("<itunes:duration>01:02:05</itunes:duration>"));
    assert!(xml.contains("<itunes:author>Test Author</itunes:author>"));
}

#[test]
fn feed_keeps_episode_order() {
    let mut a = fixed_episode();
    a.title = "First".to_string();
    let mut b = fixed_episode();
    b.title = "Second".to_string();
    let xml = generate_rss(&[a, b], &make_config());
    assert!(xml.find("First").unwrap() < xml.find("Second").unwrap());
}

use to_podcast::feed::Episode;
use to_podcast::storage::{episode_from_parts, episode_from_row, episode_to_row, episodes_from_rows, EpisodeRow, RowError};
use to_podcast::timestamp::Timestamp;

fn episode(title: &str, duration: Option<u32>) -> Episode {
    Episode {
        id: 0x0123_4567_89ab_cdef_0011_2233_4455_6677,
        title: title.to_string(),
        source_url: "https://youtube.com/watch?v=test".to_string(),
        audio_path: "/media/test.mp3".to_string(),
        audio_url: "http://localhost:3000/audio/test.mp3".to_string(),
        duration_secs: duration,
        added_at: Timestamp::from_unix(1_700_000_000, 123_000_000).unwrap(),
    }
}

#[test]
fn row_layout() {
    let row = episode_to_row(&episode("Test Episode", Some(120)));
    assert_eq!(row.id, "01234567-89ab-cdef-0011-223344556677");
    assert_eq!(row.title, "Test Episode");
    assert_eq!(row.duration_secs, Some(120));
    assert_eq!(row.added_at, "2023-11-14T22:13:20.123+00:00");
}

#[test]
fn row_round_trip() {
    for d in [Some(120), None, Some(u32::MAX)] {
        let e = episode("Round", d);
        let back = episode_from_row(&episode_to_row(&e)).unwrap();
        assert_eq!(back.id, e.id);
        assert_eq!(back.title, e.title);
        assert_eq!(back.source_url, e.source_url);
        assert_eq!(back.audio_path, e.audio_path);
        assert_eq!(back.audio_url, e.audio_url);
        assert_eq!(back.duration_secs, e.duration_secs);
        assert_eq!(back.added_at, e.added_at);
    }
}

#[test]
fn row_errors() {
    let mut row = episode_to_row(&episode("E", None));
    row.added_at = "yesterday".to_string();
    assert_eq!(episode_from_row(&row).unwrap_err(), RowError::BadTimestamp);
    row.id = "not-a-uuid".to_string();
    assert_eq!(episode_from_row(&row).unwrap_err(), RowError::BadId);
}

#[test]
fn row_accepts_other_offsets_and_uuid_forms() {
    let mut row = episode_to_row(&episode("E", None));
    row.id = "0123456789abcdef0011223344556677".to_string();
    row.added_at = "2023-11-15T00:13:20.123+02:00".to_string();
    let e = episode_from_row(&row).unwrap();
    assert_eq!(e.id, 0x0123_4567_89ab_cdef_0011_2233_4455_6677);
    assert_eq!(e.added_at.secs(), 1_700_000_000);
    assert_eq!(e.added_at.nanos(), 123_000_000);
}

#[test]
fn duration_column_truncates_to_32_bits() {
    let mut row = episode_to_row(&episode("E", None));
    row.duration_secs = Some((1i64 << 32) + 7);
    assert_eq!(episode_from_row(&row).unwrap().duration_secs, Some(7));
}

#[test]
fn parts_report_id_before_timestamp() {
    let row = episode_to_row(&episode("E", None));
    assert_eq!(episode_from_parts(&row, None, None).unwrap_err(), RowError::BadId);
    assert_eq!(episode_from_parts(&row, Some(1), None).unwrap_err(), RowError::BadTimestamp);
    let t = Timestamp::from_unix(0, 0).unwrap();
    let e = episode_from_parts(&row, Some(1), Some(t)).unwrap();
    assert_eq!(e.id, 1);
    assert_eq!(e.added_at, t);
}

#[test]
fn listing_fails_on_first_bad_row() {
    let good = episode_to_row(&episode("A", Some(1)));
    let mut bad_time = good.clone();
    bad_time.added_at = String::new();
    let mut bad_id = good.clone();
    bad_id.id = String::new();
    assert_eq!(episodes_from_rows(vec![good.clone(), bad_time.clone(), bad_id.clone()]).unwrap_err(), RowError::BadTimestamp);
    assert_eq!(episodes_from_rows(vec![bad_id, bad_time]).unwrap_err(), RowError::BadId);
    let all = episodes_from_rows(vec![good.clone(), good]).unwrap();
    assert_eq!(all.len(), 2);
    assert!(episodes_from_rows(Vec::<EpisodeRow>::new()).unwrap().is_empty());
}

#[test]
fn timestamps() {
    assert!(Timestamp::from_unix(0, 2_000_000_000).is_none());
    assert!(Timestamp::from_unix(i64::MAX, 0).is_none());
    let t = Timestamp::from_unix(784111777, 0).unwrap();
    assert_eq!(t.to_pub_date(), "Sun, 06 Nov 1994 08:49:37 GMT");
    assert_eq!(t.to_rfc3339(), "1994-11-06T08:49:37+00:00");
    assert_eq!(Timestamp::parse_rfc3339("1994-11-06T08:49:37Z"), Some(t));
    assert!(Timestamp::parse_rfc3339("1994-11-06").is_none());
    assert!(Timestamp::now().secs() > 1_700_000_000);
}

#[test]
fn now_has_subsecond_nanos() {
    assert!(Timestamp::now().nanos() < 1_000_000_000);
}

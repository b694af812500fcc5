use std::path::PathBuf;
use to_podcast::media::{
    audio_file_from_download, check_parsed_url, download_command_args, media_file_path, probe_command_args, episode_audio_url, path_file_name, path_file_stem,
    validate_url, AudioFile, UrlError,
};

#[test]
fn test_validate_url_valid_youtube() {
    let result = validate_url("https://www.youtube.com/watch?v=dQw4w9WgXcQ");
    assert!(result.is_ok());
}

#[test]
fn test_validate_url_valid_vimeo() {
    let result = validate_url("https://vimeo.com/123456789");
    assert!(result.is_ok());
}

#[test]
fn test_validate_url_invalid_not_url() {
    let result = validate_url("not-a-url");
    assert!(result.is_err());
}

#[test]
fn test_validate_url_empty_string() {
    let result = validate_url("");
    assert!(result.is_err());
}

#[test]
fn test_validate_url_no_scheme() {
    let result = validate_url("www.youtube.com/watch?v=dQw4w9WgXcQ");
    assert!(result.is_err());
}

#[test]
fn test_validate_url_returns_parsed_url() {
    let result = validate_url("https://www.youtube.com/watch?v=test123");
    assert!(result.is_ok());
    let parsed = result.unwrap();
    assert_eq!(parsed.scheme(), "https");
    assert_eq!(parsed.host_str(), Some("www.youtube.com"));
}

#[test]
fn test_audio_file_struct() {
    let af = AudioFile {
        path: "/tmp/test.mp3".to_string(),
        duration_secs: Some(300),
        title: "Test Video Title".to_string(),
    };
    assert_eq!(af.title, "Test Video Title");
    assert_eq!(af.duration_secs, Some(300));
    assert_eq!(PathBuf::from(&af.path).extension().and_then(|e| e.to_str()), Some("mp3"));
}

#[test]
fn test_audio_file_no_duration() {
    let af = AudioFile {
        path: "/tmp/unknown.mp3".to_string(),
        duration_secs: None,
        title: "Unknown Duration".to_string(),
    };
    assert!(af.duration_secs.is_none());
}

#[test]
fn test_validate_url_http_accepted() {
    let result = validate_url("http://example.com/video/123");
    assert!(result.is_ok());
}

#[test]
fn test_validate_url_ftp_rejected() {
    let result = validate_url("ftp://example.com/video.mp4");
    assert!(result.is_err());
}

#[test]
fn validate_url_error_kinds_and_messages() {
    let e = validate_url("").unwrap_err();
    assert_eq!(e, UrlError::Empty);
    assert_eq!(e.message(), "URL must not be empty");
    let e = validate_url("not-a-url").unwrap_err();
    assert_eq!(e, UrlError::Invalid);
    assert_eq!(e.message(), "Failed to parse URL");
    let e = validate_url("ftp://example.com/video.mp4").unwrap_err();
    assert_eq!(e, UrlError::UnsupportedScheme("ftp".to_string()));
    assert_eq!(e.message(), "Unsupported URL scheme 'ftp'; only http and https are allowed");
}

#[test]
fn validate_url_normalises_through_the_parser() {
    let parsed = validate_url("HTTPS://Example.COM/a").unwrap();
    assert_eq!(parsed.scheme(), "https");
    assert_eq!(parsed.host_str(), Some("example.com"));
    assert_eq!(parsed.as_str(), "https://example.com/a");
}

#[test]
fn check_parsed_url_without_parse() {
    assert_eq!(check_parsed_url(None).unwrap_err(), UrlError::Invalid);
}

#[test]
fn file_names_like_std_path() {
    let cases = [
        "/tmp/a.mp3", "a.mp3", "/tmp/dir/", "/tmp/dir/.", "/", "", ".", "..", "a/..", "./x",
        "x//y", "/tmp/.hidden", "/tmp/a.b.c", "/tmp/a.", "//", "a/./", "...",
    ];
    for c in cases {
        let p = std::path::Path::new(c);
        assert_eq!(path_file_name(c), p.file_name().and_then(|s| s.to_str()), "file_name of {c:?}");
        assert_eq!(path_file_stem(c), p.file_stem().and_then(|s| s.to_str()), "file_stem of {c:?}");
    }
}

#[test]
fn downloaded_audio_file() {
    let af = audio_file_from_download("  /media/My Video.mp3\n", Some(42));
    assert_eq!(af.path, "/media/My Video.mp3");
    assert_eq!(af.title, "My Video");
    assert_eq!(af.duration_secs, Some(42));
    let af = audio_file_from_download("\n", None);
    assert_eq!(af.path, "");
    assert_eq!(af.title, "Unknown Title");
}

#[test]
fn audio_urls() {
    assert_eq!(
        episode_audio_url("http://localhost:3000", "/media/x y.mp3"),
        "http://localhost:3000/audio/x y.mp3"
    );
    assert_eq!(episode_audio_url("http://h", "/"), "http://h/audio/episode.mp3");
}

#[test]
fn media_paths_like_std_join() {
    let cases = [
        ("/tmp/test_media", "a.mp3"),
        ("/tmp/test_media/", "a.mp3"),
        ("", "a.mp3"),
        ("./media", "/etc/passwd"),
        ("./media", ""),
        ("./media", "../x.mp3"),
    ];
    for (dir, name) in cases {
        let expected = std::path::PathBuf::from(dir).join(name);
        assert_eq!(media_file_path(dir, name), expected.to_str().unwrap(), "{dir:?} + {name:?}");
    }
}

#[test]
fn command_lines() {
    let url = validate_url("https://www.youtube.com/watch?v=test").unwrap();
    let args = download_command_args("/tmp/test_media", &url);
    assert_eq!(
        args,
        vec![
            "-x",
            "--audio-format",
            "mp3",
            "--audio-quality",
            "0",
            "--print",
            "after_move:filepath",
            "-o",
            "/tmp/test_media/%(title)s.%(ext)s",
            "https://www.youtube.com/watch?v=test",
        ]
    );
    assert_eq!(
        probe_command_args("/m/a.mp3"),
        vec!["-v", "quiet", "-print_format", "json", "-show_streams", "/m/a.mp3"]
    );
}

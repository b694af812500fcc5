use to_podcast::media::{checked_download, download_outcome, DownloadError, DownloadRun};

#[test]
fn missing_downloader() {
    let e = download_outcome(DownloadRun::NotFound).unwrap_err();
    assert_eq!(e, DownloadError::ToolMissing);
    assert_eq!(e.message(), "yt-dlp not found; please install yt-dlp to download videos");
    let e = download_outcome(DownloadRun::CouldNotRun).unwrap_err();
    assert_eq!(e.message(), "Failed to run yt-dlp");
}

#[test]
fn failed_download_reports_stderr() {
    let run = DownloadRun::Exited {
        success: false,
        stdout: "/media/a.mp3\n".to_string(),
        stderr: "ERROR: unsupported".to_string(),
    };
    let e = download_outcome(run).unwrap_err();
    assert_eq!(e, DownloadError::Failed("ERROR: unsupported".to_string()));
    assert_eq!(e.message(), "yt-dlp failed: ERROR: unsupported");
}

#[test]
fn successful_download_reads_printed_path() {
    let run = DownloadRun::Exited {
        success: true,
        stdout: "  /media/My Talk.mp3\n".to_string(),
        stderr: String::new(),
    };
    let audio = download_outcome(run).unwrap();
    assert_eq!(audio.path, "/media/My Talk.mp3");
    assert_eq!(audio.title, "My Talk");
    assert_eq!(audio.duration_secs, None);

    let kept = checked_download(audio.clone(), true).unwrap();
    assert_eq!(kept.path, "/media/My Talk.mp3");
    let e = checked_download(audio, false).unwrap_err();
    assert_eq!(e, DownloadError::MissingFile("/media/My Talk.mp3".to_string()));
    assert_eq!(e.message(), "yt-dlp reported file '/media/My Talk.mp3' but it does not exist");
}

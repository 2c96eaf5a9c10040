use qrt_rust_utils::downloaders::{VideoDownloader, YoutubeDlManager, YoutubeDlUtils, USER_AGENT};

#[test]
fn video_downloader_args() {
    let url = "http://pull-hls-l1.douyincdn.com/radio/stream-110970056259928098/playlist.m3u8";
    let path = "R:\\test.mp3";
    let args = VideoDownloader::ffmpeg_args(url, path);
    let expected = vec![
        "-protocol_whitelist", "file,http,https,tcp,tls,hist", "-user_agent", USER_AGENT, "-i", url,
        "-f", "mpegts", "-c", "copy", "-reconnect", "1", "-reconnect_at_eof", "1",
        "-reconnect_streamed", "1", "-reconnect_delay_max", "2", path,
    ];
    assert_eq!(args, expected);
}

#[test]
fn youtubedl_manager_args() {
    let url = "http://pull-hls-l26.douyincdn.com/stage/stream-110735334551584907.m3u8";
    let path = "D:\\test%(timestamp)s.mp4";
    let args = YoutubeDlManager::command_args(url, path);
    let expected = vec![
        "--skip-unavailable-fragments", "--retries", "10", "--fragment-retries", "10",
        "--hls-use-mpegts", "--user-agent", USER_AGENT, "--format", "best", "--no-part", url, "-o", path,
    ];
    assert_eq!(args, expected);
}

#[test]
fn youtubedl_utils_args_and_exit() {
    let url = "http://pull-hls-l11.douyincdn.com/stage/stream-109808439404265617.m3u8";
    let args = YoutubeDlUtils::command_args("aaa", url);
    let expected = vec![
        url, "--user-agent", USER_AGENT, "--socket-timeout", "20", "--hls-use-mpegts", "-o", "aaa.%(ext)s",
    ];
    assert_eq!(args, expected);
    assert_eq!(YoutubeDlUtils::exit_outcome(Some(0), "aaa"), Ok(()));
    assert_eq!(YoutubeDlUtils::exit_outcome(None, "aaa"), Ok(()));
    assert_eq!(
        YoutubeDlUtils::exit_outcome(Some(1), "bbb"),
        Err("failed to download file bbb".to_string())
    );
    assert_eq!(
        YoutubeDlUtils::exit_outcome(Some(-9), "c"),
        Err("failed to download file c".to_string())
    );
}

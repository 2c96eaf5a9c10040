use qrt_rust_utils::ffmpeg::{parse_line, progress_from_pairs, FFmpegCaller, FfmpegCaller, Status};

#[test]
fn ffmpeg_caller_test_parse_line() {
    let line = "frame=  196 fps= 19 q=-1.0 Lsize=    5081kB time=00:00:14.06 bitrate=2958.7kbits/s dup=2 drop=0 speed=1.36x";
    let progress = parse_line(line).unwrap();
    println!("&progress={:?}", &progress);
    assert_eq!(progress.frame, Some(196));
    assert_eq!(progress.fps_texts, vec!["19".to_string()]);
    assert_eq!(progress.total_size, None);
    assert_eq!(progress.out_time_us, None);
    assert_eq!(progress.dup_frames, Some(2));
    assert_eq!(progress.drop_frames, Some(0));
    assert_eq!(progress.speed_texts, vec!["1.36".to_string()]);
    assert!(matches!(progress.status, Status::Continue));
}

#[test]
fn parse_line_reads_progress_keys() {
    let line = "frame=10 total_size=2048 out_time_us=1500000 dup_frames=3 drop_frames=4 speed=2.5x progress=end";
    let progress = parse_line(line).unwrap();
    assert_eq!(progress.frame, Some(10));
    assert_eq!(progress.total_size, Some(2048));
    assert_eq!(progress.out_time_us, Some(1500000));
    assert_eq!(progress.dup_frames, Some(3));
    assert_eq!(progress.drop_frames, Some(4));
    assert_eq!(progress.speed_texts, vec!["2.5".to_string()]);
    assert!(matches!(progress.status, Status::End));
}

#[test]
fn parse_line_keeps_earlier_value_when_a_number_does_not_read() {
    let progress = parse_line("frame=5 frame=abc frame=-1").unwrap();
    assert_eq!(progress.frame, Some(5));
    let progress = parse_line("frame=5 frame=6").unwrap();
    assert_eq!(progress.frame, Some(6));
    let progress = parse_line("progress=continue").unwrap();
    assert!(matches!(progress.status, Status::Continue));
    let progress = parse_line("progress=whatever").unwrap();
    assert!(matches!(progress.status, Status::End));
}

#[test]
fn parse_line_of_text_without_pairs_is_empty() {
    let progress = parse_line("nothing to see here").unwrap();
    assert_eq!(progress.frame, None);
    assert!(progress.fps_texts.is_empty());
    assert!(progress.speed_texts.is_empty());
    assert!(matches!(progress.status, Status::Continue));
}

#[test]
fn parse_line_refuses_speed_ending_in_wide_character() {
    assert!(parse_line("speed=1.0é").is_none());
}

#[test]
fn progress_from_pairs_applies_pairs_in_order() {
    let pairs = vec![
        ("fps".to_string(), "25.0".to_string()),
        ("fps".to_string(), "30.0".to_string()),
        ("dup".to_string(), "1".to_string()),
        ("unknown".to_string(), "9".to_string()),
    ];
    let progress = progress_from_pairs(&pairs);
    assert_eq!(progress.fps_texts, vec!["25.0".to_string(), "30.0".to_string()]);
    assert_eq!(progress.dup_frames, Some(1));
    assert_eq!(progress.frame, None);
}

#[test]
fn command_args_put_fixed_options_first() {
    let source = "R:\\a.mp4";
    let dest = "R:\\a.mkv";
    let args = vec!["-reconnect", "1", "-reconnect_at_eof", "1", "-reconnect_streamed", "1", "-reconnect_delay_max", "30", "-loglevel", "0", "-user-agent", "Mozilla/5.0 (Windows NT 10.0; Win64; x64) AppleWebKit/537.36 (KHTML, like Gecko) Chrome/77.0.3844.0 Safari/537.36", "-i", source, "-c", "copy", dest];
    let full = FfmpegCaller::command_args(&args);
    assert_eq!(full.len(), 4 + args.len());
    assert_eq!(&full[..4], &["-stats", "-y", "-loglevel", "quiet"]);
    for (i, a) in args.iter().enumerate() {
        assert_eq!(full[4 + i], *a);
    }
    assert_eq!(FFmpegCaller::command_args(&[]), vec!["-stats", "-y", "-loglevel", "quiet"]);
}

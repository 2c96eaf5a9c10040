//! Command lines of the external downloaders (ffmpeg, youtube-dl) and how
//! their exit is judged.
use vstd::prelude::*;
use crate::text::owned_texts;

verus! {

/// The browser identity the downloaders present.
pub const USER_AGENT: &'static str = "Mozilla/5.0 (Windows NT 10.0; Win64; x64) AppleWebKit/537.36 (KHTML, like Gecko) Chrome/77.0.3844.0 Safari/537.36";

/// Records a live stream with ffmpeg.
pub struct VideoDownloader {}

/// The ffmpeg options for recording `url` into `path` as MPEG-TS, copying the
/// streams and reconnecting when the source drops.
pub open spec fn video_download_args(url: Seq<char>, path: Seq<char>) -> Seq<Seq<char>> {
    seq![
        "-protocol_whitelist"@,
        "file,http,https,tcp,tls,hist"@,
        "-user_agent"@,
        USER_AGENT@,
        "-i"@,
        url,
        "-f"@,
        "mpegts"@,
        "-c"@,
        "copy"@,
        "-reconnect"@,
        "1"@,
        "-reconnect_at_eof"@,
        "1"@,
        "-reconnect_streamed"@,
        "1"@,
        "-reconnect_delay_max"@,
        "2"@,
        path,
    ]
}

impl VideoDownloader {
    /// The options handed to ffmpeg to record `url` into `path`.
    pub fn ffmpeg_args(url: &str, path: &str) -> (r: Vec<String>)
        ensures
            r.deep_view() == video_download_args(url@, path@),
    {
        let items: [&str; 19] = [
            "-protocol_whitelist",
            "file,http,https,tcp,tls,hist",
            "-user_agent",
            USER_AGENT,
            "-i",
            url,
            "-f",
            "mpegts",
            "-c",
            "copy",
            "-reconnect",
            "1",
            "-reconnect_at_eof",
            "1",
            "-reconnect_streamed",
            "1",
            "-reconnect_delay_max",
            "2",
            path,
        ];
        let r = owned_texts(&items);
        assert(items.deep_view() =~= video_download_args(url@, path@));
        r
    }
}

/// Downloads with youtube-dl, retrying fragments a bounded number of times.
pub struct YoutubeDlManager {}

/// The youtube-dl options for downloading `url` to the output template `path`.
pub open spec fn youtubedl_manager_args(url: Seq<char>, path: Seq<char>) -> Seq<Seq<char>> {
    seq![
        "--skip-unavailable-fragments"@,
        "--retries"@,
        "10"@,
        "--fragment-retries"@,
        "10"@,
        "--hls-use-mpegts"@,
        "--user-agent"@,
        USER_AGENT@,
        "--format"@,
        "best"@,
        "--no-part"@,
        url,
        "-o"@,
        path,
    ]
}

impl YoutubeDlManager {
    /// The options handed to youtube-dl to download `url` to `path`.
    pub fn command_args(url: &str, path: &str) -> (r: Vec<String>)
        ensures
            r.deep_view() == youtubedl_manager_args(url@, path@),
    {
        let items: [&str; 14] = [
            "--skip-unavailable-fragments",
            "--retries",
            "10",
            "--fragment-retries",
            "10",
            "--hls-use-mpegts",
            "--user-agent",
            USER_AGENT,
            "--format",
            "best",
            "--no-part",
            url,
            "-o",
            path,
        ];
        let r = owned_texts(&items);
        assert(items.deep_view() =~= youtubedl_manager_args(url@, path@));
        r
    }
}

/// Downloads a stream into a directory with youtube-dl.
pub struct YoutubeDlUtils {}

/// The output template: the file name followed by youtube-dl's extension field.
pub open spec fn output_template(filename: Seq<char>) -> Seq<char> {
    filename + ".%(ext)s"@
}

/// The youtube-dl options for downloading `url` under the name `filename`.
pub open spec fn youtubedl_utils_args(filename: Seq<char>, url: Seq<char>) -> Seq<Seq<char>> {
    seq![
        url,
        "--user-agent"@,
        USER_AGENT@,
        "--socket-timeout"@,
        "20"@,
        "--hls-use-mpegts"@,
        "-o"@,
        output_template(filename),
    ]
}

/// The message of a download whose process exited with a failure code.
pub open spec fn failed_download_message(filename: Seq<char>) -> Seq<char> {
    "failed to download file "@ + filename
}

impl YoutubeDlUtils {
    /// The options handed to youtube-dl (after the program itself).
    pub fn command_args(filename: &str, url: &str) -> (r: Vec<String>)
        ensures
            r.deep_view() == youtubedl_utils_args(filename@, url@),
    {
        let mut template = filename.to_owned();
        template.append(".%(ext)s");
        let items: [&str; 8] = [
            url,
            "--user-agent",
            USER_AGENT,
            "--socket-timeout",
            "20",
            "--hls-use-mpegts",
            "-o",
            template.as_str(),
        ];
        let r = owned_texts(&items);
        assert(items.deep_view() =~= youtubedl_utils_args(filename@, url@));
        r
    }

    /// Judges the exit of youtube-dl: a reported non-zero code is a failure;
    /// a zero code, or none (the process was killed by a signal), is success.
    pub fn exit_outcome(status_code: Option<i32>, filename: &str) -> (r: Result<(), String>)
        ensures
            match status_code {
                Some(code) if code != 0 => r matches Err(m) && m@ == failed_download_message(
                    filename@,
                ),
                _ => r is Ok,
            },
    {
        match status_code {
            Some(code) => {
                if code != 0 {
                    let mut message = "failed to download file ".to_owned();
                    message.append(filename);
                    return Err(message);
                }
                Ok(())
            },
            None => Ok(()),
        }
    }
}

} // verus!

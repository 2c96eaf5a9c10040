//! Where a simple download is stored: a directory per parent name and a file
//! name, each made safe for the file system.
use vstd::prelude::*;
use vstd::utf8::encode_utf8;
use crate::sanitize::{sanitize_patterns_accepted, sanitize_patterns_compile, sanitize_with_options, sanitized, SanitizeOption};

verus! {

/// Where downloads go.
#[derive(Debug, Default)]
pub struct DownloadConfig {
    pub download_directory: String,
}

/// A very basic GET download.
#[derive(Debug, Eq, PartialEq)]
pub struct SimpleDownloadTaskParam {
    /// For file name generation.
    pub name: String,
    /// The directories (outermost first) that hold the file.
    pub parent_directories: Vec<String>,
    /// Which link to download.
    pub download_url: String,
}

/// Downloads files over HTTP.
pub struct Downloader {}

/// The storage place of a download: the directories to join, outermost first
/// (the configured download directory, then one per parent name), and the
/// file name inside the last of them.
#[derive(Debug)]
pub struct DownloadPlan {
    pub directories: Vec<String>,
    pub file_name: String,
}

/// The mathematical content of a `DownloadPlan`.
pub struct DownloadPlanView {
    pub directories: Seq<Seq<char>>,
    pub file_name: Seq<char>,
}

impl View for DownloadPlan {
    type V = DownloadPlanView;

    open spec fn view(&self) -> DownloadPlanView {
        DownloadPlanView { directories: self.directories.deep_view(), file_name: self.file_name@ }
    }
}

/// The last segment of the path of `url`, as the `url` crate reads it;
/// `None` when the text does not parse as a URL or the URL has no path
/// segments (it cannot be a base).
pub uninterp spec fn url_last_path_segment(url: Seq<char>) -> Option<Seq<char>>;

/// Calls `url::Url::parse(url)`, then `Url::path_segments` and takes the last
/// segment. Claims: the segment named by `url_last_path_segment`.
#[verifier::external_body]
fn last_path_segment(url: &str) -> (r: Option<String>)
    ensures
        r matches Some(s) ==> url_last_path_segment(url@) == Some(s@),
        r is None ==> url_last_path_segment(url@) is None,
{
    match url::Url::parse(url) {
        Ok(parsed) => parsed.path_segments().and_then(|mut segments| segments.last()).map(
            |s| s.to_string(),
        ),
        Err(_) => None,
    }
}

/// A name longer than 250 bytes (in UTF-8) is cut to its first 125 characters.
pub open spec fn shortened(s: Seq<char>) -> Seq<char> {
    if encode_utf8(s).len() > 250 {
        s.take(if s.len() < 125 {
            s.len() as int
        } else {
            125
        })
    } else {
        s
    }
}

/// Shortening keeps the start of a name: the result is the name itself when
/// it takes at most 250 bytes in UTF-8, and otherwise its first 125
/// characters (all of it, if it has fewer).
pub proof fn lemma_shortened_keeps_the_start(s: Seq<char>)
    ensures
        shortened(s).len() <= s.len(),
        s.take(shortened(s).len() as int) == shortened(s),
        forall|i: int| 0 <= i < shortened(s).len() ==> #[trigger] shortened(s)[i] == s[i],
        encode_utf8(s).len() <= 250 ==> shortened(s) == s,
        encode_utf8(s).len() > 250 ==> shortened(s).len() == (if s.len() < 125 {
            s.len() as int
        } else {
            125
        }),
{
    assert(s.take(s.len() as int) =~= s);
    let k = shortened(s).len() as int;
    assert(s.take(k) =~= shortened(s));
}

/// A name made safe to be one component of a path.
pub open spec fn safe_component(s: Seq<char>, windows: bool) -> Seq<char> {
    shortened(sanitized(s, windows, "_"@))
}

/// The storage place of a download, for the given choice of Windows rules.
pub open spec fn planned_storage(
    info_name: Seq<char>,
    parents: Seq<Seq<char>>,
    root: Seq<char>,
    windows: bool,
) -> DownloadPlanView {
    DownloadPlanView {
        directories: seq![root] + Seq::new(
            parents.len(),
            |i: int| safe_component(parents[i], windows),
        ),
        file_name: safe_component(info_name, windows),
    }
}

/// The storage place of a download, if it can go ahead: not when its URL
/// has no last path segment, nor when the sanitize patterns for these rules
/// do not compile.
pub open spec fn planned_download(
    info_name: Seq<char>,
    parents: Seq<Seq<char>>,
    root: Seq<char>,
    url: Seq<char>,
    windows: bool,
) -> Option<DownloadPlanView> {
    if url_last_path_segment(url) is None || !sanitize_patterns_accepted(windows) {
        None
    } else {
        Some(planned_storage(info_name, parents, root, windows))
    }
}

/// The view of an optional plan.
pub open spec fn plan_view(r: Option<DownloadPlan>) -> Option<DownloadPlanView> {
    match r {
        Some(plan) => Some(plan@),
        None => None,
    }
}

fn shorten(s: String) -> (r: String)
    ensures
        r@ == shortened(s@),
{
    if s.as_str().as_bytes().len() > 250 {
        let n = s.as_str().unicode_len();
        let keep = if n < 125 {
            n
        } else {
            125
        };
        s.as_str().substring_char(0, keep).to_owned()
    } else {
        s
    }
}

fn safe_name(s: &str, windows: bool) -> (r: String)
    requires
        sanitize_patterns_accepted(windows),
    ensures
        r@ == safe_component(s@, windows),
{
    shorten(sanitize_with_options(s, SanitizeOption { windows, replacement: "_" }))
}

impl Downloader {
    /// Where a download is stored, under the platform's sanitize rules.
    /// `None` when its URL does not parse or has no path segments, or when
    /// the sanitize patterns do not compile (such a download cannot go ahead).
    pub fn download_plan(info: &SimpleDownloadTaskParam, config: &DownloadConfig) -> (r: Option<
        DownloadPlan,
    >)
        ensures
            url_last_path_segment(info.download_url@) is None ==> r is None,
            exists|windows: bool|
                plan_view(r) == #[trigger] planned_download(
                    info.name@,
                    info.parent_directories.deep_view(),
                    config.download_directory@,
                    info.download_url@,
                    windows,
                ),
    {
        let options = SanitizeOption::default();
        Downloader::download_plan_for(info, config, options.windows)
    }

    /// Where a download is stored under the given sanitize rules (`windows`
    /// says whether the Windows rules apply). `None` when its URL does not
    /// parse or has no path segments, or when the sanitize patterns for these
    /// rules do not compile.
    pub fn download_plan_for(
        info: &SimpleDownloadTaskParam,
        config: &DownloadConfig,
        windows: bool,
    ) -> (r: Option<DownloadPlan>)
        ensures
            plan_view(r) == planned_download(
                info.name@,
                info.parent_directories.deep_view(),
                config.download_directory@,
                info.download_url@,
                windows,
            ),
    {
        if !sanitize_patterns_compile(windows) {
            assert(planned_download(
                info.name@,
                info.parent_directories.deep_view(),
                config.download_directory@,
                info.download_url@,
                windows,
            ) is None);
            return None;
        }
        let ghost parents = info.parent_directories.deep_view();
        let mut directories: Vec<String> = Vec::new();
        directories.push(config.download_directory.clone());
        let mut i: usize = 0;
        while i < info.parent_directories.len()
            invariant
                i <= info.parent_directories.len(),
                sanitize_patterns_accepted(windows),
                parents == info.parent_directories.deep_view(),
                directories@.len() == 1 + i,
                directories@[0]@ == config.download_directory@,
                forall|j: int|
                    0 <= j < i ==> (#[trigger] directories@[1 + j])@ == safe_component(
                        parents[j],
                        windows,
                    ),
            decreases info.parent_directories.len() - i,
        {
            let part = safe_name(info.parent_directories[i].as_str(), windows);
            directories.push(part);
            i = i + 1;
        }
        if last_path_segment(info.download_url.as_str()).is_none() {
            assert(planned_download(
                info.name@,
                parents,
                config.download_directory@,
                info.download_url@,
                windows,
            ) is None);
            return None;
        }
        let file_name = safe_name(info.name.as_str(), windows);
        let plan = DownloadPlan { directories, file_name };
        assert(plan@ == planned_storage(
            info.name@,
            parents,
            config.download_directory@,
            windows,
        )) by {
            assert(plan@.directories =~= planned_storage(
                info.name@,
                parents,
                config.download_directory@,
                windows,
            ).directories) by {
                assert forall|j: int| 1 <= j < directories@.len() implies directories@[j]@
                    == safe_component(parents[j - 1], windows) by {
                    assert(directories@[1 + (j - 1)]@ == safe_component(parents[j - 1], windows));
                }
            }
        }
        Some(plan)
    }
}

} // verus!

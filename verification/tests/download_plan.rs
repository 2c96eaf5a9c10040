use qrt_rust_utils::download_plan::{DownloadConfig, Downloader, SimpleDownloadTaskParam};

fn param(name: &str, parents: &[&str], url: &str) -> SimpleDownloadTaskParam {
    SimpleDownloadTaskParam {
        name: name.to_string(),
        parent_directories: parents.iter().map(|p| p.to_string()).collect(),
        download_url: url.to_string(),
    }
}

#[test]
fn plan_sanitizes_each_component() {
    let config = DownloadConfig { download_directory: "/data/downloads".to_string() };
    let info = param("clip:one?.mp4", &["show/season", "ep*1"], "http://example.com/media/clip.mp4");
    let plan = Downloader::download_plan(&info, &config).unwrap();
    assert_eq!(plan.directories, vec!["/data/downloads", "show_season", "ep_1"]);
    assert_eq!(plan.file_name, "clip_one_.mp4");
}

#[test]
fn plan_shortens_long_names() {
    let config = DownloadConfig::default();
    let long = "é".repeat(200);
    let info = param(&long, &[&long], "https://example.com/a");
    let plan = Downloader::download_plan(&info, &config).unwrap();
    assert_eq!(plan.directories.len(), 2);
    assert_eq!(plan.directories[0], "");
    assert_eq!(plan.directories[1].chars().count(), 125);
    assert_eq!(plan.file_name, "é".repeat(125));
    let short = "a".repeat(250);
    let info = param(&short, &[], "https://example.com/a");
    assert_eq!(Downloader::download_plan(&info, &config).unwrap().file_name, short);
}

#[test]
fn plan_needs_a_url_with_a_path() {
    let config = DownloadConfig::default();
    assert!(Downloader::download_plan(&param("a", &[], "not a url"), &config).is_none());
    assert!(Downloader::download_plan(&param("a", &[], "mailto:someone@example.com"), &config).is_none());
    assert!(Downloader::download_plan(&param("a", &[], "http://example.com"), &config).is_some());
}

#[test]
fn plan_for_each_rule_set() {
    let config = DownloadConfig { download_directory: "root".to_string() };
    let info = param("con", &["nul.txt", "a"], "http://example.com/x");
    let unix = Downloader::download_plan_for(&info, &config, false).unwrap();
    assert_eq!(unix.directories, vec!["root", "nul.txt", "a"]);
    assert_eq!(unix.file_name, "con");
    let windows = Downloader::download_plan_for(&info, &config, true).unwrap();
    assert_eq!(windows.directories, vec!["root", "_", "a"]);
    assert_eq!(windows.file_name, "_");
    assert!(Downloader::download_plan_for(&param("a", &[], "bad url"), &config, true).is_none());
}

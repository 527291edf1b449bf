use rust_vdl::options::VideoDownloaderOptions;
use rust_vdl::paths::getOptionsPath;
use rust_vdl::template::{OutputTemplateBuilder, OutputTemplateVariable};

#[test]
fn default_argument_list() {
    let o = VideoDownloaderOptions::withDefaults("/home/u/Downloads".to_string());
    let expected: Vec<String> = [
        "--no-playlist",
        "--no-embed-metadata",
        "--format",
        "bv*+ba/b",
        "--output",
        "%(upload_date)s - %(title)s.%(ext)s",
        "--paths",
        "/home/u/Downloads",
        "--no-prefer-free-formats",
        "--no-write-auto-subs",
        "--no-write-subs",
        "--no-write-thumbnail",
    ]
    .iter()
    .map(|s| s.to_string())
    .collect();
    assert_eq!(o.generateArgumentList(), expected);
}

#[test]
fn full_argument_list() {
    let mut o = VideoDownloaderOptions::withDefaults(String::new());
    o.ageLimit = 18;
    o.convertSubs = "srt".to_string();
    o.convertThumbnails = "png".to_string();
    o.downloadPlaylist = true;
    o.embedMetadata = true;
    o.ffmpegLocation = "/usr/bin".to_string();
    o.format = String::new();
    o.formatSort = "res".to_string();
    o.limitRate = "50K".to_string();
    o.output = String::new();
    o.preferFreeFormats = true;
    o.subFormat = "vtt".to_string();
    o.subLangs = "en".to_string();
    o.username = "me".to_string();
    o.writeAutoSubs = true;
    o.writeSubs = true;
    o.writeThumbnail = true;
    let expected: Vec<String> = [
        "--age-limit",
        "18",
        "--convert-subs",
        "srt",
        "--convert-thumbnails",
        "png",
        "--yes-playlist",
        "--embed-metadata",
        "--ffmpeg-location",
        "/usr/bin",
        "--format-sort",
        "res",
        "--limit-rate",
        "50K",
        "--prefer-free-formats",
        "--sub-format",
        "vtt",
        "--sub-langs",
        "en",
        "--username",
        "me",
        "--write-auto-subs",
        "--write-subs",
        "--write-thumbnail",
    ]
    .iter()
    .map(|s| s.to_string())
    .collect();
    assert_eq!(o.generateArgumentList(), expected);
}

#[test]
fn negative_age_limit_is_left_out() {
    let mut o = VideoDownloaderOptions::withDefaults(String::new());
    o.ageLimit = -3;
    assert_eq!(o.generateArgumentList()[0], "--no-playlist");
}

#[test]
fn template_builder_pushes_fields() {
    let mut b = OutputTemplateBuilder::new(String::new());
    b.push(OutputTemplateVariable::UploadDate, None);
    b.push(OutputTemplateVariable::Title, Some(" - ".to_string()));
    b.push(OutputTemplateVariable::ViewCount, Some(" ".to_string()));
    b.push(OutputTemplateVariable::IsLive, Some(".".to_string()));
    assert_eq!(b.get(), "%(upload_date)s - %(title)s %(view_count)n.%(is_live)b");
    b.set("x".to_string());
    assert_eq!(b.get(), "x");
    b.clear();
    assert_eq!(b.get(), "");
}

#[test]
fn options_path_inside_config_dir() {
    assert_eq!(
        getOptionsPath(Some("C:\\cfg".to_string())),
        Some("C:\\cfg\\options.json".to_string())
    );
    assert_eq!(getOptionsPath(None), None);
}

use rust_vdl::classify::{classifyLine, LineClass};
use rust_vdl::progress::DownloadProgress;
use rust_vdl::text::{decimal_string, split_at_each, split_tokens};

#[test]
fn progress_line_fields_by_token_shape() {
    let p = DownloadProgress::parse("45.2% of 10.00MiB at 1.50MiB/s ETA 00:07");
    assert_eq!(p.percentComplete, "45.2%");
    assert_eq!(p.size, "10.00MiB");
    assert_eq!(p.transferRate, "1.50MiB/s");
    assert_eq!(p.time, "00:07");
    assert_eq!(p.fragmentStatus, "");
    assert_eq!(p.label, "");
}

#[test]
fn fragment_status_drops_its_parenthesis() {
    let p = DownloadProgress::parse(" 12.5% of ~ 80.00MiB at  2.00MiB/s ETA 00:35 (frag 3/24)");
    assert_eq!(p.percentComplete, "12.5%");
    assert_eq!(p.size, "80.00MiB");
    assert_eq!(p.fragmentStatus, "3/24");
}

#[test]
fn later_percent_token_wins() {
    let p = DownloadProgress::parse("10% then 20%");
    assert_eq!(p.percentComplete, "20%");
}

#[test]
fn no_tokens_means_nothing_to_report() {
    let p = DownloadProgress::parse("   \t ");
    assert_eq!(p, DownloadProgress::default());
    assert!(!p.isReportable());
}

#[test]
fn update_overwrites_every_field() {
    let mut a = DownloadProgress::parse("1% of 2MiB");
    let b = DownloadProgress::parse("3% at 4MiB/s ETA 00:01 (x)");
    a.update(b.clone());
    assert_eq!(a, b);
    assert_eq!(a.size, "");
}

#[test]
fn update_keeps_finished_record() {
    let mut a = DownloadProgress::parse("100% of 2MiB");
    let before = a.clone();
    a.update(DownloadProgress::parse("5% of 2MiB"));
    assert_eq!(a, before);
    assert_eq!(a.percentComplete, "100%");
}

#[test]
fn bar_display_values() {
    let p = DownloadProgress::parse("45.2% of 1MiB");
    assert_eq!(p.barDisplay(), ("45.2".to_string(), "45.2%".to_string()));
    let q = DownloadProgress::parse("1MiB at 1MiB/s ETA 00:01");
    assert_eq!(q.barDisplay(), ("100".to_string(), "?".to_string()));
}

#[test]
fn classify_destination() {
    match classifyLine("[download] Destination: /x/y/My Title.f140.m4a") {
        LineClass::Destination { name } => assert_eq!(name, "My Title.f140"),
        _ => panic!("not a destination"),
    }
}

#[test]
fn classify_destination_without_extension_is_progress() {
    match classifyLine("[download] Destination: /x/y/noext") {
        LineClass::Progress { rest } => assert_eq!(rest, " Destination: /x/y/noext"),
        _ => panic!("not progress"),
    }
}

#[test]
fn classify_already_downloaded() {
    match classifyLine("[download] /a/b/Clip.f22.mp4 has already been downloaded") {
        LineClass::AlreadyDownloaded { name } => assert_eq!(name, "Clip.f22"),
        _ => panic!("not already downloaded"),
    }
}

#[test]
fn classify_playlist_item() {
    match classifyLine("[download] Downloading item 2 of 5") {
        LineClass::PlaylistItem { current, max } => {
            assert_eq!(current, Some(2));
            assert_eq!(max, Some(5));
        }
        _ => panic!("not a playlist item"),
    }
}

#[test]
fn classify_playlist_item_needs_both_numbers() {
    assert!(matches!(
        classifyLine("[download] Downloading item 2 of many"),
        LineClass::Progress { .. }
    ));
}

#[test]
fn classify_formats_takes_last_marker() {
    match classifyLine("[info] a: Downloading 1 format(s): x: Downloading 2 format(s): 137+140") {
        LineClass::Formats { list } => assert_eq!(list, "137+140"),
        _ => panic!("not formats"),
    }
}

#[test]
fn classify_subtitles() {
    match classifyLine("[info] abc: Downloading subtitles: en, fr") {
        LineClass::Subtitles { list } => assert_eq!(list, "en, fr"),
        _ => panic!("not subtitles"),
    }
}

#[test]
fn classify_other_lines_are_ignored() {
    assert!(matches!(classifyLine("[youtube] abc: Downloading webpage"), LineClass::Ignored));
    assert!(matches!(classifyLine("[info] abc: Writing video metadata"), LineClass::Ignored));
    assert!(matches!(classifyLine("[info] x: Downloading 2 format(s): "), LineClass::Ignored));
    assert!(matches!(classifyLine(""), LineClass::Ignored));
    assert!(matches!(classifyLine("ERROR: unable to download"), LineClass::Ignored));
}

#[test]
fn tokens_split_on_unicode_whitespace() {
    assert_eq!(
        split_tokens(" a\u{3000}bc\td  "),
        vec!["a".to_string(), "bc".to_string(), "d".to_string()]
    );
    assert!(split_tokens("").is_empty());
}

#[test]
fn split_keeps_empty_pieces() {
    assert_eq!(
        split_at_each("a++b", "+"),
        vec!["a".to_string(), "".to_string(), "b".to_string()]
    );
    assert_eq!(split_at_each("en, de", ", "), vec!["en".to_string(), "de".to_string()]);
    assert_eq!(split_at_each("", ", "), vec!["".to_string()]);
}

#[test]
fn decimal_rendering() {
    assert_eq!(decimal_string(0), "0");
    assert_eq!(decimal_string(7), "7");
    assert_eq!(decimal_string(1234), "1234");
    assert_eq!(decimal_string(u64::MAX), "18446744073709551615");
}

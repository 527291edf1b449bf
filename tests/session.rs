use rust_vdl::events::{DownloadEvent, DownloadReset, DownloadStopped, DownloadTitle};
use rust_vdl::options::VideoDownloaderOptions;
use rust_vdl::progress::DownloadProgress;
use rust_vdl::session::{DownloadError, DownloadPhase, VideoDownloader};

fn options() -> VideoDownloaderOptions {
    VideoDownloaderOptions::withDefaults("/downloads".to_string())
}

fn running() -> VideoDownloader {
    let mut d = VideoDownloader::new("yt-dlp".to_string(), options());
    d.download("https://example.com/v").expect("starts");
    d
}

fn progress(label: &str, percent: &str, rate: &str, size: &str, time: &str) -> DownloadProgress {
    DownloadProgress {
        size: size.to_string(),
        time: time.to_string(),
        fragmentStatus: String::new(),
        label: label.to_string(),
        percentComplete: percent.to_string(),
        transferRate: rate.to_string(),
    }
}

#[test]
fn destination_line_sets_title_and_label() {
    let mut d = running();
    assert_eq!(d.processLine("[info] abc: Downloading 1 format(s): 140"), None);
    let e = d.processLine("[download] Destination: /x/y/My Title.f140.m4a");
    assert_eq!(e, Some(DownloadEvent::Title(DownloadTitle { title: "My Title".to_string() })));
    assert_eq!(d.currentLabel(), "140");
}

#[test]
fn formats_announcement_lists_labels_in_order() {
    let mut d = running();
    assert_eq!(d.processLine("[info] dQw4w9WgXcQ: Downloading 2 format(s): 140+251"), None);
    assert_eq!(d.knownLabels(), &vec!["140".to_string(), "251".to_string()]);
}

#[test]
fn formats_are_not_repeated() {
    let mut d = running();
    d.processLine("[info] x: Downloading 2 format(s): 140+251");
    d.processLine("[info] x: Downloading 3 format(s): 251+137++140");
    assert_eq!(
        d.knownLabels(),
        &vec!["140".to_string(), "251".to_string(), "137".to_string()]
    );
}

#[test]
fn playlist_item_resets_rows() {
    let mut d = running();
    d.processLine("[download]  10.0% of 1.00MiB at 1.00MiB/s ETA 00:01");
    assert_eq!(d.progressRows().len(), 1);
    let e = d.processLine("[download] Downloading item 2 of 5");
    assert_eq!(
        e,
        Some(DownloadEvent::Reset(DownloadReset {
            label: String::new(),
            playlistCurrent: 2,
            playlistMax: 5
        }))
    );
    assert!(d.progressRows().is_empty());
    assert!(d.knownLabels().is_empty());
    assert_eq!(d.playlistPosition(), (2, 5));
}

#[test]
fn playlist_count_too_large_keeps_old_value() {
    let mut d = running();
    d.processLine("[download] Downloading item 3 of 7");
    let e = d.processLine("[download] Downloading item 99999999999999999999999 of 8");
    assert_eq!(
        e,
        Some(DownloadEvent::Reset(DownloadReset {
            label: String::new(),
            playlistCurrent: 3,
            playlistMax: 8
        }))
    );
}

#[test]
fn unlabeled_destination_in_playlist_uses_position() {
    let mut d = running();
    d.processLine("[download] Downloading item 3 of 7");
    let e = d.processLine("[download] Destination: C:\\videos\\Clip.webm");
    assert_eq!(e, Some(DownloadEvent::Title(DownloadTitle { title: "Clip".to_string() })));
    assert_eq!(d.currentLabel(), "3");
}

#[test]
fn unlabeled_destination_outside_playlist_has_empty_label() {
    let mut d = running();
    d.processLine("[info] x: Downloading 1 format(s): 22");
    d.processLine("[download] Destination: clip.f140.mp4");
    assert_eq!(d.currentLabel(), "");
}

#[test]
fn title_is_not_reported_twice() {
    let mut d = running();
    d.processLine("[info] x: Downloading 2 format(s): 137+140");
    assert!(d.processLine("[download] Destination: My Title.f137.mp4").is_some());
    assert_eq!(d.processLine("[download] Destination: My Title.f140.m4a"), None);
    assert_eq!(d.currentLabel(), "140");
}

#[test]
fn longest_label_wins() {
    let mut d = running();
    d.processLine("[info] x: Downloading 2 format(s): 0+140");
    d.processLine("[download] Destination: Song.f140.m4a");
    assert_eq!(d.currentLabel(), "140");
}

#[test]
fn subtitle_labels_need_subtitles_enabled() {
    let mut d = running();
    d.processLine("[info] x: Downloading subtitles: en, de");
    assert!(d.knownLabels().is_empty());

    let mut o = options();
    o.writeSubs = true;
    let mut s = VideoDownloader::new("yt-dlp".to_string(), o);
    s.download("v").expect("starts");
    s.processLine("[info] x: Downloading subtitles: en, de");
    assert_eq!(s.knownLabels(), &vec!["en".to_string(), "de".to_string()]);
    let e = s.processLine("[download] Destination: /t/Talk.en.vtt");
    assert_eq!(e, Some(DownloadEvent::Title(DownloadTitle { title: "Talk".to_string() })));
    assert_eq!(s.currentLabel(), "en");
}

#[test]
fn same_progress_line_twice_gives_same_row() {
    let mut d = running();
    let line = "[download]  45.2% of 10.00MiB at 1.50MiB/s ETA 00:07";
    let first = d.processLine(line);
    let rows = d.progressRows().clone();
    let second = d.processLine(line);
    assert!(first.is_some());
    assert_eq!(second, None);
    assert_eq!(d.progressRows(), &rows);
}

#[test]
fn finished_row_never_regresses() {
    let mut d = running();
    d.processLine("[download] 100% of 10.00MiB in 00:03");
    assert_eq!(d.processLine("[download]  12.0% of 10.00MiB at 1.00MiB/s ETA 00:09"), None);
    assert_eq!(d.progressRows()[0].percentComplete, "100%");
    d.processLine("[download] Downloading item 2 of 2");
    assert!(d.progressRows().is_empty());
    assert!(d.processLine("[download]  12.0% of 10.00MiB at 1.00MiB/s ETA 00:09").is_some());
    assert_eq!(d.progressRows()[0].percentComplete, "12.0%");
}

#[test]
fn line_without_percent_or_full_fields_is_not_reported() {
    let mut d = running();
    assert_eq!(d.processLine("[download] Resuming download at byte 1000"), None);
    assert_eq!(d.processLine("[download] 10.00MiB at 1.00MiB/s"), None);
    assert!(d.progressRows().is_empty());
    let e = d.processLine("[download] 10.00MiB at 1.00MiB/s ETA 00:09");
    assert_eq!(
        e,
        Some(DownloadEvent::Progress(progress("", "", "1.00MiB/s", "10.00MiB", "00:09")))
    );
}

#[test]
fn end_to_end_session() {
    let mut d = running();
    let mut events = Vec::new();
    let lines = [
        "[youtube] abc: Downloading webpage",
        "[info] abc: Downloading 2 format(s): 137+140",
        "[download] Destination: /media/My Title.f140.m4a",
        "[download]  10.0% of 3.00MiB at 1.00MiB/s ETA 00:02",
        "[download]  55.0% of 3.00MiB at 1.00MiB/s ETA 00:01",
        "[download] 100% of 3.00MiB in 00:03",
    ];
    for line in lines {
        if let Some(e) = d.processLine(line) {
            events.push(e);
        }
    }
    if let Some(e) = d.streamClosed() {
        events.push(e);
    }
    assert_eq!(events.len(), 5);
    assert_eq!(events[0], DownloadEvent::Title(DownloadTitle { title: "My Title".to_string() }));
    let percents: Vec<String> = events[1..4]
        .iter()
        .map(|e| match e {
            DownloadEvent::Progress(p) => {
                assert_eq!(p.label, "140");
                p.percentComplete.clone()
            }
            other => panic!("unexpected event {:?}", other),
        })
        .collect();
    assert_eq!(percents, vec!["10.0%", "55.0%", "100%"]);
    assert_eq!(
        events[4],
        DownloadEvent::Stopped(DownloadStopped { label: "140".to_string(), completed: true })
    );
    assert_eq!(d.progressRows().len(), 1);
    assert_eq!(d.phase(), DownloadPhase::Stopped);
}

#[test]
fn stream_closed_with_unfinished_row_is_not_completed() {
    let mut d = running();
    d.processLine("[download]  10.0% of 3.00MiB at 1.00MiB/s ETA 00:02");
    assert_eq!(
        d.streamClosed(),
        Some(DownloadEvent::Stopped(DownloadStopped { label: String::new(), completed: false }))
    );
    assert_eq!(d.progressRows()[0].percentComplete, "10.0%");
    assert_eq!(d.streamClosed(), None);
}

#[test]
fn cancel_reports_once_then_nothing() {
    let mut d = running();
    d.processLine("[info] abc: Downloading 1 format(s): 22");
    d.processLine("[download] Destination: Movie.f22.mp4");
    d.processLine("[download]  30.0% of 3.00MiB at 1.00MiB/s ETA 00:02");
    assert_eq!(
        d.cancel(),
        Some(DownloadEvent::Stopped(DownloadStopped { label: "22".to_string(), completed: false }))
    );
    assert_eq!(d.phase(), DownloadPhase::Cancelled);
    assert_eq!(d.processLine("[download]  40.0% of 3.00MiB at 1.00MiB/s ETA 00:01"), None);
    assert_eq!(d.streamClosed(), None);
    assert_eq!(d.cancel(), None);
    assert_eq!(d.progressRows()[0].percentComplete, "30.0%");
}

#[test]
fn already_downloaded_reports_completion() {
    let mut d = running();
    d.processLine("[info] abc: Downloading 1 format(s): 18");
    let e = d.processLine("[download] /v/Old Clip.f18.mp4 has already been downloaded");
    assert_eq!(
        e,
        Some(DownloadEvent::Stopped(DownloadStopped { label: "18".to_string(), completed: true }))
    );
    assert_eq!(d.progressRows()[0].percentComplete, "100%");
    assert_eq!(
        d.streamClosed(),
        Some(DownloadEvent::Stopped(DownloadStopped { label: "18".to_string(), completed: true }))
    );
}

#[test]
fn lines_before_a_run_are_ignored() {
    let mut d = VideoDownloader::new("yt-dlp".to_string(), options());
    assert_eq!(d.phase(), DownloadPhase::Idle);
    assert_eq!(d.processLine("[download]  45.2% of 10.00MiB"), None);
    assert_eq!(d.streamClosed(), None);
    assert_eq!(d.cancel(), None);
}

#[test]
fn download_builds_the_command_line() {
    let mut d = VideoDownloader::new("yt-dlp".to_string(), options());
    let args = d.download("https://example.com/watch?v=1").expect("starts");
    assert_eq!(args[0], "--newline");
    assert_eq!(args[args.len() - 1], "https://example.com/watch?v=1");
    assert_eq!(args[1..args.len() - 1].to_vec(), options().generateArgumentList());
    assert_eq!(d.phase(), DownloadPhase::Running);
}

#[test]
fn download_refuses_empty_video() {
    let mut d = VideoDownloader::new("yt-dlp".to_string(), options());
    assert_eq!(d.download(""), Err(DownloadError::EmptyVideo));
    assert_eq!(d.phase(), DownloadPhase::Idle);
}

#[test]
fn download_refuses_second_run() {
    let mut d = running();
    assert_eq!(d.download("other"), Err(DownloadError::AlreadyRunning));
}

#[test]
fn resume_keeps_labels_and_clears_current_label() {
    let mut d = running();
    d.processLine("[info] abc: Downloading 1 format(s): 22");
    d.processLine("[download] Destination: Movie.f22.mp4");
    d.processLine("[download]  30.0% of 3.00MiB at 1.00MiB/s ETA 00:02");
    d.cancel();
    d.download("https://example.com/v").expect("restarts");
    assert_eq!(d.currentLabel(), "");
    assert_eq!(d.knownLabels(), &vec!["22".to_string()]);
    assert_eq!(d.progressRows().len(), 1);
}

#[test]
fn title_is_not_repeated_after_playlist_item() {
    let mut d = running();
    d.processLine("[download] Downloading item 1 of 2");
    assert!(d.processLine("[download] Destination: Same.mp4").is_some());
    d.processLine("[download] Downloading item 2 of 2");
    assert_eq!(d.processLine("[download] Destination: Same.mp4"), None);
    assert!(d.processLine("[download] Destination: Other.mp4").is_some());
}

#[test]
fn plain_suffix_label_matches() {
    let mut d = running();
    d.processLine("[info] x: Downloading 2 format(s): 140+V140");
    let e = d.processLine("[download] Destination: AV140.mp4");
    assert_eq!(e, Some(DownloadEvent::Title(DownloadTitle { title: "AV140".to_string() })));
    assert_eq!(d.currentLabel(), "V140");
}

#[test]
fn event_messages() {
    let p = DownloadEvent::Progress(progress("140", "5%", "1MiB/s", "2MiB", "00:01"));
    assert_eq!(p.message(), "Progress 140: 5% 1MiB/s 2MiB 00:01 ");
    let r = DownloadEvent::Reset(DownloadReset { label: "a".to_string(), playlistCurrent: 2, playlistMax: 15 });
    assert_eq!(r.message(), "Resetting download progress for part 2 of 15 - 'a'");
    let s = DownloadEvent::Stopped(DownloadStopped { label: "b".to_string(), completed: false });
    assert_eq!(s.message(), "Download has stopped: 'b'");
    let c = DownloadEvent::Stopped(DownloadStopped { label: "b".to_string(), completed: true });
    assert_eq!(c.message(), "Download has completed: 'b'");
    let t = DownloadEvent::Title(DownloadTitle { title: "T".to_string() });
    assert_eq!(t.message(), "Title: T");
}

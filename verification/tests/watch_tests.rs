use ai_vid_editor::config::WatchFolder;
use ai_vid_editor::watch::{
    clock_time, complete_notice, enabled_folders, error_notice, failed_file_notice, files_of_kind,
    has_enabled_folder, log_filter, output_file_name, pick_music, processed_file_notice,
    processing_notice, FileKind, WatchTracker,
};

fn entry(path: &str, ext: Option<&str>) -> (String, Option<String>) {
    (path.to_string(), ext.map(|e| e.to_string()))
}

#[test]
fn tracker_remembers_handled_files() {
    let mut t = WatchTracker::new();
    assert_eq!(t.processed_count(), 0);
    assert!(t.should_process("in/a.mp4", Some("mp4")));
    t.mark_processed("in/a.mp4");
    assert!(t.is_processed("in/a.mp4"));
    assert!(!t.should_process("in/a.mp4", Some("mp4")));
    // recording twice keeps one entry
    t.mark_processed("in/a.mp4");
    assert_eq!(t.processed_count(), 1);
    assert!(t.should_process("in/b.MKV", Some("MKV")));
    assert!(!t.should_process("in/c.txt", Some("txt")));
    assert!(!t.should_process("in/noext", None));
}

#[test]
fn tracker_skips_videos_present_at_start() {
    let mut t = WatchTracker::new();
    let entries = vec![
        entry("d/a.mp4", Some("mp4")),
        entry("d/b.WebM", Some("WebM")),
        entry("d/c.txt", Some("txt")),
        entry("d/d", None),
    ];
    t.skip_existing(&entries);
    assert_eq!(t.processed_count(), 2);
    assert!(t.is_processed("d/a.mp4"));
    assert!(t.is_processed("d/b.WebM"));
    assert!(!t.is_processed("d/c.txt"));
}

#[test]
fn heartbeat_every_sixth_poll() {
    let mut t = WatchTracker::new();
    let due: Vec<bool> = (0..12).map(|_| t.tick()).collect();
    assert_eq!(
        due,
        vec![false, false, false, false, false, true, false, false, false, false, false, true]
    );
    assert!(t.can_tick());
}

#[test]
fn file_kinds() {
    for e in ["mp4", "MOV", "avi", "mkv", "webm"] {
        assert!(FileKind::WatchedVideo.matches(Some(e)));
    }
    for e in ["mp4", "mov", "AVI"] {
        assert!(FileKind::BatchVideo.matches(Some(e)));
    }
    assert!(!FileKind::BatchVideo.matches(Some("mkv")));
    for e in ["mp3", "WAV", "m4a", "aac", "ogg", "flac"] {
        assert!(FileKind::Music.matches(Some(e)));
    }
    assert!(!FileKind::Music.matches(Some("mp4")));
    assert!(!FileKind::Music.matches(None));
    assert!(FileKind::Music.has_lowercase_extension("flac"));
    assert!(!FileKind::Music.has_lowercase_extension("FLAC"));
    let entries = vec![
        entry("x/1.mp4", Some("mp4")),
        entry("x/2.mkv", Some("mkv")),
        entry("x/3.MOV", Some("MOV")),
        entry("x/4.mp3", Some("mp3")),
    ];
    assert_eq!(files_of_kind(FileKind::BatchVideo, &entries), vec!["x/1.mp4", "x/3.MOV"]);
    assert_eq!(files_of_kind(FileKind::Music, &entries), vec!["x/4.mp3"]);
}

#[test]
fn music_pick_comes_from_music_files() {
    let entries = vec![
        entry("m/a.mp3", Some("mp3")),
        entry("m/b.txt", Some("txt")),
        entry("m/c.FLAC", Some("FLAC")),
    ];
    for _ in 0..20 {
        let p = pick_music(&entries).expect("there is music");
        assert!(p == "m/a.mp3" || p == "m/c.FLAC");
    }
    let none = vec![entry("m/b.txt", Some("txt"))];
    assert_eq!(pick_music(&none), None);
    assert_eq!(pick_music(&Vec::new()), None);
}

#[test]
fn clock_and_log_level() {
    assert_eq!(clock_time(0), "00:00:00");
    assert_eq!(clock_time(3661), "01:01:01");
    assert_eq!(clock_time(86399), "23:59:59");
    assert_eq!(clock_time(86400 + 45), "00:00:45");
    assert_eq!(log_filter(0, false), "warn");
    assert_eq!(log_filter(1, false), "info");
    assert_eq!(log_filter(2, false), "debug");
    assert_eq!(log_filter(3, false), "trace");
    assert_eq!(log_filter(200, false), "trace");
    assert_eq!(log_filter(2, true), "error");
}

#[test]
fn enabled_folder_positions() {
    let mut a = WatchFolder::default();
    a.enabled = false;
    let b = WatchFolder::default();
    let folders = vec![a.clone(), b.clone(), a.clone(), b.clone()];
    assert_eq!(enabled_folders(&folders), vec![1, 3]);
    assert!(has_enabled_folder(&folders));
    assert!(!has_enabled_folder(&vec![a.clone()]));
    assert!(enabled_folders(&Vec::new()).is_empty());
}

#[test]
fn notices() {
    let n = processing_notice("/v/in.mp4");
    assert_eq!((n.summary.as_str(), n.body.as_str()), ("Processing Started", "/v/in.mp4"));
    let n = complete_notice("/v/in.mp4", "/o/in.mp4");
    assert_eq!((n.summary.as_str(), n.body.as_str()), ("Processing Complete", "/v/in.mp4\n→ /o/in.mp4"));
    let n = error_notice("/v/in.mp4", "boom");
    assert_eq!((n.summary.as_str(), n.body.as_str()), ("Processing Error", "/v/in.mp4\nError: boom"));
    let n = processed_file_notice("in.mp4");
    assert_eq!(n.body, "in.mp4 has been processed");
    let n = failed_file_notice("in.mp4", "boom");
    assert_eq!((n.summary.as_str(), n.body.as_str()), ("Processing Error", "Failed to process in.mp4: boom"));
    assert_eq!(output_file_name(Some("clip.mov")), "clip.mov");
    assert_eq!(output_file_name(None), "output.mp4");
}

use ai_vid_editor::export::{
    chapter_title, chapter_title_cuttable, clip_name, export_edl, export_fcpxml, export_srt,
    export_youtube_chapters, format_srt_time, format_youtube_time, ChapterGroup, ClipTiming,
    ClockTime, SrtCue, SrtTime,
};

fn srt(h: u32, m: u32, s: u32, ms: u32) -> SrtTime {
    SrtTime { hours: h, minutes: m, seconds: s, millis: ms }
}

fn clock(h: u32, m: u32, s: u32) -> ClockTime {
    ClockTime { hours: h, minutes: m, seconds: s }
}

#[test]
fn test_export_srt() {
    let transcript = vec![
        SrtCue { start: srt(0, 0, 0, 0), end: srt(0, 0, 5, 0), text: "Hello world".to_string() },
        SrtCue { start: srt(0, 0, 5, 0), end: srt(0, 0, 10, 0), text: "This is a test".to_string() },
    ];

    let content = export_srt(&transcript);
    assert!(content.contains("1\n"));
    assert!(content.contains("Hello world"));
    assert!(content.contains("2\n"));
    assert!(content.contains("This is a test"));
    assert!(content.contains("00:00:00,000 --> 00:00:05,000"));
}

#[test]
fn test_export_youtube_chapters() {
    let transcript = vec![ChapterGroup {
        start: clock(0, 1, 5),
        texts: vec!["New Topic: AI features".to_string()],
    }];

    let content = export_youtube_chapters(&transcript);
    assert!(content.contains("00:00 Intro"));
    assert!(content.contains("01:05 New Topic: AI features"));
}

#[test]
fn srt_document_exactly() {
    let cues = vec![
        SrtCue { start: srt(0, 0, 1, 250), end: srt(0, 0, 2, 5), text: "  padded  ".to_string() },
        SrtCue { start: srt(1, 2, 3, 4), end: srt(10, 59, 59, 999), text: "two\nlines".to_string() },
    ];
    assert_eq!(
        export_srt(&cues),
        "1\n00:00:01,250 --> 00:00:02,005\npadded\n\n2\n01:02:03,004 --> 10:59:59,999\ntwo\nlines\n\n"
    );
    assert_eq!(export_srt(&Vec::new()), "");
}

#[test]
fn time_formats() {
    assert_eq!(format_srt_time(srt(0, 0, 0, 0)), "00:00:00,000");
    assert_eq!(format_srt_time(srt(123, 4, 5, 6)), "123:04:05,006");
    assert_eq!(format_youtube_time(clock(0, 0, 0)), "00:00");
    assert_eq!(format_youtube_time(clock(0, 59, 9)), "59:09");
    assert_eq!(format_youtube_time(clock(2, 3, 4)), "02:03:04");
}

#[test]
fn chapter_lines_and_titles() {
    let groups = vec![
        ChapterGroup { start: clock(0, 0, 0), texts: vec!["[No speech detected]".to_string(), "  ".to_string()] },
        ChapterGroup {
            start: clock(0, 3, 10),
            texts: vec![" First part ".to_string(), "[No speech detected]".to_string(), "more\r\ntext".to_string()],
        },
        ChapterGroup {
            start: clock(1, 0, 0),
            texts: vec!["A very long chapter text that certainly goes well beyond fifty bytes".to_string()],
        },
    ];
    assert_eq!(
        export_youtube_chapters(&groups),
        "00:00 Intro\n03:10 First part more text\n01:00:00 A very long chapter text that certainly goes well \n"
    );
    assert_eq!(export_youtube_chapters(&Vec::new()), "00:00 Intro\n");
    let long = vec!["A very long chapter text that certainly goes well beyond fifty bytes".to_string()];
    assert!(chapter_title_cuttable(&long));
    assert_eq!(chapter_title(&long), "A very long chapter text that certainly goes well ");
    // a title whose 50th byte falls inside a character cannot be cut there
    let wide = vec!["é".repeat(30)];
    assert!(!chapter_title_cuttable(&vec![format!("a{}", "é".repeat(30))]));
    assert!(chapter_title_cuttable(&wide));
    assert_eq!(chapter_title(&wide), "é".repeat(25));
}

#[test]
fn edl_document() {
    assert_eq!(
        export_edl("clip.mp4", 2),
        "TITLE: Edited Timeline\nFCM: NON-DROP FRAME\n\n\
         001  AX       V     C        00:00:00:00 00:00:00:00\n* FROM CLIP NAME: clip.mp4\n\n\
         002  AX       V     C        00:00:00:00 00:00:00:00\n* FROM CLIP NAME: clip.mp4\n\n"
    );
    assert_eq!(export_edl("x", 0), "TITLE: Edited Timeline\nFCM: NON-DROP FRAME\n\n");
    assert_eq!(clip_name(Some("talk.mov")), "talk.mov");
    assert_eq!(clip_name(None), "video.mp4");
}

#[test]
fn fcpxml_document() {
    let clips = vec![ClipTiming {
        offset: "0".to_string(),
        start: "1.5".to_string(),
        duration: "2".to_string(),
    }];
    let doc = export_fcpxml("v.mp4", "/media/v.mp4", &clips);
    let want = [
        "<?xml version=\"1.0\" encoding=\"UTF-8\"?>",
        "<!DOCTYPE fcpxml>",
        "<fcpxml version=\"1.8\">",
        "  <resources>",
        "    <asset id=\"r1\" name=\"v.mp4\" src=\"file:///media/v.mp4\" />",
        "  </resources>",
        "  <library>",
        "    <event name=\"Automated Cuts\">",
        "      <project name=\"Edited Timeline\">",
        "        <sequence duration=\"3600/1s\" format=\"r1\">",
        "          <spine>",
        "            <video name=\"v.mp4\" offset=\"0s\" ref=\"r1\" start=\"1.5s\" duration=\"2s\" role=\"video\" />",
        "          </spine>",
        "        </sequence>",
        "      </project>",
        "    </event>",
        "  </library>",
        "</fcpxml>",
        "",
    ]
    .join("\n");
    assert_eq!(doc, want);
}

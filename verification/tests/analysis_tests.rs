use ai_vid_editor::commands::{CandleSttAnalyzer, FfmpegAnalyzer, FfmpegDurationGetter};
use ai_vid_editor::order::str_le;
use ai_vid_editor::silence::parse_ffmpeg_silence;
use ai_vid_editor::text::{
    chars_of, decimal_string, float_literal, split_lines, str_eq, string_of, trimmed,
};

#[test]
fn test_parse_silence_output() {
    let output = r#"[silencedetect @ 0x559e1c2c4840] silence_start: 1.234
[silencedetect @ 0x559e1c2c4840] silence_end: 4.567 | silence_duration: 3.333
[silencedetect @ 0x559e1c2c4840] silence_start: 10.0
[silencedetect @ 0x559e1c2c4840] silence_end: 12.5 | silence_duration: 2.5"#;

    let segments = parse_ffmpeg_silence(output);
    assert_eq!(segments.len(), 2);
    let as_numbers = |i: usize| {
        (
            segments[i].start.parse::<f32>().unwrap(),
            segments[i].end.parse::<f32>().unwrap(),
        )
    };
    assert_eq!(as_numbers(0), (1.234, 4.567));
    assert_eq!(as_numbers(1), (10.0, 12.5));
}

#[test]
fn test_transcription_structure() {
    let _analyzer = CandleSttAnalyzer;
}

#[test]
fn silence_report_edge_cases() {
    // an end without a start is ignored; a start that is not a number is ignored
    let out = "silence_end: 3.0 | silence_duration: 1\nsilence_start: abc\nsilence_end: 4\n";
    assert!(parse_ffmpeg_silence(out).is_empty());
    // an end without a duration part, CRLF line ends, a second start replaces the first
    let out = "x silence_start: 1\r\nx silence_start: 2.5\r\nx silence_end:  7.25 \r\n";
    let s = parse_ffmpeg_silence(out);
    assert_eq!(s.len(), 1);
    assert_eq!((s[0].start.as_str(), s[0].end.as_str()), ("2.5", "7.25"));
    // an end that is not a number drops the open interval
    let out = "silence_start: 1\nsilence_end: nan? | x\nsilence_end: 2\n";
    assert!(parse_ffmpeg_silence(out).is_empty());
    // exponents, signs, inf and nan are numbers for the parser as for str::parse
    let out = "silence_start: -1e-3\nsilence_end: +inf\nsilence_start: NaN\nsilence_end: 1E2|";
    let s = parse_ffmpeg_silence(out);
    assert_eq!(s.len(), 2);
    assert_eq!(s[0].start, "-1e-3");
    assert_eq!(s[0].end, "+inf");
    assert_eq!(s[1].start, "NaN");
    assert_eq!(s[1].end, "1E2");
    assert!(parse_ffmpeg_silence("").is_empty());
}

#[test]
fn float_literal_agrees_with_std_parse() {
    let samples = [
        "0", "1", "-1", "+1", "1.", ".5", "-.5", "1.5e3", "1.5E-3", "1e", "e5", ".", "", "-", "+",
        "inf", "-inf", "+Infinity", "infinity", "INF", "nan", "NaN", "-nan", "1.2.3", "1_000",
        " 1", "1 ", "0x10", "1e+5", "1e+", "12.34.", "--1", "in", "infin", "3.", "00.000e00",
        "١", "1f", "1.0e-0", "99999999999999999999999999999999999999999999",
    ];
    for s in samples {
        assert_eq!(float_literal(s), s.parse::<f32>().is_ok(), "sample {s:?}");
    }
}

#[test]
fn trimmed_agrees_with_std_trim() {
    let samples = [
        "", "  ", " a ", "\t\nx y\r\n", "\u{3000}wide\u{2003}", "\u{85}next\u{a0}", "plain",
        "\u{200b}zero width\u{200b}",
    ];
    for s in samples {
        assert_eq!(trimmed(s), s.trim(), "sample {s:?}");
    }
}

#[test]
fn split_lines_agrees_with_std_lines() {
    let samples = ["", "a", "a\n", "a\nb", "a\r\nb\r\n", "\n\n", "x\ry\n", "a\r", "\r\n"];
    for s in samples {
        let v = chars_of(s);
        let got: Vec<String> = split_lines(&v).iter().map(|l| l.iter().collect()).collect();
        let want: Vec<String> = s.lines().map(|l| l.to_string()).collect();
        assert_eq!(got, want, "sample {s:?}");
    }
}

#[test]
fn text_helpers() {
    assert_eq!(decimal_string(0), "0");
    assert_eq!(decimal_string(1234567890123), "1234567890123");
    assert_eq!(decimal_string(u64::MAX), u64::MAX.to_string());
    assert!(str_eq("abc", "abc"));
    assert!(!str_eq("abc", "abd"));
    assert!(!str_eq("ab", "abc"));
    assert_eq!(string_of(&chars_of("héllo")), "héllo");
}

#[test]
fn string_order_agrees_with_std() {
    let words = ["", "a", "b", "ab", "abc", "B", "é", "e", "z", "zz", "Ω", "ω"];
    for a in words {
        for b in words {
            assert_eq!(str_le(a, b), a <= b, "{a:?} <= {b:?}");
        }
    }
}

#[test]
fn analyzer_and_probe_arguments() {
    let args = FfmpegAnalyzer.silence_detect_args("in.mp4", "-30", "0.5");
    assert_eq!(
        args,
        vec!["-i", "in.mp4", "-af", "silencedetect=noise=-30dB:d=0.5", "-f", "null", "-"]
    );
    let args = FfmpegDurationGetter.probe_args("clip.mov");
    assert_eq!(
        args,
        vec![
            "-v",
            "error",
            "-show_entries",
            "format=duration",
            "-of",
            "default=noprint_wrappers=1:nokey=1",
            "clip.mov"
        ]
    );
}

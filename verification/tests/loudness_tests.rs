use ai_vid_editor::commands::FfmpegEditor;
use ai_vid_editor::loudness::{parse_loudness_report, LoudnessReport};

const REPORT: &str = "size=N/A time=00:00:10.00 bitrate=N/A speed= 300x\n\
[Parsed_loudnorm_3 @ 0x55d0c8a4a300] \n\
{\n\
\t\"input_i\" : \"-27.61\",\n\
\t\"input_tp\" : \"-4.47\",\n\
\t\"input_lra\" : \"18.06\",\n\
\t\"input_thresh\" : \"-39.20\",\n\
\t\"output_i\" : \"-16.58\",\n\
\t\"output_tp\" : \"-1.00\",\n\
\t\"output_lra\" : \"14.78\",\n\
\t\"output_thresh\" : \"-27.71\",\n\
\t\"normalization_type\" : \"dynamic\",\n\
\t\"target_offset\" : \"0.58\"\n\
}\n";

#[test]
fn reads_the_measurements() {
    let r = parse_loudness_report(REPORT).expect("complete report");
    assert_eq!(r.input_i, "-27.61");
    assert_eq!(r.input_tp, "-4.47");
    assert_eq!(r.input_lra, "18.06");
    assert_eq!(r.input_thresh, "-39.20");
    assert_eq!(r.target_offset, "0.58");
}

#[test]
fn incomplete_or_odd_reports_are_refused() {
    assert!(parse_loudness_report("").is_none());
    let without_offset = REPORT.replace("target_offset", "target_offs");
    assert!(parse_loudness_report(&without_offset).is_none());
    let not_a_number = REPORT.replace("\"-4.47\"", "\"loud\"");
    assert!(parse_loudness_report(&not_a_number).is_none());
    let unterminated = "\"input_i\" : \"-1";
    assert!(parse_loudness_report(unterminated).is_none());
    // silence measures as minus infinity, which is still a number
    let silent = REPORT.replace("\"-27.61\"", "\"-inf\"");
    assert_eq!(parse_loudness_report(&silent).map(|r| r.input_i), Some("-inf".to_string()));
}

#[test]
fn two_pass_arguments() {
    let e = FfmpegEditor;
    assert_eq!(
        e.loudness_measure_args("in.mp4", "-14"),
        vec![
            "-i",
            "in.mp4",
            "-af",
            "highpass=f=80,lowpass=f=12000,equalizer=f=1500:t=o:w=2:g=1.5,loudnorm=I=-14:TP=-1:LRA=11:print_format=json",
            "-f",
            "null",
            "-"
        ]
    );
    let rep = LoudnessReport {
        input_i: "-27.61".to_string(),
        input_tp: "-4.47".to_string(),
        input_lra: "18.06".to_string(),
        input_thresh: "-39.20".to_string(),
        target_offset: "0.58".to_string(),
    };
    assert_eq!(
        e.loudness_apply_args("in.mp4", "-16", &rep, "out.mp4"),
        vec![
            "-i",
            "in.mp4",
            "-af",
            "highpass=f=80,lowpass=f=12000,equalizer=f=1500:t=o:w=2:g=1.5,loudnorm=I=-16:TP=-1:LRA=11:\
             measured_I=-27.61:measured_TP=-4.47:measured_LRA=18.06:measured_thresh=-39.20:offset=0.58:linear=true",
            "-c:v",
            "copy",
            "-y",
            "out.mp4"
        ]
    );
}

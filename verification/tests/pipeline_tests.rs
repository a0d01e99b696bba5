use ai_vid_editor::config::{Config, ExportConfig};
use ai_vid_editor::export::{
    export_edl, export_fcpxml, ChapterGroup, ClipTiming, ClockTime, SrtCue, SrtTime,
};
use ai_vid_editor::pipeline::{
    plan_exports, plan_intro_outro, plan_pipeline, BatchTally, ExportKind, FileRef, JoinPlan,
    SideFileSources, Stage, Step,
};

use FileRef::{Output, Scratch, Source};
use Step::{DiscardUnlessOutput, PublishUnlessOutput, Run};

/// Follows a plan on names: the file holding the latest version, and the scratch
/// files that were written and are still around.
fn simulate(plan: &[Step]) -> (FileRef, Vec<FileRef>) {
    let mut cur = Source;
    let mut scratch: Vec<FileRef> = Vec::new();
    for s in plan {
        match *s {
            Run(_, input, output) => {
                assert_eq!(input, cur, "each stage reads the latest version");
                if output != Output {
                    scratch.push(output);
                }
                cur = output;
            }
            DiscardUnlessOutput(f) => {
                assert_ne!(f, cur);
                scratch.retain(|x| *x != f);
            }
            PublishUnlessOutput(f) => {
                assert_eq!(f, cur);
                scratch.retain(|x| *x != f);
                cur = Output;
            }
        }
    }
    (cur, scratch)
}

#[test]
fn plain_trim_writes_straight_to_output() {
    let mut c = Config::default();
    c.audio.enhance = false;
    let plan = plan_pipeline(&c, false, false);
    assert_eq!(plan, vec![Run(Stage::Trim, Source, Output)]);
}

#[test]
fn full_pipeline_order_and_cleanup() {
    let mut c = Config::default();
    c.audio.noise_reduction = true;
    c.audio.music_file = Some("m.mp3".to_string());
    c.video.stabilize = true;
    c.video.blur_background = true;
    let plan = plan_pipeline(&c, true, false);
    assert_eq!(
        plan,
        vec![
            Run(Stage::Trim, Source, Scratch(Stage::Trim)),
            Run(Stage::ReduceNoise, Scratch(Stage::Trim), Scratch(Stage::ReduceNoise)),
            DiscardUnlessOutput(Scratch(Stage::Trim)),
            Run(Stage::EnhanceAudio, Scratch(Stage::ReduceNoise), Scratch(Stage::EnhanceAudio)),
            DiscardUnlessOutput(Scratch(Stage::ReduceNoise)),
            Run(Stage::MixMusic, Scratch(Stage::EnhanceAudio), Scratch(Stage::MixMusic)),
            DiscardUnlessOutput(Scratch(Stage::EnhanceAudio)),
            Run(Stage::AddIntroOutro, Scratch(Stage::MixMusic), Output),
            DiscardUnlessOutput(Scratch(Stage::MixMusic)),
            Run(Stage::Stabilize, Output, Scratch(Stage::Stabilize)),
            Run(Stage::BlurBackground, Scratch(Stage::Stabilize), Scratch(Stage::BlurBackground)),
            DiscardUnlessOutput(Scratch(Stage::Stabilize)),
            PublishUnlessOutput(Scratch(Stage::BlurBackground)),
        ]
    );
    assert_eq!(simulate(&plan), (Output, vec![]));
}

#[test]
fn every_combination_ends_in_output_without_leftovers() {
    for bits in 0u32..512 {
        let mut c = Config::default();
        c.audio.noise_reduction = bits & 1 != 0;
        c.audio.enhance = bits & 2 != 0;
        c.audio.music_file = if bits & 4 != 0 { Some("m".to_string()) } else { None };
        c.video.stabilize = bits & 8 != 0;
        c.video.color_correct = bits & 16 != 0;
        c.video.reframe = bits & 32 != 0;
        c.video.blur_background = bits & 64 != 0;
        let plan = plan_pipeline(&c, bits & 128 != 0, bits & 256 != 0);
        assert_eq!(simulate(&plan), (Output, vec![]), "flags {bits:b}");
    }
}

#[test]
fn stage_extensions_and_labels() {
    assert_eq!(Stage::Trim.scratch_extension(), Some("trimmed.mp4"));
    assert_eq!(Stage::ReduceNoise.scratch_extension(), Some("denoised.mp4"));
    assert_eq!(Stage::EnhanceAudio.scratch_extension(), Some("enhanced.mp4"));
    assert_eq!(Stage::MixMusic.scratch_extension(), Some("music.mp4"));
    assert_eq!(Stage::AddIntroOutro.scratch_extension(), None);
    assert_eq!(Stage::Stabilize.scratch_extension(), Some("stabilized.mp4"));
    assert_eq!(Stage::ColorCorrect.scratch_extension(), Some("corrected.mp4"));
    assert_eq!(Stage::Reframe.scratch_extension(), Some("reframed.mp4"));
    assert_eq!(Stage::BlurBackground.scratch_extension(), Some("blurred.mp4"));
    assert_eq!(Stage::Trim.label(), "Trimming video");
    assert_eq!(Stage::AddIntroOutro.label(), "Adding intro/outro");
    assert_eq!(Stage::Reframe.label(), "Auto-reframing");
}

#[test]
fn intro_outro_join() {
    assert!(matches!(plan_intro_outro(None, "main.mp4", None, "out.mp4"), JoinPlan::CopyMain));
    match plan_intro_outro(Some("in.mp4"), "main.mp4", Some("end.mp4"), "out.mp4") {
        JoinPlan::Concat(args) => assert_eq!(
            args,
            vec![
                "-i",
                "in.mp4",
                "-i",
                "main.mp4",
                "-i",
                "end.mp4",
                "-filter_complex",
                "[0:v][0:a][1:v][1:a][2:v][2:a]concat=n=3:v=1:a=1[outv][outa]",
                "-map",
                "[outv]",
                "-map",
                "[outa]",
                "-y",
                "out.mp4"
            ]
        ),
        JoinPlan::CopyMain => panic!("expected a join"),
    }
    match plan_intro_outro(None, "main.mp4", Some("end.mp4"), "o") {
        JoinPlan::Concat(args) => {
            assert_eq!(&args[..4], &["-i", "main.mp4", "-i", "end.mp4"]);
            assert_eq!(args[5], "[0:v][0:a][1:v][1:a]concat=n=2:v=1:a=1[outv][outa]");
        }
        JoinPlan::CopyMain => panic!("expected a join"),
    }
}

#[test]
fn exports_in_order_with_paths() {
    let mut e = ExportConfig::default();
    assert!(plan_exports(&e).is_empty());
    e.edl = true;
    e.subtitles = true;
    e.fcpxml = true;
    e.chapters = true;
    let kinds = plan_exports(&e);
    assert_eq!(
        kinds,
        vec![ExportKind::Subtitles, ExportKind::Chapters, ExportKind::Fcpxml, ExportKind::Edl]
    );
    assert_eq!(ExportKind::Subtitles.path_for("out/v"), "out/v.srt");
    assert_eq!(ExportKind::Chapters.path_for("out/v"), "out/v.chapters.txt");
    assert_eq!(ExportKind::Fcpxml.path_for("out/v"), "out/v.fcpxml");
    assert_eq!(ExportKind::Edl.path_for("out/v"), "out/v.edl");
}

#[test]
fn batch_tally_counts_outcomes() {
    let mut t = BatchTally::new(3);
    t.record(true);
    t.record(false);
    t.record(true);
    assert_eq!(t, BatchTally { total: 3, successful: 2, failed: 1 });
}

#[test]
fn side_files_hold_the_documents() {
    let t = |s: u32| SrtTime { hours: 0, minutes: 0, seconds: s, millis: 0 };
    let sources = SideFileSources {
        clip: "talk.mp4".to_string(),
        source: "/v/talk.mp4".to_string(),
        cues: vec![SrtCue { start: t(0), end: t(5), text: "Hello world".to_string() }],
        chapters: vec![ChapterGroup {
            start: ClockTime { hours: 0, minutes: 1, seconds: 5 },
            texts: vec!["New Topic: AI features".to_string()],
        }],
        timings: vec![ClipTiming {
            offset: "0".to_string(),
            start: "1".to_string(),
            duration: "2".to_string(),
        }],
    };
    assert_eq!(
        ExportKind::Subtitles.contents(&sources),
        "1\n00:00:00,000 --> 00:00:05,000\nHello world\n\n"
    );
    assert_eq!(
        ExportKind::Chapters.contents(&sources),
        "00:00 Intro\n01:05 New Topic: AI features\n"
    );
    assert_eq!(
        ExportKind::Fcpxml.contents(&sources),
        export_fcpxml("talk.mp4", "/v/talk.mp4", &sources.timings)
    );
    assert_eq!(ExportKind::Edl.contents(&sources), export_edl("talk.mp4", 1));
}

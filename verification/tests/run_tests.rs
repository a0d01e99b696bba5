use ai_vid_editor::config::Config;
use ai_vid_editor::run::{
    apply_switches, music_source, plan_run, startup_action, FeatureSwitches, MusicSource,
    RunError, RunPlan, RunRequest, StartupAction, StartupFlags,
};

fn flags() -> StartupFlags {
    StartupFlags {
        input_file: false,
        input_dir: false,
        watch: false,
        generate_config: false,
        dry_run: false,
        folders_enabled: false,
    }
}

fn request() -> RunRequest {
    RunRequest {
        dry_run: false,
        cli_input: None,
        watch_flag: None,
        watch_enabled: false,
        folders_enabled: false,
        input_file: None,
        input_dir: None,
        output_file: None,
        output_dir: None,
    }
}

fn s(x: &str) -> Option<String> {
    Some(x.to_string())
}

#[test]
fn startup_decisions() {
    assert_eq!(startup_action(flags()), StartupAction::ShowHelp);
    assert_eq!(
        startup_action(StartupFlags { generate_config: true, ..flags() }),
        StartupAction::GenerateConfig
    );
    assert_eq!(
        startup_action(StartupFlags { generate_config: true, input_file: true, ..flags() }),
        StartupAction::GenerateConfig
    );
    assert_eq!(startup_action(StartupFlags { folders_enabled: true, ..flags() }), StartupAction::Proceed);
    assert_eq!(startup_action(StartupFlags { dry_run: true, ..flags() }), StartupAction::Proceed);
}

#[test]
fn run_plans() {
    match plan_run(RunRequest { input_file: s("a.mp4"), output_file: s("b.mp4"), ..request() }) {
        RunPlan::ProcessFile { input, output } => assert_eq!((input.as_str(), output.as_str()), ("a.mp4", "b.mp4")),
        other => panic!("{other:?}"),
    }
    assert!(matches!(
        plan_run(RunRequest { input_file: s("a.mp4"), ..request() }),
        RunPlan::Refuse(RunError::OutputFile)
    ));
    match plan_run(RunRequest { input_dir: s("in"), output_dir: s("out"), ..request() }) {
        RunPlan::ProcessDir { input, output } => assert_eq!((input.as_str(), output.as_str()), ("in", "out")),
        other => panic!("{other:?}"),
    }
    assert!(matches!(
        plan_run(RunRequest { input_dir: s("in"), ..request() }),
        RunPlan::Refuse(RunError::OutputDirectory)
    ));
    assert!(matches!(plan_run(request()), RunPlan::Refuse(RunError::Input)));
    // a dry run needs an input named on the command line
    assert!(matches!(
        plan_run(RunRequest { dry_run: true, input_file: s("cfg.mp4"), ..request() }),
        RunPlan::Refuse(RunError::DryRunInput)
    ));
    match plan_run(RunRequest { dry_run: true, cli_input: s("x.mp4"), watch_enabled: true, ..request() }) {
        RunPlan::DryRun(i) => assert_eq!(i, "x.mp4"),
        other => panic!("{other:?}"),
    }
}

#[test]
fn watch_plans() {
    match plan_run(RunRequest { watch_flag: s("w"), output_dir: s("o"), folders_enabled: true, ..request() }) {
        RunPlan::WatchDir { dir, output } => assert_eq!((dir.as_str(), output.as_str()), ("w", "o")),
        other => panic!("{other:?}"),
    }
    assert!(matches!(
        plan_run(RunRequest { watch_flag: s("w"), ..request() }),
        RunPlan::Refuse(RunError::WatchOutput)
    ));
    assert!(matches!(
        plan_run(RunRequest { folders_enabled: true, input_file: s("f"), output_file: s("g"), ..request() }),
        RunPlan::WatchFolders
    ));
    match plan_run(RunRequest { watch_enabled: true, input_dir: s("in"), output_dir: s("o"), ..request() }) {
        RunPlan::WatchDir { dir, output } => assert_eq!((dir.as_str(), output.as_str()), ("in", "o")),
        other => panic!("{other:?}"),
    }
    assert!(matches!(
        plan_run(RunRequest { watch_enabled: true, output_dir: s("o"), ..request() }),
        RunPlan::Refuse(RunError::WatchDirectory)
    ));
    assert!(matches!(
        plan_run(RunRequest { watch_enabled: true, input_dir: s("in"), ..request() }),
        RunPlan::Refuse(RunError::WatchOutput)
    ));
}

#[test]
fn error_messages() {
    assert_eq!(RunError::DryRunInput.message(), "Input file or directory required");
    assert_eq!(
        RunError::WatchDirectory.message(),
        "Watch directory required (set input_dir in config or use --watch)"
    );
    assert_eq!(RunError::WatchOutput.message(), "Output directory required for watch mode");
    assert_eq!(RunError::OutputFile.message(), "Output file must be specified");
    assert_eq!(RunError::OutputDirectory.message(), "Output directory must be specified");
    assert_eq!(
        RunError::Input.message(),
        "Either an input file or an input directory must be specified (set in config or CLI)."
    );
}

#[test]
fn switches_only_turn_features_on() {
    let none = FeatureSwitches {
        enhance: false,
        noise_reduction: false,
        export_srt: false,
        export_chapters: false,
        export_fcpxml: false,
        export_edl: false,
        remove_fillers: false,
        stabilize: false,
        color_correct: false,
        reframe: false,
        blur_background: false,
    };
    let mut base = Config::default();
    base.audio.enhance = false;
    base.export.edl = true;
    let c = apply_switches(base, none);
    assert!(!c.audio.enhance);
    assert!(c.export.edl);
    let c = apply_switches(
        c,
        FeatureSwitches { enhance: true, noise_reduction: true, export_srt: true, reframe: true, ..none },
    );
    assert!(c.audio.enhance && c.audio.noise_reduction && c.export.subtitles && c.video.reframe);
    assert!(c.export.edl);
    assert!(!c.export.chapters && !c.video.stabilize);
}

#[test]
fn music_source_precedence() {
    assert!(matches!(music_source(s("a.mp3"), s("b.mp3"), s("d"), None), MusicSource::File(f) if f == "a.mp3"));
    assert!(matches!(music_source(None, s("b.mp3"), s("d"), None), MusicSource::File(f) if f == "b.mp3"));
    assert!(matches!(music_source(None, None, s("d"), s("e")), MusicSource::PickFrom(d) if d == "d"));
    assert!(matches!(music_source(None, None, None, s("e")), MusicSource::PickFrom(d) if d == "e"));
    assert!(matches!(music_source(None, None, None, None), MusicSource::Silent));
}

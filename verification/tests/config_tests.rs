use ai_vid_editor::config::{
    default_filler_words, default_join_pattern, default_preset, default_watch_folders,
    folder_config, Config, FloatBits, FolderSettings, JoinMode, Preset, ProcessingConfig,
    SilenceMode, VideoConfig, WatchConfig, WatchFolder,
};

fn bits(x: f32) -> FloatBits {
    FloatBits(x.to_bits())
}

fn value(b: FloatBits) -> f32 {
    f32::from_bits(b.0)
}

#[test]
fn test_default_config() {
    let config = Config::default();
    assert_eq!(value(config.silence.threshold_db), -30.0);
    assert_eq!(value(config.silence.min_duration), 0.5);
    assert_eq!(value(config.silence.padding), 0.1);
    assert_eq!(config.silence.mode, SilenceMode::Cut);
    assert_eq!(value(config.silence.speedup_factor), 4.0);
}

#[test]
fn test_merge_configs() {
    let base = Config::default();

    let mut override_config = Config::default();
    override_config.silence.threshold_db = bits(-40.0);
    override_config.silence.mode = SilenceMode::Speedup;
    override_config.export.subtitles = true;

    let merged = base.merge(override_config);
    assert_eq!(value(merged.silence.threshold_db), -40.0);
    assert_eq!(merged.silence.mode, SilenceMode::Speedup);
    assert!(merged.export.subtitles);
}

#[test]
fn test_cli_overrides() {
    let config = Config::resolve_layers(
        None,
        None,
        None,
        Some(bits(-50.0)),
        Some(bits(1.0)),
        Some(bits(0.2)),
        true,
    );

    assert_eq!(value(config.silence.threshold_db), -50.0);
    assert_eq!(value(config.silence.min_duration), 1.0);
    assert_eq!(value(config.silence.padding), 0.2);
    assert_eq!(config.silence.mode, SilenceMode::Speedup);
}

#[test]
fn test_preset_youtube() {
    let config = Preset::Youtube.to_config();
    assert_eq!(config.silence.mode, SilenceMode::Cut);
    assert_eq!(value(config.silence.padding), 0.15);
    assert!(config.audio.enhance);
    assert!(config.export.chapters);
    assert!(config.export.fcpxml);
}

#[test]
fn test_preset_shorts() {
    let config = Preset::Shorts.to_config();
    assert_eq!(config.silence.mode, SilenceMode::Speedup);
    assert_eq!(value(config.silence.speedup_factor), 3.0);
    assert_eq!(value(config.silence.padding), 0.05);
    assert!(config.audio.enhance);
}

#[test]
fn test_preset_podcast() {
    let config = Preset::Podcast.to_config();
    assert_eq!(config.silence.mode, SilenceMode::Cut);
    assert_eq!(value(config.silence.padding), 0.2);
    assert!(config.audio.enhance);
    assert_eq!(value(config.audio.target_lufs), -16.0);
    assert!(config.export.subtitles);
}

#[test]
fn test_preset_minimal() {
    let config = Preset::Minimal.to_config();
    assert_eq!(config.silence.mode, SilenceMode::Cut);
    assert!(!config.audio.enhance);
}

#[test]
fn test_preset_from_str() {
    assert_eq!(Preset::from_str("youtube"), Some(Preset::Youtube));
    assert_eq!(Preset::from_str("SHORTS"), Some(Preset::Shorts));
    assert_eq!(Preset::from_str("tiktok"), Some(Preset::Shorts));
    assert_eq!(Preset::from_str("reels"), Some(Preset::Shorts));
    assert_eq!(Preset::from_str("podcast"), Some(Preset::Podcast));
    assert_eq!(Preset::from_str("minimal"), Some(Preset::Minimal));
    assert_eq!(Preset::from_str("invalid"), None);
}

#[test]
fn preset_names_round_trip() {
    for p in [Preset::Youtube, Preset::Shorts, Preset::Podcast, Preset::Minimal] {
        assert_eq!(Preset::from_str(p.as_str()), Some(p));
    }
    assert_eq!(Preset::Youtube.as_str(), "youtube");
    assert_eq!(Preset::Shorts.as_str(), "shorts");
    assert_eq!(Preset::Podcast.as_str(), "podcast");
    assert_eq!(Preset::Minimal.as_str(), "minimal");
    assert_eq!(Preset::from_str("PodCast"), Some(Preset::Podcast));
    assert_eq!(Preset::from_str(""), None);
    assert_eq!(Preset::from_str("youtube "), None);
}

#[test]
fn default_sections_hold_documented_values() {
    let config = Config::default();
    assert_eq!(value(config.silence.min_silence_for_speedup), 0.5);
    assert!(config.filler_words.enabled);
    assert_eq!(config.filler_words.words, vec!["um", "uh", "ah", "er"]);
    assert_eq!(value(config.filler_words.padding), 0.05);
    assert!(config.audio.enhance);
    assert!(!config.audio.noise_reduction);
    assert_eq!(value(config.audio.target_lufs), -14.0);
    assert_eq!(value(config.audio.duck_volume), 0.2);
    assert!(config.audio.music_file.is_none());
    assert!(!config.export.subtitles && !config.export.chapters);
    assert!(!config.export.fcpxml && !config.export.edl);
    assert_eq!(config.watch.interval, 5);
    assert!(!config.watch.enabled);
    assert_eq!(config.processing.join_mode, JoinMode::Off);
    assert_eq!(config.processing.join_after_count, 5);
    assert_eq!(config.processing.join_output_pattern, "joined_{date}.mp4");
    assert_eq!(default_join_pattern(), "joined_{date}.mp4");
    assert_eq!(default_preset(), "youtube");
    assert_eq!(default_filler_words(), vec!["um", "uh", "ah", "er"]);
    let folders = default_watch_folders();
    assert_eq!(folders.len(), 1);
    assert_eq!(folders[0].input, "videos");
    assert_eq!(config.paths.watch_folders.len(), 1);
    let w = WatchConfig::default();
    assert_eq!((w.enabled, w.interval), (false, 5));
    let v = VideoConfig::default();
    assert!(!v.stabilize && !v.color_correct && !v.reframe && !v.blur_background);
    let p = ProcessingConfig::default();
    assert_eq!(p.join_mode, JoinMode::Off);
}

#[test]
fn merge_later_layer_wins_and_defaults_keep_earlier() {
    let mut earlier = Config::default();
    earlier.silence.threshold_db = bits(-20.0);
    earlier.paths.input = Some("a.mp4".to_string());
    earlier.export.edl = true;
    let mut later = Config::default();
    later.silence.padding = bits(0.3);
    later.paths.input = Some("b.mp4".to_string());
    let merged = earlier.merge(later);
    // set in the earlier layer, left at its default by the later one
    assert_eq!(value(merged.silence.threshold_db), -20.0);
    // set by the later layer
    assert_eq!(value(merged.silence.padding), 0.3);
    assert_eq!(merged.paths.input.as_deref(), Some("b.mp4"));
    // a switched-on export stays on
    assert!(merged.export.edl);
}

#[test]
fn merge_takes_every_setting_the_other_sets() {
    let base = Config::default();
    let mut other = Config::default();
    other.audio.noise_reduction = true;
    other.export.captions = true;
    other.export.clips = true;
    other.export.clip_count = 5;
    other.export.clip_min_duration = bits(10.0);
    other.processing.join_mode = JoinMode::ByName;
    other.processing.join_after_count = 8;
    other.processing.join_output_pattern = "all_{count}.mp4".to_string();
    let m = base.merge(other);
    assert!(m.audio.noise_reduction);
    assert!(m.export.captions && m.export.clips);
    assert_eq!(m.export.clip_count, 5);
    assert_eq!(value(m.export.clip_min_duration), 10.0);
    // left at the value a file gets when it does not set it: the base's stays
    assert_eq!(m.export.clip_max_duration, Config::default().export.clip_max_duration);
    assert_eq!(m.processing.join_mode, JoinMode::ByName);
    assert_eq!(m.processing.join_after_count, 8);
    assert_eq!(m.processing.join_output_pattern, "all_{count}.mp4");

    // settings left at their defaults keep the base's values
    let mut base = Config::default();
    base.processing.join_mode = JoinMode::AfterCount;
    base.processing.join_output_pattern = "x.mp4".to_string();
    base.audio.noise_reduction = true;
    let m = base.merge(Config::default());
    assert_eq!(m.processing.join_mode, JoinMode::AfterCount);
    assert_eq!(m.processing.join_output_pattern, "x.mp4");
    assert!(m.audio.noise_reduction);
}

#[test]
fn merge_is_idempotent_and_neutral_on_examples() {
    let mut a = Preset::Shorts.to_config();
    a.paths.output = Some("out".to_string());
    let mut b = Preset::Shorts.to_config();
    b.paths.output = Some("out".to_string());
    let m = a.merge(b);
    assert_eq!(m.silence.mode, SilenceMode::Speedup);
    assert_eq!(value(m.silence.speedup_factor), 3.0);
    assert_eq!(m.paths.output.as_deref(), Some("out"));

    // a layer that sets nothing leaves the configuration as it was
    let a = Preset::Podcast.to_config();
    let mut nothing = Config::default();
    nothing.filler_words.words = Vec::new();
    let m = a.merge(nothing);
    assert_eq!(value(m.audio.target_lufs), -16.0);
    assert!(m.export.subtitles);
    assert_eq!(value(m.silence.padding), 0.2);
    assert_eq!(m.filler_words.words, vec!["um", "uh", "ah", "er"]);
}

#[test]
fn merge_grouping_does_not_matter() {
    let mk = |t: f32, p: f32, out: Option<&str>| {
        let mut c = Config::default();
        c.silence.threshold_db = bits(t);
        c.silence.padding = bits(p);
        c.paths.output = out.map(|s| s.to_string());
        c
    };
    let left = mk(-20.0, 0.1, Some("a")).merge(mk(-30.0, 0.4, None)).merge(mk(-45.0, 0.1, Some("c")));
    let right = mk(-20.0, 0.1, Some("a")).merge(mk(-30.0, 0.4, None).merge(mk(-45.0, 0.1, Some("c"))));
    assert_eq!(left.silence.threshold_db, right.silence.threshold_db);
    assert_eq!(left.silence.padding, right.silence.padding);
    assert_eq!(left.paths.output, right.paths.output);
    assert_eq!(value(left.silence.threshold_db), -45.0);
    assert_eq!(value(left.silence.padding), 0.4);
}

#[test]
fn layers_apply_in_order() {
    let mut global = Config::default();
    global.silence.threshold_db = bits(-25.0);
    global.audio.enhance = false;
    let mut project = Config::default();
    project.silence.padding = bits(0.3);
    let mut explicit = Config::default();
    explicit.silence.padding = bits(0.25);
    explicit.export.fcpxml = true;
    let c = Config::resolve_layers(Some(global), Some(project), Some(explicit), None, None, None, false);
    assert_eq!(value(c.silence.threshold_db), -25.0);
    assert_eq!(value(c.silence.padding), 0.25);
    assert!(!c.audio.enhance);
    assert!(c.export.fcpxml);
    assert_eq!(c.silence.mode, SilenceMode::Cut);

    let c = Config::resolve_layers(None, None, None, None, None, None, false);
    assert_eq!(value(c.silence.threshold_db), -30.0);
}

#[test]
fn preset_and_project_paths() {
    assert_eq!(Config::project_config_path(), "ai-vid-editor.toml");
    assert_eq!(Config::preset_file_path("studio"), "presets/studio.toml");
}

#[test]
fn available_presets_lists_sorted_toml_stems() {
    let builtin = vec!["youtube", "shorts", "podcast", "minimal"];
    assert_eq!(Config::available_presets(None), builtin);
    let empty: Vec<(String, Option<String>)> = Vec::new();
    assert_eq!(Config::available_presets(Some(&empty)), builtin);
    let entries = vec![
        ("zeta".to_string(), Some("toml".to_string())),
        ("notes".to_string(), Some("txt".to_string())),
        ("Alpha".to_string(), Some("toml".to_string())),
        ("beta".to_string(), Some("toml".to_string())),
        ("upper".to_string(), Some("TOML".to_string())),
        ("README".to_string(), None),
        ("ärger".to_string(), Some("toml".to_string())),
        ("b".to_string(), Some("toml".to_string())),
    ];
    let got = Config::available_presets(Some(&entries));
    let mut expected: Vec<String> = entries
        .iter()
        .filter(|(_, e)| e.as_deref() == Some("toml"))
        .map(|(s, _)| s.clone())
        .collect();
    expected.sort();
    assert_eq!(got, expected);
    assert_eq!(got, vec!["Alpha", "b", "beta", "zeta", "ärger"]);
    let only_other = vec![("x".to_string(), Some("yaml".to_string()))];
    assert_eq!(Config::available_presets(Some(&only_other)), builtin);
}

#[test]
fn folder_config_applies_overrides_to_preset() {
    let mut folder = WatchFolder::default();
    folder.preset = "Podcast".to_string();
    folder.settings.stabilize = Some(true);
    folder.settings.silence_threshold_db = Some(bits(-42.0));
    folder.settings.enhance_audio = Some(false);
    let job = folder_config(&folder).expect("known preset");
    assert!(job.remove_silence);
    let c = job.config;
    assert!(c.video.stabilize);
    assert!(!c.audio.enhance);
    assert_eq!(value(c.silence.threshold_db), -42.0);
    assert_eq!(value(c.audio.target_lufs), -16.0);
    assert!(c.export.subtitles);

    folder.settings.remove_silence = Some(false);
    let job = folder_config(&folder).expect("known preset");
    assert!(!job.remove_silence);
    assert!(job.config.video.stabilize);
    folder.settings.remove_silence = Some(true);
    assert!(folder_config(&folder).unwrap().remove_silence);

    folder.preset = "vlog".to_string();
    assert!(folder_config(&folder).is_none());
}

#[test]
fn folder_settings_default_sets_nothing() {
    let s = FolderSettings::default();
    assert!(s.is_default());
    let mut t = FolderSettings::default();
    t.reframe = Some(false);
    assert!(!t.is_default());
    let w = WatchFolder::default();
    assert_eq!(w.input, "videos");
    assert_eq!(w.output, "videos/output");
    assert_eq!(w.preset, "youtube");
    assert!(w.enabled);
}

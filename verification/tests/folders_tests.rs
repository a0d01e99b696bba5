use ai_vid_editor::config::{Config, FloatBits, FolderSettings, JoinMode, WatchFolder};
use ai_vid_editor::folders::{
    add_folder_from_modal, change_folder_setting, folders_of, is_default_path, join_mode_display,
    remove_folder, reset_activity, selected_settings, setup_folder, shown_settings, tab_label,
    toggle_activity, toggle_folder, update_folder_from_modal, ModalState, SettingChange,
};

fn folder(input: &str, preset: &str, enabled: bool) -> WatchFolder {
    let mut f = WatchFolder::default();
    f.input = input.to_string();
    f.output = format!("{input}/out");
    f.preset = preset.to_string();
    f.enabled = enabled;
    f
}

#[test]
fn join_mode_labels() {
    assert_eq!(join_mode_display(&JoinMode::Off), "Off");
    assert_eq!(join_mode_display(&JoinMode::ByDate), "By Date");
    assert_eq!(join_mode_display(&JoinMode::ByName), "By Name");
    assert_eq!(join_mode_display(&JoinMode::AfterCount), "After N Files");
}

#[test]
fn dialog_lifecycle() {
    let mut m = ModalState::new();
    assert!(!m.show);
    m.reset_for_add();
    assert!(m.show && m.enabled);
    assert_eq!(m.editing_idx, None);
    assert_eq!((m.input.as_str(), m.output.as_str(), m.preset.as_str()), ("videos/youtube", "videos/youtube/output", "youtube"));
    m.choose_preset("podcast");
    assert_eq!((m.input.as_str(), m.output.as_str()), ("videos/podcast", "videos/podcast/output"));
    m.input = "/my/own".to_string();
    m.choose_preset("shorts");
    assert_eq!((m.input.as_str(), m.output.as_str()), ("/my/own", "videos/shorts/output"));
    m.prompt_delete(2);
    assert_eq!(m.delete_confirm_idx, Some(2));
    m.close();
    assert!(!m.show);
    assert_eq!(m.editing_idx, None);
    assert_eq!(m.delete_confirm_idx, None);
    assert_eq!(m.input, "/my/own");

    let f = folder("in", "minimal", false);
    m.set_for_edit(0, &f);
    assert!(m.show);
    assert_eq!(m.editing_idx, Some(0));
    assert_eq!((m.input.as_str(), m.preset.as_str(), m.enabled), ("in", "minimal", false));
}

#[test]
fn suggested_paths() {
    assert!(is_default_path("videos/youtube", "youtube"));
    assert!(is_default_path("videos/youtube/output", "youtube"));
    assert!(is_default_path("videos", "podcast"));
    assert!(is_default_path("videos/output", "podcast"));
    assert!(!is_default_path("videos/youtube", "podcast"));
    assert!(!is_default_path("elsewhere", "youtube"));
}

#[test]
fn folder_list_edits() {
    let mut config = Config::default();
    let shown = folders_of(&config);
    assert_eq!(shown.len(), 1);
    assert_eq!(shown[0].input, "videos");
    config.paths.watch_folders = vec![folder("a", "youtube", true)];
    let mut folders = folders_of(&config);
    assert_eq!(folders.len(), 1);
    assert_eq!(folders[0].input, "a");

    let mut m = ModalState::new();
    m.reset_for_add();
    add_folder_from_modal(&mut folders, &m);
    assert_eq!(folders.len(), 2);
    assert_eq!(folders[1].input, "videos/youtube");
    assert!(folders[1].settings.is_default());

    folders[0].settings.stabilize = Some(true);
    m.input = "changed".to_string();
    m.enabled = false;
    assert!(update_folder_from_modal(&mut folders, 0, &m));
    assert_eq!(folders[0].input, "changed");
    assert!(!folders[0].enabled);
    assert_eq!(folders[0].settings.stabilize, Some(true));
    assert!(!update_folder_from_modal(&mut folders, 9, &m));

    assert_eq!(toggle_folder(&mut folders, 0), Some(true));
    assert!(folders[0].enabled);
    assert_eq!(toggle_folder(&mut folders, 7), None);

    assert!(remove_folder(&mut folders, 0));
    assert_eq!(folders.len(), 1);
    assert!(!remove_folder(&mut folders, 0));
    assert_eq!(folders.len(), 1);
}

#[test]
fn shown_settings_fill_in_defaults() {
    let s = shown_settings(&FolderSettings::default());
    assert!(s.enhance_audio && s.remove_silence);
    assert!(!s.stabilize && !s.color_correct && !s.reframe && !s.blur_background);
    assert_eq!(f32::from_bits(s.silence_threshold_db.0), -30.0);
    assert_eq!(f32::from_bits(s.target_lufs.0), -14.0);
    let mut t = FolderSettings::default();
    t.enhance_audio = Some(false);
    t.reframe = Some(true);
    t.target_lufs = Some(FloatBits((-16.0f32).to_bits()));
    let s = shown_settings(&t);
    assert!(!s.enhance_audio && s.reframe);
    assert_eq!(f32::from_bits(s.target_lufs.0), -16.0);
}

#[test]
fn first_run_folder() {
    let f = setup_folder("in".to_string(), "out".to_string(), "podcast".to_string(), false, true);
    assert!(f.enabled);
    assert_eq!((f.input.as_str(), f.output.as_str(), f.preset.as_str()), ("in", "out", "podcast"));
    assert_eq!(f.settings.enhance_audio, Some(false));
    assert_eq!(f.settings.remove_silence, Some(true));
    assert_eq!(f.settings.stabilize, None);
    assert_eq!(toggle_activity(true, "videos"), "Folder enabled (videos)");
    assert_eq!(toggle_activity(false, "x/y"), "Folder disabled (x/y)");
}

#[test]
fn settings_panel_changes() {
    let mut folders = vec![folder("a", "youtube", true), folder("b", "shorts", true)];
    assert!(change_folder_setting(&mut folders, 1, SettingChange::Stabilize(true)));
    assert!(change_folder_setting(&mut folders, 1, SettingChange::TargetLufs(FloatBits((-20.0f32).to_bits()))));
    assert!(change_folder_setting(&mut folders, 1, SettingChange::EnhanceAudio(false)));
    assert_eq!(folders[1].settings.stabilize, Some(true));
    assert_eq!(folders[1].settings.enhance_audio, Some(false));
    assert!(folders[0].settings.is_default());
    let shown = selected_settings(&folders, 1);
    assert!(shown.stabilize && !shown.enhance_audio);
    assert_eq!(f32::from_bits(shown.target_lufs.0), -20.0);
    let shown = selected_settings(&folders, 5);
    assert!(shown.enhance_audio && !shown.stabilize);
    assert!(change_folder_setting(&mut folders, 1, SettingChange::ResetToDefaults));
    assert!(folders[1].settings.is_default());
    assert_eq!(folders[1].input, "b");
    assert!(!change_folder_setting(&mut folders, 2, SettingChange::Reframe(true)));
    assert_eq!(reset_activity(0), "Reset folder 1 to defaults");
    assert_eq!(reset_activity(41), "Reset folder 42 to defaults");
    assert_eq!(tab_label(Some("incoming")), "incoming");
    assert_eq!(tab_label(Some("a_very_long_folder_name_here")), "a_very_l...ame_here");
    assert_eq!(tab_label(None), "Folder");
}

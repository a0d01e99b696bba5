//! Watch-folder management as the interface does it: the list of folders, the
//! add/edit dialog, per-folder settings as displayed, and the first-run setup.

use vstd::prelude::*;
use vstd::string::StringExecFns;
use crate::config::{
    is_default_watch_folder, spec_default_target_lufs, spec_default_threshold_db,
    spec_no_folder_settings, Config, FloatBits, FolderSettings, JoinMode, WatchFolder,
};
use crate::display::{can_truncate, truncate_path, truncated_path};
use crate::text::{decimal, push_decimal, str_eq};

verus! {

/// The label of a join mode.
pub open spec fn join_mode_label(mode: JoinMode) -> Seq<char> {
    match mode {
        JoinMode::Off => "Off"@,
        JoinMode::ByDate => "By Date"@,
        JoinMode::ByName => "By Name"@,
        JoinMode::AfterCount => "After N Files"@,
    }
}

/// The label shown for a join mode.
pub fn join_mode_display(mode: &JoinMode) -> (r: String)
    ensures
        r@ == join_mode_label(*mode),
{
    match mode {
        JoinMode::Off => "Off".to_string(),
        JoinMode::ByDate => "By Date".to_string(),
        JoinMode::ByName => "By Name".to_string(),
        JoinMode::AfterCount => "After N Files".to_string(),
    }
}

/// `videos/<preset>`, the input folder suggested for a preset.
pub open spec fn suggested_input(preset: Seq<char>) -> Seq<char> {
    "videos/"@ + preset
}

/// `videos/<preset>/output`, the output folder suggested for a preset.
pub open spec fn suggested_output(preset: Seq<char>) -> Seq<char> {
    "videos/"@ + preset + "/output"@
}

/// Whether a path is one of the folders the dialog suggests on its own: those of
/// `preset`, or the plain defaults `videos` and `videos/output`.
pub open spec fn is_suggested_path(path: Seq<char>, preset: Seq<char>) -> bool {
    path == suggested_input(preset) || path == suggested_output(preset) || path == "videos"@
        || path == "videos/output"@
}

fn suggested_input_string(preset: &str) -> (r: String)
    ensures
        r@ == suggested_input(preset@),
{
    let mut r = "videos/".to_string();
    r.append(preset);
    r
}

fn suggested_output_string(preset: &str) -> (r: String)
    ensures
        r@ == suggested_output(preset@),
{
    let mut r = "videos/".to_string();
    r.append(preset);
    r.append("/output");
    r
}

/// Whether `path` is a folder the dialog suggested for `preset` (`is_suggested_path`).
pub fn is_default_path(path: &str, preset: &str) -> (r: bool)
    ensures
        r == is_suggested_path(path@, preset@),
{
    let input = suggested_input_string(preset);
    let output = suggested_output_string(preset);
    str_eq(path, input.as_str()) || str_eq(path, output.as_str()) || str_eq(path, "videos")
        || str_eq(path, "videos/output")
}

/// The state of the add/edit folder dialog and of the removal confirmation.
pub struct ModalState {
    pub show: bool,
    pub editing_idx: Option<usize>,
    pub input: String,
    pub output: String,
    pub preset: String,
    pub enabled: bool,
    pub delete_confirm_idx: Option<usize>,
}

impl ModalState {
    /// The dialog closed, with empty fields.
    pub fn new() -> (r: Self)
        ensures
            !r.show,
            r.editing_idx is None,
            r.delete_confirm_idx is None,
            r.input@.len() == 0,
            r.output@.len() == 0,
            r.preset@.len() == 0,
            !r.enabled,
    {
        ModalState {
            show: false,
            editing_idx: None,
            input: String::new(),
            output: String::new(),
            preset: String::new(),
            enabled: false,
            delete_confirm_idx: None,
        }
    }

    /// Opens the dialog for a new folder with the YouTube suggestions.
    pub fn reset_for_add(&mut self)
        ensures
            final(self).show,
            final(self).editing_idx is None,
            final(self).input@ == "videos/youtube"@,
            final(self).output@ == "videos/youtube/output"@,
            final(self).preset@ == "youtube"@,
            final(self).enabled,
            final(self).delete_confirm_idx == old(self).delete_confirm_idx,
    {
        self.show = true;
        self.editing_idx = None;
        self.input = "videos/youtube".to_string();
        self.output = "videos/youtube/output".to_string();
        self.preset = "youtube".to_string();
        self.enabled = true;
    }

    /// Opens the dialog to edit folder `idx`, filled with its values.
    pub fn set_for_edit(&mut self, idx: usize, folder: &WatchFolder)
        ensures
            final(self).show,
            final(self).editing_idx == Some(idx),
            final(self).input == folder.input,
            final(self).output == folder.output,
            final(self).preset == folder.preset,
            final(self).enabled == folder.enabled,
            final(self).delete_confirm_idx == old(self).delete_confirm_idx,
    {
        self.show = true;
        self.editing_idx = Some(idx);
        self.input = folder.input.clone();
        self.output = folder.output.clone();
        self.preset = folder.preset.clone();
        self.enabled = folder.enabled;
    }

    /// Asks for confirmation before removing folder `idx`.
    pub fn prompt_delete(&mut self, idx: usize)
        ensures
            *final(self) == (ModalState { delete_confirm_idx: Some(idx), ..*old(self) }),
    {
        self.delete_confirm_idx = Some(idx);
    }

    /// Closes the dialog and the confirmation.
    pub fn close(&mut self)
        ensures
            *final(self) == (ModalState {
                show: false,
                editing_idx: None,
                delete_confirm_idx: None,
                ..*old(self)
            }),
    {
        self.show = false;
        self.editing_idx = None;
        self.delete_confirm_idx = None;
    }

    /// Picks a preset in the dialog; folders still at a suggestion follow the new preset.
    pub fn choose_preset(&mut self, preset: &str)
        ensures
            final(self).preset@ == preset@,
            final(self).input@ == (if is_suggested_path(old(self).input@, old(self).preset@) {
                suggested_input(preset@)
            } else {
                old(self).input@
            }),
            final(self).output@ == (if is_suggested_path(old(self).output@, old(self).preset@) {
                suggested_output(preset@)
            } else {
                old(self).output@
            }),
            final(self).show == old(self).show,
            final(self).enabled == old(self).enabled,
            final(self).editing_idx == old(self).editing_idx,
            final(self).delete_confirm_idx == old(self).delete_confirm_idx,
    {
        let old_preset = self.preset.clone();
        self.preset = preset.to_string();
        if is_default_path(self.input.as_str(), old_preset.as_str()) {
            self.input = suggested_input_string(preset);
        }
        if is_default_path(self.output.as_str(), old_preset.as_str()) {
            self.output = suggested_output_string(preset);
        }
    }
}

/// The folders shown for a configuration: its watch folders, or the default folder
/// when it has none.
pub fn folders_of(config: &Config) -> (r: Vec<WatchFolder>)
    ensures
        config.paths.watch_folders.len() > 0 ==> r@ == config.paths.watch_folders@,
        config.paths.watch_folders.len() == 0 ==> r.len() == 1 && is_default_watch_folder(r[0]),
{
    if config.paths.watch_folders.is_empty() {
        let mut v: Vec<WatchFolder> = Vec::new();
        v.push(WatchFolder::default());
        v
    } else {
        let v = config.paths.watch_folders.clone();
        assert(v@ =~= config.paths.watch_folders@);
        v
    }
}

/// Adds the folder described by the dialog, with no overrides.
pub fn add_folder_from_modal(folders: &mut Vec<WatchFolder>, modal: &ModalState)
    ensures
        final(folders)@.len() == old(folders)@.len() + 1,
        final(folders)@.take(old(folders)@.len() as int) == old(folders)@,
        final(folders)@.last() == (WatchFolder {
            input: modal.input,
            output: modal.output,
            preset: modal.preset,
            enabled: modal.enabled,
            settings: spec_no_folder_settings(),
        }),
{
    let folder = WatchFolder {
        input: modal.input.clone(),
        output: modal.output.clone(),
        preset: modal.preset.clone(),
        enabled: modal.enabled,
        settings: FolderSettings::default(),
    };
    let ghost before = folders@;
    folders.push(folder);
    assert(folders@.take(before.len() as int) =~= before);
}

/// Writes the dialog's values into folder `idx`; returns whether there is such a folder.
pub fn update_folder_from_modal(folders: &mut Vec<WatchFolder>, idx: usize, modal: &ModalState) -> (r:
    bool)
    ensures
        r == (idx < old(folders)@.len()),
        r ==> final(folders)@ == old(folders)@.update(
            idx as int,
            WatchFolder {
                input: modal.input,
                output: modal.output,
                preset: modal.preset,
                enabled: modal.enabled,
                ..old(folders)@[idx as int]
            },
        ),
        !r ==> final(folders)@ == old(folders)@,
{
    if idx < folders.len() {
        let settings = folders[idx].settings;
        let folder = WatchFolder {
            input: modal.input.clone(),
            output: modal.output.clone(),
            preset: modal.preset.clone(),
            enabled: modal.enabled,
            settings,
        };
        folders.set(idx, folder);
        true
    } else {
        false
    }
}

/// Removes folder `idx` unless it is the last one; returns whether it was removed.
pub fn remove_folder(folders: &mut Vec<WatchFolder>, idx: usize) -> (r: bool)
    requires
        old(folders)@.len() > 1 ==> idx < old(folders)@.len(),
    ensures
        r == (old(folders)@.len() > 1),
        r ==> final(folders)@ == old(folders)@.remove(idx as int),
        !r ==> final(folders)@ == old(folders)@,
{
    if folders.len() > 1 {
        folders.remove(idx);
        true
    } else {
        false
    }
}

/// A folder switched on or off.
pub open spec fn toggled(f: WatchFolder) -> WatchFolder {
    WatchFolder { enabled: !f.enabled, ..f }
}

/// The folder list after switching folder `idx` on or off.
pub open spec fn toggled_at(folders: Seq<WatchFolder>, idx: int) -> Seq<WatchFolder> {
    folders.update(idx, toggled(folders[idx]))
}

/// Switching a folder twice leaves the list as it was.
pub proof fn lemma_toggle_twice(folders: Seq<WatchFolder>, idx: int)
    requires
        0 <= idx < folders.len(),
    ensures
        toggled_at(toggled_at(folders, idx), idx) == folders,
{
    assert(toggled_at(toggled_at(folders, idx), idx) =~= folders);
}

/// Switches folder `idx` on or off; returns its new state, or `None` when there is
/// no such folder.
pub fn toggle_folder(folders: &mut Vec<WatchFolder>, idx: usize) -> (r: Option<bool>)
    ensures
        idx < old(folders)@.len() ==> r == Some(!old(folders)@[idx as int].enabled)
            && final(folders)@ == toggled_at(old(folders)@, idx as int),
        idx >= old(folders)@.len() ==> r is None && final(folders)@ == old(folders)@,
{
    if idx < folders.len() {
        let mut folder = folders[idx].clone();
        folder.enabled = !folder.enabled;
        let state = folder.enabled;
        folders.set(idx, folder);
        Some(state)
    } else {
        None
    }
}

/// A folder's settings as the settings panel shows them: each override, or the
/// value used when it is not set.
#[derive(Clone, Copy, Debug, PartialEq, Eq, Structural)]
pub struct ShownSettings {
    pub enhance_audio: bool,
    pub remove_silence: bool,
    pub stabilize: bool,
    pub color_correct: bool,
    pub reframe: bool,
    pub blur_background: bool,
    pub silence_threshold_db: FloatBits,
    pub target_lufs: FloatBits,
}

/// The settings shown for a folder: enhancement and silence removal on, video
/// effects off, -30 dB and -14 LUFS, where the folder sets nothing else.
pub open spec fn shown_settings_of(s: FolderSettings) -> ShownSettings {
    ShownSettings {
        enhance_audio: s.enhance_audio != Some(false),
        remove_silence: s.remove_silence != Some(false),
        stabilize: s.stabilize == Some(true),
        color_correct: s.color_correct == Some(true),
        reframe: s.reframe == Some(true),
        blur_background: s.blur_background == Some(true),
        silence_threshold_db: match s.silence_threshold_db {
            Some(t) => t,
            None => spec_default_threshold_db(),
        },
        target_lufs: match s.target_lufs {
            Some(t) => t,
            None => spec_default_target_lufs(),
        },
    }
}

/// The settings the panel shows for a folder (`shown_settings_of`).
pub fn shown_settings(s: &FolderSettings) -> (r: ShownSettings)
    ensures
        r == shown_settings_of(*s),
{
    ShownSettings {
        enhance_audio: s.enhance_audio.unwrap_or(true),
        remove_silence: s.remove_silence.unwrap_or(true),
        stabilize: s.stabilize.unwrap_or(false),
        color_correct: s.color_correct.unwrap_or(false),
        reframe: s.reframe.unwrap_or(false),
        blur_background: s.blur_background.unwrap_or(false),
        silence_threshold_db: s.silence_threshold_db.unwrap_or(crate::config::default_threshold_db()),
        target_lufs: s.target_lufs.unwrap_or(crate::config::default_target_lufs()),
    }
}

/// The folder that the first-run setup creates: enabled, with the chosen preset and
/// the chosen audio enhancement and silence removal.
pub fn setup_folder(
    input: String,
    output: String,
    preset: String,
    enhance: bool,
    remove_silence: bool,
) -> (r: WatchFolder)
    ensures
        r == (WatchFolder {
            input,
            output,
            preset,
            enabled: true,
            settings: FolderSettings {
                enhance_audio: Some(enhance),
                remove_silence: Some(remove_silence),
                ..spec_no_folder_settings()
            },
        }),
{
    let mut settings = FolderSettings::default();
    settings.enhance_audio = Some(enhance);
    settings.remove_silence = Some(remove_silence);
    WatchFolder { input, output, preset, enabled: true, settings }
}

/// The activity-log line for a folder switched on or off.
pub open spec fn toggle_text(enabled: bool, input: Seq<char>) -> Seq<char> {
    "Folder "@ + (if enabled {
        "enabled"@
    } else {
        "disabled"@
    }) + " ("@ + input + ")"@
}

/// The activity-log line for a folder switched on or off (`toggle_text`).
pub fn toggle_activity(enabled: bool, input: &str) -> (r: String)
    ensures
        r@ == toggle_text(enabled, input@),
{
    let mut r = "Folder ".to_string();
    if enabled {
        r.append("enabled");
    } else {
        r.append("disabled");
    }
    r.append(" (");
    r.append(input);
    r.append(")");
    r
}

/// A change made in the settings panel to one folder.
#[derive(Clone, Copy, Debug, PartialEq, Eq, Structural)]
pub enum SettingChange {
    EnhanceAudio(bool),
    RemoveSilence(bool),
    Stabilize(bool),
    ColorCorrect(bool),
    Reframe(bool),
    BlurBackground(bool),
    SilenceThreshold(FloatBits),
    TargetLufs(FloatBits),
    /// Drops every override of the folder.
    ResetToDefaults,
}

/// A folder's overrides after a change: the changed setting is set to the chosen
/// value, or every override is dropped on a reset.
pub open spec fn changed_settings(s: FolderSettings, c: SettingChange) -> FolderSettings {
    match c {
        SettingChange::EnhanceAudio(b) => FolderSettings { enhance_audio: Some(b), ..s },
        SettingChange::RemoveSilence(b) => FolderSettings { remove_silence: Some(b), ..s },
        SettingChange::Stabilize(b) => FolderSettings { stabilize: Some(b), ..s },
        SettingChange::ColorCorrect(b) => FolderSettings { color_correct: Some(b), ..s },
        SettingChange::Reframe(b) => FolderSettings { reframe: Some(b), ..s },
        SettingChange::BlurBackground(b) => FolderSettings { blur_background: Some(b), ..s },
        SettingChange::SilenceThreshold(t) => FolderSettings { silence_threshold_db: Some(t), ..s },
        SettingChange::TargetLufs(t) => FolderSettings { target_lufs: Some(t), ..s },
        SettingChange::ResetToDefaults => spec_no_folder_settings(),
    }
}

/// Applies a settings-panel change to folder `idx`; returns whether there is such a folder.
pub fn change_folder_setting(folders: &mut Vec<WatchFolder>, idx: usize, change: SettingChange) -> (r:
    bool)
    ensures
        r == (idx < old(folders)@.len()),
        r ==> final(folders)@ == old(folders)@.update(
            idx as int,
            WatchFolder {
                settings: changed_settings(old(folders)@[idx as int].settings, change),
                ..old(folders)@[idx as int]
            },
        ),
        !r ==> final(folders)@ == old(folders)@,
{
    if idx >= folders.len() {
        return false;
    }
    let mut folder = folders[idx].clone();
    let mut s = folder.settings;
    match change {
        SettingChange::EnhanceAudio(b) => s.enhance_audio = Some(b),
        SettingChange::RemoveSilence(b) => s.remove_silence = Some(b),
        SettingChange::Stabilize(b) => s.stabilize = Some(b),
        SettingChange::ColorCorrect(b) => s.color_correct = Some(b),
        SettingChange::Reframe(b) => s.reframe = Some(b),
        SettingChange::BlurBackground(b) => s.blur_background = Some(b),
        SettingChange::SilenceThreshold(t) => s.silence_threshold_db = Some(t),
        SettingChange::TargetLufs(t) => s.target_lufs = Some(t),
        SettingChange::ResetToDefaults => s = FolderSettings::default(),
    }
    folder.settings = s;
    folders.set(idx, folder);
    true
}

/// The settings the panel shows for the selected folder, or the defaults when no
/// folder is selected.
pub fn selected_settings(folders: &Vec<WatchFolder>, idx: usize) -> (r: ShownSettings)
    ensures
        r == shown_settings_of(
            if idx < folders@.len() {
                folders@[idx as int].settings
            } else {
                spec_no_folder_settings()
            },
        ),
{
    if idx < folders.len() {
        shown_settings(&folders[idx].settings)
    } else {
        shown_settings(&FolderSettings::default())
    }
}

/// The activity-log line for a folder (numbered from 1) reset to its defaults.
pub fn reset_activity(idx: usize) -> (r: String)
    requires
        idx < usize::MAX,
    ensures
        r@ == "Reset folder "@ + decimal((idx + 1) as nat) + " to defaults"@,
{
    let mut r = "Reset folder ".to_string();
    push_decimal(&mut r, (idx + 1) as u64);
    r.append(" to defaults");
    r
}

/// The name shown on a folder's tab: the folder's own name, or `Folder`.
pub open spec fn tab_name(file_name: Option<Seq<char>>) -> Seq<char> {
    match file_name {
        Some(n) => n,
        None => "Folder"@,
    }
}

/// The label of a folder's tab in the settings panel: its name shortened to 20 bytes.
pub fn tab_label(file_name: Option<&str>) -> (r: String)
    requires
        can_truncate(
            tab_name(
                match file_name {
                    Some(n) => Some(n@),
                    None => None,
                },
            ),
            20,
        ),
    ensures
        r@ == truncated_path(
            tab_name(
                match file_name {
                    Some(n) => Some(n@),
                    None => None,
                },
            ),
            20,
        ),
{
    match file_name {
        Some(n) => truncate_path(n, 20),
        None => {
            proof {
                reveal_strlit("Folder");
            }
            truncate_path("Folder", 20)
        },
    }
}

} // verus!

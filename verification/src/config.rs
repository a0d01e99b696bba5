//! Configuration: silence handling, filler words, audio, video, export,
//! paths, watch folders and presets, with the merge rule that lets a later
//! configuration source override an earlier one.
//!
//! Settings that are single-precision numbers are held as their IEEE-754 bit
//! patterns (`FloatBits`). Every default such a setting is compared against is
//! a non-zero, non-NaN number, so a value differs from a default as a number
//! exactly when it differs from it as a bit pattern.

use vstd::prelude::*;
use crate::order::{lex_order, sort_strings};
use crate::text::{ascii_lowered, is_ascii_text, lowercase_of, str_eq, to_lowercase};

verus! {

/// The IEEE-754 single-precision bit pattern of a numeric setting.
#[derive(Clone, Copy, Debug, PartialEq, Eq, Structural)]
pub struct FloatBits(pub u32);

/// How to handle detected silences.
#[derive(Clone, Copy, Debug, PartialEq, Eq, Structural)]
pub enum SilenceMode {
    /// Cut out silences completely (default).
    Cut,
    /// Speed up silences instead of cutting.
    Speedup,
}

impl Default for SilenceMode {
    fn default() -> (r: Self)
        ensures
            r == SilenceMode::Cut,
    {
        SilenceMode::Cut
    }
}

/// Preset profiles for common use cases.
#[derive(Clone, Copy, Debug, PartialEq, Eq, Structural)]
pub enum Preset {
    /// YouTube long-form: silence cut + audio enhance + chapters.
    Youtube,
    /// YouTube Shorts/TikTok: speedup mode + audio enhance.
    Shorts,
    /// Podcast: silence cut + audio enhance + SRT subtitles.
    Podcast,
    /// Minimal: just silence detection, no enhancement.
    Minimal,
}

/// Join mode for combining processed videos.
#[derive(Clone, Copy, Debug, PartialEq, Eq, Structural)]
pub enum JoinMode {
    /// Don't join videos (default).
    Off,
    /// Join videos by date (newest first).
    ByDate,
    /// Join videos alphabetically by name.
    ByName,
    /// Join after N videos processed.
    AfterCount,
}

impl Default for JoinMode {
    fn default() -> (r: Self)
        ensures
            r == JoinMode::Off,
    {
        JoinMode::Off
    }
}

// ---------------------------------------------------------------------------
// Default values
// ---------------------------------------------------------------------------

/// -30.0 dB.
pub open spec fn spec_default_threshold_db() -> FloatBits {
    FloatBits(0xc1f00000)
}

/// 0.5 s.
pub open spec fn spec_default_min_duration() -> FloatBits {
    FloatBits(0x3f000000)
}

/// 0.1 s.
pub open spec fn spec_default_padding() -> FloatBits {
    FloatBits(0x3dcccccd)
}

/// 4.0.
pub open spec fn spec_default_speedup_factor() -> FloatBits {
    FloatBits(0x40800000)
}

/// 0.5 s.
pub open spec fn spec_default_min_silence_for_speedup() -> FloatBits {
    FloatBits(0x3f000000)
}

/// 0.05 s.
pub open spec fn spec_default_filler_padding() -> FloatBits {
    FloatBits(0x3d4ccccd)
}

/// -14.0 LUFS.
pub open spec fn spec_default_target_lufs() -> FloatBits {
    FloatBits(0xc1600000)
}

/// 0.2.
pub open spec fn spec_default_duck_volume() -> FloatBits {
    FloatBits(0x3e4ccccd)
}

/// 15.0 s.
pub open spec fn spec_default_clip_min_duration() -> FloatBits {
    FloatBits(0x41700000)
}

/// 60.0 s.
pub open spec fn spec_default_clip_max_duration() -> FloatBits {
    FloatBits(0x42700000)
}

/// The silence threshold used when none is configured: -30.0 dB.
pub fn default_threshold_db() -> (r: FloatBits)
    ensures
        r == spec_default_threshold_db(),
{
    FloatBits(0xc1f00000)
}

/// The shortest silence detected when none is configured: 0.5 s.
pub fn default_min_duration() -> (r: FloatBits)
    ensures
        r == spec_default_min_duration(),
{
    FloatBits(0x3f000000)
}

/// The padding around cuts when none is configured: 0.1 s.
pub fn default_padding() -> (r: FloatBits)
    ensures
        r == spec_default_padding(),
{
    FloatBits(0x3dcccccd)
}

/// The speed of sped-up silences when none is configured: 4.0.
pub fn default_speedup_factor() -> (r: FloatBits)
    ensures
        r == spec_default_speedup_factor(),
{
    FloatBits(0x40800000)
}

/// The shortest silence that is sped up when none is configured: 0.5 s.
pub fn default_min_silence_for_speedup() -> (r: FloatBits)
    ensures
        r == spec_default_min_silence_for_speedup(),
{
    FloatBits(0x3f000000)
}

/// The padding around filler-word cuts when none is configured: 0.05 s.
pub fn default_filler_padding() -> (r: FloatBits)
    ensures
        r == spec_default_filler_padding(),
{
    FloatBits(0x3d4ccccd)
}

/// The loudness target when none is configured: -14.0 LUFS.
pub fn default_target_lufs() -> (r: FloatBits)
    ensures
        r == spec_default_target_lufs(),
{
    FloatBits(0xc1600000)
}

/// The music volume during speech when none is configured: 0.2.
pub fn default_duck_volume() -> (r: FloatBits)
    ensures
        r == spec_default_duck_volume(),
{
    FloatBits(0x3e4ccccd)
}

/// The shortest extracted clip when a configuration file leaves it out: 15.0 s.
pub fn default_clip_min_duration() -> (r: FloatBits)
    ensures
        r == spec_default_clip_min_duration(),
{
    FloatBits(0x41700000)
}

/// The longest extracted clip when a configuration file leaves it out: 60.0 s.
pub fn default_clip_max_duration() -> (r: FloatBits)
    ensures
        r == spec_default_clip_max_duration(),
{
    FloatBits(0x42700000)
}

/// The value of boolean settings that a configuration file leaves out and that default to on.
pub fn default_true() -> (r: bool)
    ensures
        r,
{
    true
}

/// The number of clips extracted when a configuration file leaves it out.
pub fn default_clip_count() -> (r: u32)
    ensures
        r == 3,
{
    3
}

/// The polling interval of watch mode when none is configured, in seconds.
pub fn default_watch_interval() -> (r: u64)
    ensures
        r == 5,
{
    5
}

/// The number of videos after which they are joined, when none is configured.
pub fn default_join_after_count() -> (r: u32)
    ensures
        r == 5,
{
    5
}

/// The default filler words.
pub open spec fn spec_default_filler_words() -> Seq<Seq<char>> {
    seq!["um"@, "uh"@, "ah"@, "er"@]
}

/// The views of a list of strings.
pub open spec fn views(v: Seq<String>) -> Seq<Seq<char>> {
    v.map_values(|s: String| s@)
}

/// The filler words removed when none are configured: um, uh, ah, er.
pub fn default_filler_words() -> (r: Vec<String>)
    ensures
        views(r@) == spec_default_filler_words(),
{
    let mut v: Vec<String> = Vec::new();
    v.push("um".to_string());
    v.push("uh".to_string());
    v.push("ah".to_string());
    v.push("er".to_string());
    assert(views(v@) =~= spec_default_filler_words());
    v
}

/// The preset of a watch folder when none is configured.
pub fn default_preset() -> (r: String)
    ensures
        r@ == "youtube"@,
{
    "youtube".to_string()
}

/// The output file name pattern for joined videos when none is configured.
pub fn default_join_pattern() -> (r: String)
    ensures
        r@ == "joined_{date}.mp4"@,
{
    "joined_{date}.mp4".to_string()
}

// ---------------------------------------------------------------------------
// Configuration sections
// ---------------------------------------------------------------------------

/// Configuration for silence detection and handling.
pub struct SilenceConfig {
    /// Silence detection threshold in dB (e.g., -30.0).
    pub threshold_db: FloatBits,
    /// Minimum silence duration to detect (seconds).
    pub min_duration: FloatBits,
    /// Padding around cuts (seconds).
    pub padding: FloatBits,
    /// How to handle silences.
    pub mode: SilenceMode,
    /// Speed multiplier when mode is `Speedup`.
    pub speedup_factor: FloatBits,
    /// Only speed up silences longer than this (seconds).
    pub min_silence_for_speedup: FloatBits,
}

/// The default silence settings.
pub open spec fn spec_default_silence() -> SilenceConfig {
    SilenceConfig {
        threshold_db: spec_default_threshold_db(),
        min_duration: spec_default_min_duration(),
        padding: spec_default_padding(),
        mode: SilenceMode::Cut,
        speedup_factor: spec_default_speedup_factor(),
        min_silence_for_speedup: spec_default_min_silence_for_speedup(),
    }
}

impl Default for SilenceConfig {
    fn default() -> (r: Self)
        ensures
            r == spec_default_silence(),
    {
        SilenceConfig {
            threshold_db: default_threshold_db(),
            min_duration: default_min_duration(),
            padding: default_padding(),
            mode: SilenceMode::Cut,
            speedup_factor: default_speedup_factor(),
            min_silence_for_speedup: default_min_silence_for_speedup(),
        }
    }
}

/// Configuration for filler word removal.
pub struct FillerWordsConfig {
    /// Enable filler word removal (requires speech-to-text).
    pub enabled: bool,
    /// Words to remove.
    pub words: Vec<String>,
    /// Padding around filler cuts (seconds).
    pub padding: FloatBits,
}

/// Whether `f` holds the default filler-word settings.
pub open spec fn is_default_filler_words(f: FillerWordsConfig) -> bool {
    &&& f.enabled
    &&& views(f.words@) == spec_default_filler_words()
    &&& f.padding == spec_default_filler_padding()
}

impl Default for FillerWordsConfig {
    fn default() -> (r: Self)
        ensures
            is_default_filler_words(r),
    {
        FillerWordsConfig {
            enabled: default_true(),
            words: default_filler_words(),
            padding: default_filler_padding(),
        }
    }
}

/// Configuration for audio processing.
pub struct AudioConfig {
    /// Enable audio enhancement.
    pub enhance: bool,
    /// Enable noise reduction.
    pub noise_reduction: bool,
    /// Target loudness (LUFS); the YouTube standard is -14.
    pub target_lufs: FloatBits,
    /// Path to a background music file.
    pub music_file: Option<String>,
    /// Volume of the music during speech (0.0-1.0).
    pub duck_volume: FloatBits,
}

/// The default audio settings.
pub open spec fn spec_default_audio() -> AudioConfig {
    AudioConfig {
        enhance: true,
        noise_reduction: false,
        target_lufs: spec_default_target_lufs(),
        music_file: None,
        duck_volume: spec_default_duck_volume(),
    }
}

impl Default for AudioConfig {
    fn default() -> (r: Self)
        ensures
            r == spec_default_audio(),
    {
        AudioConfig {
            enhance: default_true(),
            noise_reduction: false,
            target_lufs: default_target_lufs(),
            music_file: None,
            duck_volume: default_duck_volume(),
        }
    }
}

/// Configuration for export options.
pub struct ExportConfig {
    /// Generate SRT subtitles (raw text with timestamps).
    pub subtitles: bool,
    /// Burn styled subtitles into the video.
    pub captions: bool,
    /// Generate YouTube chapters.
    pub chapters: bool,
    /// Extract highlight clips for Shorts/Reels.
    pub clips: bool,
    /// Number of clips to extract.
    pub clip_count: u32,
    /// Minimum clip duration in seconds.
    pub clip_min_duration: FloatBits,
    /// Maximum clip duration in seconds.
    pub clip_max_duration: FloatBits,
    /// Generate FCPXML for DaVinci/Premiere.
    pub fcpxml: bool,
    /// Generate an EDL.
    pub edl: bool,
}

/// The export settings of a configuration built in code: nothing exported, and
/// zero clip count and durations (the file defaults apply only to what a
/// configuration file leaves out).
pub open spec fn spec_default_export() -> ExportConfig {
    ExportConfig {
        subtitles: false,
        captions: false,
        chapters: false,
        clips: false,
        clip_count: 0,
        clip_min_duration: FloatBits(0),
        clip_max_duration: FloatBits(0),
        fcpxml: false,
        edl: false,
    }
}

impl Default for ExportConfig {
    fn default() -> (r: Self)
        ensures
            r == spec_default_export(),
    {
        ExportConfig {
            subtitles: false,
            captions: false,
            chapters: false,
            clips: false,
            clip_count: 0,
            clip_min_duration: FloatBits(0),
            clip_max_duration: FloatBits(0),
            fcpxml: false,
            edl: false,
        }
    }
}

/// Per-folder overrides of the preset's settings; `None` keeps the preset's value.
#[derive(Clone, Copy, Debug, PartialEq, Eq, Structural)]
pub struct FolderSettings {
    pub enhance_audio: Option<bool>,
    pub remove_silence: Option<bool>,
    pub silence_threshold_db: Option<FloatBits>,
    pub target_lufs: Option<FloatBits>,
    pub stabilize: Option<bool>,
    pub color_correct: Option<bool>,
    pub reframe: Option<bool>,
    pub blur_background: Option<bool>,
    pub subtitles: Option<bool>,
    pub chapters: Option<bool>,
    pub captions: Option<bool>,
    pub clips: Option<bool>,
}

/// Folder settings that override nothing.
pub open spec fn spec_no_folder_settings() -> FolderSettings {
    FolderSettings {
        enhance_audio: None,
        remove_silence: None,
        silence_threshold_db: None,
        target_lufs: None,
        stabilize: None,
        color_correct: None,
        reframe: None,
        blur_background: None,
        subtitles: None,
        chapters: None,
        captions: None,
        clips: None,
    }
}

impl Default for FolderSettings {
    fn default() -> (r: Self)
        ensures
            r == spec_no_folder_settings(),
    {
        FolderSettings {
            enhance_audio: None,
            remove_silence: None,
            silence_threshold_db: None,
            target_lufs: None,
            stabilize: None,
            color_correct: None,
            reframe: None,
            blur_background: None,
            subtitles: None,
            chapters: None,
            captions: None,
            clips: None,
        }
    }
}

impl FolderSettings {
    /// Whether none of the processing overrides is set (the export overrides
    /// `subtitles`, `chapters`, `captions` and `clips` are not consulted). A
    /// configuration file leaves such settings out.
    pub fn is_default(&self) -> (r: bool)
        ensures
            r == (self.enhance_audio is None && self.remove_silence is None
                && self.silence_threshold_db is None && self.target_lufs is None
                && self.stabilize is None && self.color_correct is None && self.reframe is None
                && self.blur_background is None),
    {
        self.enhance_audio.is_none() && self.remove_silence.is_none()
            && self.silence_threshold_db.is_none() && self.target_lufs.is_none()
            && self.stabilize.is_none() && self.color_correct.is_none() && self.reframe.is_none()
            && self.blur_background.is_none()
    }
}

/// A watched input folder, the folder its results go to, and how they are processed.
pub struct WatchFolder {
    pub input: String,
    pub output: String,
    pub preset: String,
    pub enabled: bool,
    pub settings: FolderSettings,
}

impl Clone for WatchFolder {
    fn clone(&self) -> (r: Self)
        ensures
            r == *self,
    {
        WatchFolder {
            input: self.input.clone(),
            output: self.output.clone(),
            preset: self.preset.clone(),
            enabled: self.enabled,
            settings: self.settings,
        }
    }
}

/// Whether `w` is the default watch folder: `videos` into `videos/output` with the
/// YouTube preset, enabled, with no overrides.
pub open spec fn is_default_watch_folder(w: WatchFolder) -> bool {
    &&& w.input@ == "videos"@
    &&& w.output@ == "videos/output"@
    &&& w.preset@ == "youtube"@
    &&& w.enabled
    &&& w.settings == spec_no_folder_settings()
}

impl Default for WatchFolder {
    fn default() -> (r: Self)
        ensures
            is_default_watch_folder(r),
    {
        WatchFolder {
            input: "videos".to_string(),
            output: "videos/output".to_string(),
            preset: default_preset(),
            enabled: true,
            settings: FolderSettings::default(),
        }
    }
}

/// The watch folders used when none are configured: the default folder alone.
pub fn default_watch_folders() -> (r: Vec<WatchFolder>)
    ensures
        r.len() == 1,
        is_default_watch_folder(r[0]),
{
    let mut v: Vec<WatchFolder> = Vec::new();
    v.push(WatchFolder::default());
    v
}

/// Configuration for paths.
pub struct PathsConfig {
    /// Input video file (single file mode).
    pub input: Option<String>,
    /// Input directory (batch mode).
    pub input_dir: Option<String>,
    /// Output video file (single file mode).
    pub output: Option<String>,
    /// Output directory (batch mode).
    pub output_dir: Option<String>,
    /// Background music file.
    pub music: Option<String>,
    /// Background music directory.
    pub music_dir: Option<String>,
    /// Intro video.
    pub intro: Option<String>,
    /// Outro video.
    pub outro: Option<String>,
    /// Watch folders for GUI mode.
    pub watch_folders: Vec<WatchFolder>,
}

/// Whether `o` is `Some` with the text `t`.
pub open spec fn is_some_text(o: Option<String>, t: Seq<char>) -> bool {
    o matches Some(s) && s@ == t
}

/// Whether `p` holds the default paths: `watch` into `output`, music from `music`,
/// and the default watch folder.
pub open spec fn is_default_paths(p: PathsConfig) -> bool {
    &&& p.input is None
    &&& is_some_text(p.input_dir, "watch"@)
    &&& p.output is None
    &&& is_some_text(p.output_dir, "output"@)
    &&& p.music is None
    &&& is_some_text(p.music_dir, "music"@)
    &&& p.intro is None
    &&& p.outro is None
    &&& p.watch_folders.len() == 1
    &&& is_default_watch_folder(p.watch_folders[0])
}

impl Default for PathsConfig {
    fn default() -> (r: Self)
        ensures
            is_default_paths(r),
    {
        PathsConfig {
            input: None,
            input_dir: Some("watch".to_string()),
            output: None,
            output_dir: Some("output".to_string()),
            music: None,
            music_dir: Some("music".to_string()),
            intro: None,
            outro: None,
            watch_folders: default_watch_folders(),
        }
    }
}

/// Configuration for watch mode.
#[derive(Clone, Copy, Debug, PartialEq, Eq, Structural)]
pub struct WatchConfig {
    /// Enable watch mode.
    pub enabled: bool,
    /// Polling interval in seconds.
    pub interval: u64,
}

impl Default for WatchConfig {
    fn default() -> (r: Self)
        ensures
            r == (WatchConfig { enabled: false, interval: 5 }),
    {
        WatchConfig { enabled: false, interval: default_watch_interval() }
    }
}

/// Configuration for video processing.
#[derive(Clone, Copy, Debug, PartialEq, Eq, Structural)]
pub struct VideoConfig {
    /// Enable video stabilization.
    pub stabilize: bool,
    /// Enable auto color correction.
    pub color_correct: bool,
    /// Enable auto-reframe (horizontal to vertical, follows the face).
    pub reframe: bool,
    /// Enable background blur.
    pub blur_background: bool,
}

impl Default for VideoConfig {
    fn default() -> (r: Self)
        ensures
            r == (VideoConfig {
                stabilize: false,
                color_correct: false,
                reframe: false,
                blur_background: false,
            }),
    {
        VideoConfig { stabilize: false, color_correct: false, reframe: false, blur_background: false }
    }
}

/// Configuration for processing options.
pub struct ProcessingConfig {
    /// How to join processed videos.
    pub join_mode: JoinMode,
    /// Number of videos after which to join (when `join_mode` is `AfterCount`).
    pub join_after_count: u32,
    /// Output file name pattern for joined videos; supports `{date}`, `{time}`, `{count}`.
    pub join_output_pattern: String,
}

/// Whether `p` holds the default processing options.
pub open spec fn is_default_processing(p: ProcessingConfig) -> bool {
    &&& p.join_mode == JoinMode::Off
    &&& p.join_after_count == 5
    &&& p.join_output_pattern@ == "joined_{date}.mp4"@
}

impl Default for ProcessingConfig {
    fn default() -> (r: Self)
        ensures
            is_default_processing(r),
    {
        ProcessingConfig {
            join_mode: JoinMode::Off,
            join_after_count: default_join_after_count(),
            join_output_pattern: default_join_pattern(),
        }
    }
}

/// Main configuration structure.
pub struct Config {
    /// Paths for input/output/music/intro/outro.
    pub paths: PathsConfig,
    /// Silence detection and handling.
    pub silence: SilenceConfig,
    /// Filler word removal.
    pub filler_words: FillerWordsConfig,
    /// Audio processing.
    pub audio: AudioConfig,
    /// Video processing.
    pub video: VideoConfig,
    /// Processing options (join mode, etc.).
    pub processing: ProcessingConfig,
    /// Export options.
    pub export: ExportConfig,
    /// Watch mode settings.
    pub watch: WatchConfig,
}

/// Whether `c` is the default configuration.
pub open spec fn is_default_config(c: Config) -> bool {
    &&& is_default_paths(c.paths)
    &&& c.silence == spec_default_silence()
    &&& is_default_filler_words(c.filler_words)
    &&& c.audio == spec_default_audio()
    &&& c.video == (VideoConfig {
        stabilize: false,
        color_correct: false,
        reframe: false,
        blur_background: false,
    })
    &&& is_default_processing(c.processing)
    &&& c.export == spec_default_export()
    &&& c.watch == (WatchConfig { enabled: false, interval: 5 })
}

impl Default for Config {
    fn default() -> (r: Self)
        ensures
            is_default_config(r),
    {
        Config {
            paths: PathsConfig::default(),
            silence: SilenceConfig::default(),
            filler_words: FillerWordsConfig::default(),
            audio: AudioConfig::default(),
            video: VideoConfig::default(),
            processing: ProcessingConfig::default(),
            export: ExportConfig::default(),
            watch: WatchConfig::default(),
        }
    }
}

// ---------------------------------------------------------------------------
// Presets
// ---------------------------------------------------------------------------

/// The name of a preset.
pub open spec fn preset_name(p: Preset) -> Seq<char> {
    match p {
        Preset::Youtube => "youtube"@,
        Preset::Shorts => "shorts"@,
        Preset::Podcast => "podcast"@,
        Preset::Minimal => "minimal"@,
    }
}

/// The preset a lowercase name stands for: `youtube`; `shorts`, `tiktok` or `reels`;
/// `podcast`; `minimal`.
pub open spec fn preset_named(name: Seq<char>) -> Option<Preset> {
    if name == "youtube"@ {
        Some(Preset::Youtube)
    } else if name == "shorts"@ || name == "tiktok"@ || name == "reels"@ {
        Some(Preset::Shorts)
    } else if name == "podcast"@ {
        Some(Preset::Podcast)
    } else if name == "minimal"@ {
        Some(Preset::Minimal)
    } else {
        None
    }
}

/// The silence handling of a preset: Shorts speed silences up, the others cut them.
pub open spec fn preset_mode(p: Preset) -> SilenceMode {
    if p == Preset::Shorts {
        SilenceMode::Speedup
    } else {
        SilenceMode::Cut
    }
}

/// The padding around cuts of a preset: 0.15 s, 0.05 s, 0.2 s, or the default.
pub open spec fn preset_padding(p: Preset) -> FloatBits {
    match p {
        Preset::Youtube => FloatBits(0x3e19999a),
        Preset::Shorts => FloatBits(0x3d4ccccd),
        Preset::Podcast => FloatBits(0x3e4ccccd),
        Preset::Minimal => spec_default_padding(),
    }
}

/// The speedup factor of a preset: 3.0 for Shorts, the default otherwise.
pub open spec fn preset_speedup(p: Preset) -> FloatBits {
    if p == Preset::Shorts {
        FloatBits(0x40400000)
    } else {
        spec_default_speedup_factor()
    }
}

/// The loudness target of a preset: -16.0 LUFS for podcasts, the default otherwise.
pub open spec fn preset_lufs(p: Preset) -> FloatBits {
    if p == Preset::Podcast {
        FloatBits(0xc1800000)
    } else {
        spec_default_target_lufs()
    }
}

/// Whether `c` is the configuration of preset `p` with the folder overrides `s`
/// applied: the default configuration, changed where the preset changes it, then
/// where `s` sets a value (audio enhancement, silence threshold, loudness target,
/// stabilization, color correction, reframing, background blur). Switching silence
/// removal off is not a configuration value; `is_folder_job_with` states it.
pub open spec fn is_preset_config_with(c: Config, p: Preset, s: FolderSettings) -> bool {
    &&& is_default_paths(c.paths)
    &&& is_default_filler_words(c.filler_words)
    &&& is_default_processing(c.processing)
    &&& c.watch == (WatchConfig { enabled: false, interval: 5 })
    &&& c.silence == (SilenceConfig {
        threshold_db: match s.silence_threshold_db {
            Some(t) => t,
            None => spec_default_threshold_db(),
        },
        mode: preset_mode(p),
        padding: preset_padding(p),
        speedup_factor: preset_speedup(p),
        ..spec_default_silence()
    })
    &&& c.audio == (AudioConfig {
        enhance: match s.enhance_audio {
            Some(e) => e,
            None => p != Preset::Minimal,
        },
        target_lufs: match s.target_lufs {
            Some(t) => t,
            None => preset_lufs(p),
        },
        ..spec_default_audio()
    })
    &&& c.video == (VideoConfig {
        stabilize: s.stabilize == Some(true),
        color_correct: s.color_correct == Some(true),
        reframe: s.reframe == Some(true),
        blur_background: s.blur_background == Some(true),
    })
    &&& c.export == (ExportConfig {
        subtitles: p == Preset::Podcast,
        captions: p == Preset::Podcast,
        chapters: p == Preset::Youtube,
        clips: p == Preset::Shorts,
        fcpxml: p == Preset::Youtube,
        ..spec_default_export()
    })
}

/// Whether `c` is the configuration of preset `p`.
pub open spec fn is_preset_config(c: Config, p: Preset) -> bool {
    is_preset_config_with(c, p, spec_no_folder_settings())
}

impl Preset {
    /// The configuration of this preset: the defaults, with silence handling,
    /// padding, speedup, audio enhancement, loudness and exports set for the use case.
    pub fn to_config(&self) -> (r: Config)
        ensures
            is_preset_config(r, *self),
    {
        let mut config = Config::default();
        match self {
            Preset::Youtube => {
                config.silence.mode = SilenceMode::Cut;
                config.silence.padding = FloatBits(0x3e19999a);
                config.audio.enhance = true;
                config.export.chapters = true;
                config.export.fcpxml = true;
            },
            Preset::Shorts => {
                config.silence.mode = SilenceMode::Speedup;
                config.silence.speedup_factor = FloatBits(0x40400000);
                config.silence.padding = FloatBits(0x3d4ccccd);
                config.audio.enhance = true;
                config.export.clips = true;
            },
            Preset::Podcast => {
                config.silence.mode = SilenceMode::Cut;
                config.silence.padding = FloatBits(0x3e4ccccd);
                config.audio.enhance = true;
                config.audio.target_lufs = FloatBits(0xc1800000);
                config.export.subtitles = true;
                config.export.captions = true;
            },
            Preset::Minimal => {
                config.silence.mode = SilenceMode::Cut;
                config.audio.enhance = false;
            },
        }
        config
    }

    /// The preset's name.
    pub fn as_str(&self) -> (r: &'static str)
        ensures
            r@ == preset_name(*self),
    {
        match self {
            Preset::Youtube => "youtube",
            Preset::Shorts => "shorts",
            Preset::Podcast => "podcast",
            Preset::Minimal => "minimal",
        }
    }

    /// The preset a lowercase name stands for (`preset_named`).
    pub fn from_lowercase_name(name: &str) -> (r: Option<Self>)
        ensures
            r == preset_named(name@),
    {
        if str_eq(name, "youtube") {
            Some(Preset::Youtube)
        } else if str_eq(name, "shorts") || str_eq(name, "tiktok") || str_eq(name, "reels") {
            Some(Preset::Shorts)
        } else if str_eq(name, "podcast") {
            Some(Preset::Podcast)
        } else if str_eq(name, "minimal") {
            Some(Preset::Minimal)
        } else {
            None
        }
    }

    /// Parses a preset name in any letter case; aliases `tiktok` and `reels` stand
    /// for Shorts.
    pub fn from_str(s: &str) -> (r: Option<Self>)
        ensures
            r == preset_named(lowercase_of(s@)),
            is_ascii_text(s@) ==> r == preset_named(ascii_lowered(s@)),
    {
        let lower = to_lowercase(s);
        Self::from_lowercase_name(lower.as_str())
    }
}

/// Every preset's name is read back as that preset, so a name written out with
/// `as_str` parses to the same preset.
pub proof fn lemma_preset_names_recognised(p: Preset)
    ensures
        preset_named(preset_name(p)) == Some(p),
{
    reveal_strlit("youtube");
    reveal_strlit("shorts");
    reveal_strlit("podcast");
    reveal_strlit("minimal");
    reveal_strlit("tiktok");
    reveal_strlit("reels");
    assert("shorts"@[0] != "youtube"@[0]);
    assert("podcast"@[0] != "youtube"@[0]);
    assert("podcast"@[0] != "shorts"@[0] && "podcast"@[0] != "tiktok"@[0] && "podcast"@[0] != "reels"@[0]);
    assert("minimal"@[0] != "youtube"@[0]);
    assert("minimal"@[0] != "shorts"@[0] && "minimal"@[0] != "tiktok"@[0] && "minimal"@[0] != "reels"@[0]);
    assert("minimal"@[0] != "podcast"@[0]);
}

/// A preset's name written out with `as_str` parses back to that preset: it is
/// ASCII text that lowercasing leaves as it is, and it is recognised.
pub proof fn lemma_preset_name_round_trip(p: Preset)
    ensures
        is_ascii_text(preset_name(p)),
        ascii_lowered(preset_name(p)) == preset_name(p),
        preset_named(ascii_lowered(preset_name(p))) == Some(p),
{
    reveal_strlit("youtube");
    reveal_strlit("shorts");
    reveal_strlit("podcast");
    reveal_strlit("minimal");
    assert(ascii_lowered(preset_name(p)) =~= preset_name(p));
    lemma_preset_names_recognised(p);
}

// ---------------------------------------------------------------------------
// Merging configuration sources
// ---------------------------------------------------------------------------

/// A numeric setting after a merge: the overriding value where it differs from the default.
pub open spec fn pick_bits(base: FloatBits, other: FloatBits, default: FloatBits) -> FloatBits {
    if other != default {
        other
    } else {
        base
    }
}

/// An optional setting after a merge: the overriding value where it is set.
pub open spec fn pick_opt<T>(base: Option<T>, other: Option<T>) -> Option<T> {
    if other is Some {
        other
    } else {
        base
    }
}

/// Silence settings after a merge.
pub open spec fn merged_silence(base: SilenceConfig, other: SilenceConfig) -> SilenceConfig {
    SilenceConfig {
        threshold_db: pick_bits(base.threshold_db, other.threshold_db, spec_default_threshold_db()),
        min_duration: pick_bits(base.min_duration, other.min_duration, spec_default_min_duration()),
        padding: pick_bits(base.padding, other.padding, spec_default_padding()),
        mode: if other.mode != SilenceMode::Cut {
            other.mode
        } else {
            base.mode
        },
        speedup_factor: pick_bits(
            base.speedup_factor,
            other.speedup_factor,
            spec_default_speedup_factor(),
        ),
        min_silence_for_speedup: pick_bits(
            base.min_silence_for_speedup,
            other.min_silence_for_speedup,
            spec_default_min_silence_for_speedup(),
        ),
    }
}

/// Filler-word settings after a merge.
pub open spec fn merged_filler_words(
    base: FillerWordsConfig,
    other: FillerWordsConfig,
) -> FillerWordsConfig {
    FillerWordsConfig {
        enabled: base.enabled && other.enabled,
        words: if other.words.len() > 0 {
            other.words
        } else {
            base.words
        },
        padding: pick_bits(base.padding, other.padding, spec_default_filler_padding()),
    }
}

/// Audio settings after a merge.
pub open spec fn merged_audio(base: AudioConfig, other: AudioConfig) -> AudioConfig {
    AudioConfig {
        enhance: base.enhance && other.enhance,
        noise_reduction: base.noise_reduction || other.noise_reduction,
        target_lufs: pick_bits(base.target_lufs, other.target_lufs, spec_default_target_lufs()),
        music_file: pick_opt(base.music_file, other.music_file),
        duck_volume: pick_bits(base.duck_volume, other.duck_volume, spec_default_duck_volume()),
    }
}

/// Export settings after a merge.
pub open spec fn merged_export(base: ExportConfig, other: ExportConfig) -> ExportConfig {
    ExportConfig {
        subtitles: base.subtitles || other.subtitles,
        captions: base.captions || other.captions,
        chapters: base.chapters || other.chapters,
        clips: base.clips || other.clips,
        clip_count: if other.clip_count != 3 {
            other.clip_count
        } else {
            base.clip_count
        },
        clip_min_duration: pick_bits(
            base.clip_min_duration,
            other.clip_min_duration,
            spec_default_clip_min_duration(),
        ),
        clip_max_duration: pick_bits(
            base.clip_max_duration,
            other.clip_max_duration,
            spec_default_clip_max_duration(),
        ),
        fcpxml: base.fcpxml || other.fcpxml,
        edl: base.edl || other.edl,
    }
}

/// Processing options after a merge.
pub open spec fn merged_processing(base: ProcessingConfig, other: ProcessingConfig) -> ProcessingConfig {
    ProcessingConfig {
        join_mode: if other.join_mode != JoinMode::Off {
            other.join_mode
        } else {
            base.join_mode
        },
        join_after_count: if other.join_after_count != 5 {
            other.join_after_count
        } else {
            base.join_after_count
        },
        join_output_pattern: if other.join_output_pattern@ != "joined_{date}.mp4"@ {
            other.join_output_pattern
        } else {
            base.join_output_pattern
        },
    }
}

/// Paths after a merge.
pub open spec fn merged_paths(base: PathsConfig, other: PathsConfig) -> PathsConfig {
    PathsConfig {
        input: pick_opt(base.input, other.input),
        input_dir: pick_opt(base.input_dir, other.input_dir),
        output: pick_opt(base.output, other.output),
        output_dir: pick_opt(base.output_dir, other.output_dir),
        music: pick_opt(base.music, other.music),
        music_dir: pick_opt(base.music_dir, other.music_dir),
        intro: pick_opt(base.intro, other.intro),
        outro: pick_opt(base.outro, other.outro),
        watch_folders: if other.watch_folders.len() > 0 {
            other.watch_folders
        } else {
            base.watch_folders
        },
    }
}

/// Watch settings after a merge.
pub open spec fn merged_watch(base: WatchConfig, other: WatchConfig) -> WatchConfig {
    WatchConfig {
        enabled: base.enabled || other.enabled,
        interval: if other.interval != 5 {
            other.interval
        } else {
            base.interval
        },
    }
}

/// Video settings after a merge.
pub open spec fn merged_video(base: VideoConfig, other: VideoConfig) -> VideoConfig {
    VideoConfig {
        stabilize: base.stabilize || other.stabilize,
        color_correct: base.color_correct || other.color_correct,
        reframe: base.reframe || other.reframe,
        blur_background: base.blur_background || other.blur_background,
    }
}

/// The whole configuration after `other` is merged over `base`, as `Config::merge`
/// computes it: `other` takes precedence wherever it sets a value. Numbers, texts,
/// the silence mode, join mode and counts that differ from their defaults (the
/// values a configuration file gets for settings it leaves out), a
/// disabled filler-word removal or audio enhancement, a non-empty word list, paths
/// and music files that are set, a non-empty folder list, and switched-on noise
/// reduction, exports, captions, clips, watch and video flags are taken from
/// `other`; where `other` leaves a setting at its default, `base`'s stays.
pub open spec fn merged(base: Config, other: Config) -> Config {
    Config {
        silence: merged_silence(base.silence, other.silence),
        filler_words: merged_filler_words(base.filler_words, other.filler_words),
        audio: merged_audio(base.audio, other.audio),
        export: merged_export(base.export, other.export),
        paths: merged_paths(base.paths, other.paths),
        watch: merged_watch(base.watch, other.watch),
        video: merged_video(base.video, other.video),
        processing: merged_processing(base.processing, other.processing),
    }
}

/// Whether `c` sets nothing that a merge would carry over: every number at its
/// default, cut mode, filler words and audio enhancement on, no words, no paths,
/// no music, no folders, no exports, watch and video flags off, default interval.
pub open spec fn overrides_nothing(c: Config) -> bool {
    &&& c.silence.threshold_db == spec_default_threshold_db()
    &&& c.silence.min_duration == spec_default_min_duration()
    &&& c.silence.padding == spec_default_padding()
    &&& c.silence.mode == SilenceMode::Cut
    &&& c.silence.speedup_factor == spec_default_speedup_factor()
    &&& c.silence.min_silence_for_speedup == spec_default_min_silence_for_speedup()
    &&& c.filler_words.enabled
    &&& c.filler_words.words.len() == 0
    &&& c.filler_words.padding == spec_default_filler_padding()
    &&& c.audio.enhance
    &&& !c.audio.noise_reduction
    &&& c.audio.target_lufs == spec_default_target_lufs()
    &&& c.audio.music_file is None
    &&& c.audio.duck_volume == spec_default_duck_volume()
    &&& !c.export.subtitles && !c.export.chapters && !c.export.fcpxml && !c.export.edl
    &&& !c.export.captions && !c.export.clips && c.export.clip_count == 3
    &&& c.export.clip_min_duration == spec_default_clip_min_duration()
    &&& c.export.clip_max_duration == spec_default_clip_max_duration()
    &&& c.processing.join_mode == JoinMode::Off && c.processing.join_after_count == 5
    &&& c.processing.join_output_pattern@ == "joined_{date}.mp4"@
    &&& c.paths.input is None && c.paths.input_dir is None && c.paths.output is None
    &&& c.paths.output_dir is None && c.paths.music is None && c.paths.music_dir is None
    &&& c.paths.intro is None && c.paths.outro is None
    &&& c.paths.watch_folders.len() == 0
    &&& !c.watch.enabled && c.watch.interval == 5
    &&& !c.video.stabilize && !c.video.color_correct && !c.video.reframe
        && !c.video.blur_background
}

fn merge_silence(base: SilenceConfig, other: SilenceConfig) -> (r: SilenceConfig)
    ensures
        r == merged_silence(base, other),
{
    let mut s = base;
    if other.threshold_db != default_threshold_db() {
        s.threshold_db = other.threshold_db;
    }
    if other.min_duration != default_min_duration() {
        s.min_duration = other.min_duration;
    }
    if other.padding != default_padding() {
        s.padding = other.padding;
    }
    if other.mode != SilenceMode::Cut {
        s.mode = other.mode;
    }
    if other.speedup_factor != default_speedup_factor() {
        s.speedup_factor = other.speedup_factor;
    }
    if other.min_silence_for_speedup != default_min_silence_for_speedup() {
        s.min_silence_for_speedup = other.min_silence_for_speedup;
    }
    s
}

fn merge_filler_words(base: FillerWordsConfig, other: FillerWordsConfig) -> (r: FillerWordsConfig)
    ensures
        r == merged_filler_words(base, other),
{
    let mut s = base;
    if !other.enabled {
        s.enabled = other.enabled;
    }
    if !other.words.is_empty() {
        s.words = other.words;
    }
    if other.padding != default_filler_padding() {
        s.padding = other.padding;
    }
    s
}

fn merge_audio(base: AudioConfig, other: AudioConfig) -> (r: AudioConfig)
    ensures
        r == merged_audio(base, other),
{
    let mut s = base;
    if !other.enhance {
        s.enhance = other.enhance;
    }
    if other.noise_reduction {
        s.noise_reduction = true;
    }
    if other.target_lufs != default_target_lufs() {
        s.target_lufs = other.target_lufs;
    }
    if other.music_file.is_some() {
        s.music_file = other.music_file;
    }
    if other.duck_volume != default_duck_volume() {
        s.duck_volume = other.duck_volume;
    }
    s
}

fn merge_export(base: ExportConfig, other: ExportConfig) -> (r: ExportConfig)
    ensures
        r == merged_export(base, other),
{
    let mut s = base;
    if other.subtitles {
        s.subtitles = true;
    }
    if other.captions {
        s.captions = true;
    }
    if other.chapters {
        s.chapters = true;
    }
    if other.clips {
        s.clips = true;
    }
    if other.clip_count != default_clip_count() {
        s.clip_count = other.clip_count;
    }
    if other.clip_min_duration != default_clip_min_duration() {
        s.clip_min_duration = other.clip_min_duration;
    }
    if other.clip_max_duration != default_clip_max_duration() {
        s.clip_max_duration = other.clip_max_duration;
    }
    if other.fcpxml {
        s.fcpxml = true;
    }
    if other.edl {
        s.edl = true;
    }
    s
}

fn merge_processing(base: ProcessingConfig, other: ProcessingConfig) -> (r: ProcessingConfig)
    ensures
        r == merged_processing(base, other),
{
    let ProcessingConfig { join_mode, join_after_count, join_output_pattern } = base;
    let ProcessingConfig {
        join_mode: o_mode,
        join_after_count: o_count,
        join_output_pattern: o_pattern,
    } = other;
    let join_mode = if o_mode != JoinMode::Off {
        o_mode
    } else {
        join_mode
    };
    let join_after_count = if o_count != default_join_after_count() {
        o_count
    } else {
        join_after_count
    };
    let join_output_pattern = if !str_eq(o_pattern.as_str(), "joined_{date}.mp4") {
        o_pattern
    } else {
        join_output_pattern
    };
    ProcessingConfig { join_mode, join_after_count, join_output_pattern }
}

fn merge_paths(base: PathsConfig, other: PathsConfig) -> (r: PathsConfig)
    ensures
        r == merged_paths(base, other),
{
    let mut s = base;
    if other.input.is_some() {
        s.input = other.input;
    }
    if other.input_dir.is_some() {
        s.input_dir = other.input_dir;
    }
    if other.output.is_some() {
        s.output = other.output;
    }
    if other.output_dir.is_some() {
        s.output_dir = other.output_dir;
    }
    if other.music.is_some() {
        s.music = other.music;
    }
    if other.music_dir.is_some() {
        s.music_dir = other.music_dir;
    }
    if other.intro.is_some() {
        s.intro = other.intro;
    }
    if other.outro.is_some() {
        s.outro = other.outro;
    }
    if !other.watch_folders.is_empty() {
        s.watch_folders = other.watch_folders;
    }
    s
}

fn merge_watch(base: WatchConfig, other: WatchConfig) -> (r: WatchConfig)
    ensures
        r == merged_watch(base, other),
{
    let mut s = base;
    if other.enabled {
        s.enabled = true;
    }
    if other.interval != default_watch_interval() {
        s.interval = other.interval;
    }
    s
}

fn merge_video(base: VideoConfig, other: VideoConfig) -> (r: VideoConfig)
    ensures
        r == merged_video(base, other),
{
    let mut s = base;
    if other.stabilize {
        s.stabilize = true;
    }
    if other.color_correct {
        s.color_correct = true;
    }
    if other.reframe {
        s.reframe = true;
    }
    if other.blur_background {
        s.blur_background = true;
    }
    s
}

impl Config {
    /// Merges another configuration into this one; `other` takes precedence where it
    /// sets a value (`merged`).
    pub fn merge(self, other: Self) -> (r: Self)
        ensures
            r == merged(self, other),
    {
        let Config { paths, silence, filler_words, audio, video, processing, export, watch } =
            self;
        let Config {
            paths: o_paths,
            silence: o_silence,
            filler_words: o_filler_words,
            audio: o_audio,
            video: o_video,
            processing: o_processing,
            export: o_export,
            watch: o_watch,
        } = other;
        Config {
            paths: merge_paths(paths, o_paths),
            silence: merge_silence(silence, o_silence),
            filler_words: merge_filler_words(filler_words, o_filler_words),
            audio: merge_audio(audio, o_audio),
            video: merge_video(video, o_video),
            processing: merge_processing(processing, o_processing),
            export: merge_export(export, o_export),
            watch: merge_watch(watch, o_watch),
        }
    }
}

proof fn lemma_merge_silence_associative(a: SilenceConfig, b: SilenceConfig, c: SilenceConfig)
    ensures
        merged_silence(merged_silence(a, b), c) == merged_silence(a, merged_silence(b, c)),
{
}

proof fn lemma_merge_filler_words_associative(
    a: FillerWordsConfig,
    b: FillerWordsConfig,
    c: FillerWordsConfig,
)
    ensures
        merged_filler_words(merged_filler_words(a, b), c) == merged_filler_words(
            a,
            merged_filler_words(b, c),
        ),
{
}

proof fn lemma_merge_audio_associative(a: AudioConfig, b: AudioConfig, c: AudioConfig)
    ensures
        merged_audio(merged_audio(a, b), c) == merged_audio(a, merged_audio(b, c)),
{
}

proof fn lemma_merge_export_associative(a: ExportConfig, b: ExportConfig, c: ExportConfig)
    ensures
        merged_export(merged_export(a, b), c) == merged_export(a, merged_export(b, c)),
{
}

proof fn lemma_merge_paths_associative(a: PathsConfig, b: PathsConfig, c: PathsConfig)
    ensures
        merged_paths(merged_paths(a, b), c) == merged_paths(a, merged_paths(b, c)),
{
}

/// Merging is associative: loading the global, project and command-line
/// configuration files one over the other gives the same configuration however
/// the merges are grouped.
pub proof fn lemma_merge_associative(a: Config, b: Config, c: Config)
    ensures
        merged(merged(a, b), c) == merged(a, merged(b, c)),
{
    lemma_merge_silence_associative(a.silence, b.silence, c.silence);
    lemma_merge_filler_words_associative(a.filler_words, b.filler_words, c.filler_words);
    lemma_merge_audio_associative(a.audio, b.audio, c.audio);
    lemma_merge_export_associative(a.export, b.export, c.export);
    lemma_merge_paths_associative(a.paths, b.paths, c.paths);
    assert(merged_watch(merged_watch(a.watch, b.watch), c.watch) == merged_watch(
        a.watch,
        merged_watch(b.watch, c.watch),
    ));
    assert(merged_video(merged_video(a.video, b.video), c.video) == merged_video(
        a.video,
        merged_video(b.video, c.video),
    ));
    assert(merged_processing(merged_processing(a.processing, b.processing), c.processing)
        == merged_processing(a.processing, merged_processing(b.processing, c.processing)));
}

/// Merging a configuration with itself changes nothing.
pub proof fn lemma_merge_idempotent(a: Config)
    ensures
        merged(a, a) == a,
{
    assert(merged_silence(a.silence, a.silence) == a.silence);
    assert(merged_filler_words(a.filler_words, a.filler_words) == a.filler_words);
    assert(merged_audio(a.audio, a.audio) == a.audio);
    assert(merged_export(a.export, a.export) == a.export);
    assert(merged_paths(a.paths, a.paths) == a.paths);
    assert(merged_watch(a.watch, a.watch) == a.watch);
    assert(merged_video(a.video, a.video) == a.video);
    assert(merged_processing(a.processing, a.processing) == a.processing);
}

/// Merging a configuration that sets nothing changes nothing.
pub proof fn lemma_merge_neutral(a: Config, n: Config)
    requires
        overrides_nothing(n),
    ensures
        merged(a, n) == a,
{
    assert(merged_silence(a.silence, n.silence) == a.silence);
    assert(merged_filler_words(a.filler_words, n.filler_words) == a.filler_words);
    assert(merged_audio(a.audio, n.audio) == a.audio);
    assert(merged_export(a.export, n.export) == a.export);
    assert(merged_paths(a.paths, n.paths) == a.paths);
    assert(merged_watch(a.watch, n.watch) == a.watch);
    assert(merged_video(a.video, n.video) == a.video);
    assert(merged_processing(a.processing, n.processing) == a.processing);
}

/// What an explicit setting replaces: `Some` wins over the current value.
pub open spec fn override_bits(current: FloatBits, cli: Option<FloatBits>) -> FloatBits {
    match cli {
        Some(v) => v,
        None => current,
    }
}

/// `config` with the command-line overrides applied: threshold, minimum duration
/// and padding where given, speedup mode when requested.
pub open spec fn with_cli_overrides(
    config: Config,
    threshold: Option<FloatBits>,
    duration: Option<FloatBits>,
    padding: Option<FloatBits>,
    speedup: bool,
) -> Config {
    Config {
        silence: SilenceConfig {
            threshold_db: override_bits(config.silence.threshold_db, threshold),
            min_duration: override_bits(config.silence.min_duration, duration),
            padding: override_bits(config.silence.padding, padding),
            mode: if speedup {
                SilenceMode::Speedup
            } else {
                config.silence.mode
            },
            ..config.silence
        },
        ..config
    }
}

/// Applies the command-line overrides, which take precedence over every
/// configuration file (`with_cli_overrides`).
pub fn apply_cli_overrides(
    config: Config,
    threshold: Option<FloatBits>,
    duration: Option<FloatBits>,
    padding: Option<FloatBits>,
    speedup: bool,
) -> (r: Config)
    ensures
        r == with_cli_overrides(config, threshold, duration, padding, speedup),
{
    let mut c = config;
    if let Some(t) = threshold {
        c.silence.threshold_db = t;
    }
    if let Some(d) = duration {
        c.silence.min_duration = d;
    }
    if let Some(p) = padding {
        c.silence.padding = p;
    }
    if speedup {
        c.silence.mode = SilenceMode::Speedup;
    }
    c
}

/// `config` with a watch folder's overrides applied where they are set.
pub open spec fn with_folder_settings(config: Config, s: FolderSettings) -> Config {
    Config {
        audio: AudioConfig {
            enhance: match s.enhance_audio {
                Some(e) => e,
                None => config.audio.enhance,
            },
            target_lufs: override_bits(config.audio.target_lufs, s.target_lufs),
            ..config.audio
        },
        silence: SilenceConfig {
            threshold_db: override_bits(config.silence.threshold_db, s.silence_threshold_db),
            ..config.silence
        },
        video: VideoConfig {
            stabilize: match s.stabilize {
                Some(b) => b,
                None => config.video.stabilize,
            },
            color_correct: match s.color_correct {
                Some(b) => b,
                None => config.video.color_correct,
            },
            reframe: match s.reframe {
                Some(b) => b,
                None => config.video.reframe,
            },
            blur_background: match s.blur_background {
                Some(b) => b,
                None => config.video.blur_background,
            },
        },
        ..config
    }
}

/// Applies a watch folder's overrides (`with_folder_settings`).
#[verifier::rlimit(40)]
pub fn apply_folder_settings(config: Config, s: &FolderSettings) -> (r: Config)
    ensures
        r == with_folder_settings(config, *s),
{
    let mut c = config;
    if let Some(enhance) = s.enhance_audio {
        c.audio.enhance = enhance;
    }
    if let Some(threshold) = s.silence_threshold_db {
        c.silence.threshold_db = threshold;
    }
    if let Some(lufs) = s.target_lufs {
        c.audio.target_lufs = lufs;
    }
    if let Some(stabilize) = s.stabilize {
        c.video.stabilize = stabilize;
    }
    if let Some(color_correct) = s.color_correct {
        c.video.color_correct = color_correct;
    }
    if let Some(reframe) = s.reframe {
        c.video.reframe = reframe;
    }
    if let Some(blur) = s.blur_background {
        c.video.blur_background = blur;
    }
    c
}

/// Whether a folder's videos have their silences removed: unless the folder
/// switches silence removal off.
pub open spec fn removes_silence(s: FolderSettings) -> bool {
    s.remove_silence != Some(false)
}

/// How the videos of a watch folder are processed: the configuration, and whether
/// silences are detected and handled at all. When they are not, the whole video is
/// kept as one segment at normal speed.
pub struct FolderJob {
    pub config: Config,
    pub remove_silence: bool,
}

/// Whether `j` is the job of a folder with preset `p` and overrides `s`: the
/// preset's configuration with the overrides applied (`is_preset_config_with`),
/// silence removal switched off exactly when the folder switches it off.
pub open spec fn is_folder_job_with(j: FolderJob, p: Preset, s: FolderSettings) -> bool {
    &&& is_preset_config_with(j.config, p, s)
    &&& j.remove_silence == removes_silence(s)
}

/// How the videos of a watch folder are processed: its preset's configuration with
/// its overrides applied, silence removal as the folder sets it, or `None` when the
/// preset name is unknown.
pub fn folder_config(folder: &WatchFolder) -> (r: Option<FolderJob>)
    ensures
        r is Some <==> preset_named(lowercase_of(folder.preset@)) is Some,
        r matches Some(j) ==> is_folder_job_with(
            j,
            preset_named(lowercase_of(folder.preset@)).unwrap(),
            folder.settings,
        ),
{
    match Preset::from_str(folder.preset.as_str()) {
        Some(preset) => {
            let remove_silence = match folder.settings.remove_silence {
                Some(false) => false,
                _ => true,
            };
            Some(
                FolderJob {
                    config: apply_folder_settings(preset.to_config(), &folder.settings),
                    remove_silence,
                },
            )
        },
        None => None,
    }
}

// ---------------------------------------------------------------------------
// Configuration layers
// ---------------------------------------------------------------------------

/// The configuration files merged over `base`: the project file, then the file
/// named on the command line, each where present.
pub open spec fn layered(base: Config, project: Option<Config>, explicit: Option<Config>) -> Config {
    let with_project = match project {
        Some(p) => merged(base, p),
        None => base,
    };
    match explicit {
        Some(e) => merged(with_project, e),
        None => with_project,
    }
}

impl Config {
    /// The configuration from its layers, later ones taking precedence: the global
    /// file (or the defaults when there is none), the project file, the file named
    /// on the command line, and last the command-line overrides.
    pub fn resolve_layers(
        global: Option<Config>,
        project: Option<Config>,
        explicit: Option<Config>,
        threshold: Option<FloatBits>,
        duration: Option<FloatBits>,
        padding: Option<FloatBits>,
        speedup: bool,
    ) -> (r: Config)
        ensures
            match global {
                Some(g) => r == with_cli_overrides(
                    layered(g, project, explicit),
                    threshold,
                    duration,
                    padding,
                    speedup,
                ),
                None => exists|d: Config|
                    is_default_config(d) && r == with_cli_overrides(
                        #[trigger] layered(d, project, explicit),
                        threshold,
                        duration,
                        padding,
                        speedup,
                    ),
            },
    {
        let base = match global {
            Some(g) => g,
            None => Config::default(),
        };
        let ghost b = base;
        let with_project = match project {
            Some(p) => base.merge(p),
            None => base,
        };
        let all = match explicit {
            Some(e) => with_project.merge(e),
            None => with_project,
        };
        let r = apply_cli_overrides(all, threshold, duration, padding, speedup);
        assert(r == with_cli_overrides(layered(b, project, explicit), threshold, duration, padding, speedup));
        r
    }

    /// The configuration file of the project in the working directory.
    pub fn project_config_path() -> (r: String)
        ensures
            r@ == "ai-vid-editor.toml"@,
    {
        "ai-vid-editor.toml".to_string()
    }

    /// The file of a named preset in the `presets` directory.
    pub fn preset_file_path(preset_name: &str) -> (r: String)
        ensures
            r@ == "presets/"@ + preset_name@ + ".toml"@,
    {
        let mut r = "presets/".to_string();
        r.append(preset_name);
        r.append(".toml");
        r
    }

    /// The preset names to offer: when the presets directory exists (`listing` is
    /// its entries, each a file stem and extension), the stems of its `.toml` files
    /// in string order; the built-in presets when it does not exist or holds no
    /// such file (`preset_listing`).
    pub fn available_presets(listing: Option<&Vec<(String, Option<String>)>>) -> (r: Vec<String>)
        ensures
            views(r@) == preset_listing(
                match listing {
                    Some(e) => Some(e@),
                    None => None,
                },
            ),
    {
        match listing {
            None => builtin_presets(),
            Some(entries) => {
                let stems = toml_stems(entries);
                let names = sort_strings(stems);
                if names.len() == 0 {
                    builtin_presets()
                } else {
                    names
                }
            },
        }
    }
}

/// A later configuration layer wins: every setting that the later layer sets
/// (a number, count or text other than its default, cut mode left for speed-up,
/// join mode other than off, a path, music file, word list or folder list that is
/// given) is the later layer's after the merge, and every setting it leaves at its
/// default keeps the earlier layer's value. Switches that default to off are on
/// when either layer switches them on; the two that default to on (filler-word
/// removal, audio enhancement) stay on only when both layers leave them on.
pub proof fn lemma_later_layer_wins(earlier: Config, later: Config)
    ensures
        ({
            let r = merged(earlier, later);
            let (e, l) = (earlier, later);
            &&& (l.silence.threshold_db != spec_default_threshold_db() ==> r.silence.threshold_db
                == l.silence.threshold_db)
            &&& (l.silence.threshold_db == spec_default_threshold_db() ==> r.silence.threshold_db
                == e.silence.threshold_db)
            &&& (l.silence.min_duration != spec_default_min_duration() ==> r.silence.min_duration
                == l.silence.min_duration)
            &&& (l.silence.min_duration == spec_default_min_duration() ==> r.silence.min_duration
                == e.silence.min_duration)
            &&& (l.silence.padding != spec_default_padding() ==> r.silence.padding
                == l.silence.padding)
            &&& (l.silence.padding == spec_default_padding() ==> r.silence.padding
                == e.silence.padding)
            &&& (l.silence.mode == SilenceMode::Speedup ==> r.silence.mode == SilenceMode::Speedup)
            &&& (l.silence.mode == SilenceMode::Cut ==> r.silence.mode == e.silence.mode)
            &&& (l.silence.speedup_factor != spec_default_speedup_factor()
                ==> r.silence.speedup_factor == l.silence.speedup_factor)
            &&& (l.silence.speedup_factor == spec_default_speedup_factor()
                ==> r.silence.speedup_factor == e.silence.speedup_factor)
            &&& (l.silence.min_silence_for_speedup != spec_default_min_silence_for_speedup()
                ==> r.silence.min_silence_for_speedup == l.silence.min_silence_for_speedup)
            &&& (l.silence.min_silence_for_speedup == spec_default_min_silence_for_speedup()
                ==> r.silence.min_silence_for_speedup == e.silence.min_silence_for_speedup)
            &&& r.filler_words.enabled == (e.filler_words.enabled && l.filler_words.enabled)
            &&& (l.filler_words.words.len() > 0 ==> r.filler_words.words == l.filler_words.words)
            &&& (l.filler_words.words.len() == 0 ==> r.filler_words.words == e.filler_words.words)
            &&& (l.filler_words.padding != spec_default_filler_padding()
                ==> r.filler_words.padding == l.filler_words.padding)
            &&& (l.filler_words.padding == spec_default_filler_padding()
                ==> r.filler_words.padding == e.filler_words.padding)
            &&& r.audio.enhance == (e.audio.enhance && l.audio.enhance)
            &&& r.audio.noise_reduction == (e.audio.noise_reduction || l.audio.noise_reduction)
            &&& (l.audio.target_lufs != spec_default_target_lufs() ==> r.audio.target_lufs
                == l.audio.target_lufs)
            &&& (l.audio.target_lufs == spec_default_target_lufs() ==> r.audio.target_lufs
                == e.audio.target_lufs)
            &&& (l.audio.music_file is Some ==> r.audio.music_file == l.audio.music_file)
            &&& (l.audio.music_file is None ==> r.audio.music_file == e.audio.music_file)
            &&& (l.audio.duck_volume != spec_default_duck_volume() ==> r.audio.duck_volume
                == l.audio.duck_volume)
            &&& (l.audio.duck_volume == spec_default_duck_volume() ==> r.audio.duck_volume
                == e.audio.duck_volume)
            &&& r.export.subtitles == (e.export.subtitles || l.export.subtitles)
            &&& r.export.captions == (e.export.captions || l.export.captions)
            &&& r.export.chapters == (e.export.chapters || l.export.chapters)
            &&& r.export.clips == (e.export.clips || l.export.clips)
            &&& r.export.fcpxml == (e.export.fcpxml || l.export.fcpxml)
            &&& r.export.edl == (e.export.edl || l.export.edl)
            &&& (l.export.clip_count != 3 ==> r.export.clip_count == l.export.clip_count)
            &&& (l.export.clip_count == 3 ==> r.export.clip_count == e.export.clip_count)
            &&& (l.export.clip_min_duration != spec_default_clip_min_duration()
                ==> r.export.clip_min_duration == l.export.clip_min_duration)
            &&& (l.export.clip_min_duration == spec_default_clip_min_duration()
                ==> r.export.clip_min_duration == e.export.clip_min_duration)
            &&& (l.export.clip_max_duration != spec_default_clip_max_duration()
                ==> r.export.clip_max_duration == l.export.clip_max_duration)
            &&& (l.export.clip_max_duration == spec_default_clip_max_duration()
                ==> r.export.clip_max_duration == e.export.clip_max_duration)
            &&& (l.processing.join_mode != JoinMode::Off ==> r.processing.join_mode
                == l.processing.join_mode)
            &&& (l.processing.join_mode == JoinMode::Off ==> r.processing.join_mode
                == e.processing.join_mode)
            &&& (l.processing.join_after_count != 5 ==> r.processing.join_after_count
                == l.processing.join_after_count)
            &&& (l.processing.join_after_count == 5 ==> r.processing.join_after_count
                == e.processing.join_after_count)
            &&& (l.processing.join_output_pattern@ != "joined_{date}.mp4"@
                ==> r.processing.join_output_pattern == l.processing.join_output_pattern)
            &&& (l.processing.join_output_pattern@ == "joined_{date}.mp4"@
                ==> r.processing.join_output_pattern == e.processing.join_output_pattern)
            &&& (l.paths.input is Some ==> r.paths.input == l.paths.input)
            &&& (l.paths.input is None ==> r.paths.input == e.paths.input)
            &&& (l.paths.input_dir is Some ==> r.paths.input_dir == l.paths.input_dir)
            &&& (l.paths.input_dir is None ==> r.paths.input_dir == e.paths.input_dir)
            &&& (l.paths.output is Some ==> r.paths.output == l.paths.output)
            &&& (l.paths.output is None ==> r.paths.output == e.paths.output)
            &&& (l.paths.output_dir is Some ==> r.paths.output_dir == l.paths.output_dir)
            &&& (l.paths.output_dir is None ==> r.paths.output_dir == e.paths.output_dir)
            &&& (l.paths.music is Some ==> r.paths.music == l.paths.music)
            &&& (l.paths.music is None ==> r.paths.music == e.paths.music)
            &&& (l.paths.music_dir is Some ==> r.paths.music_dir == l.paths.music_dir)
            &&& (l.paths.music_dir is None ==> r.paths.music_dir == e.paths.music_dir)
            &&& (l.paths.intro is Some ==> r.paths.intro == l.paths.intro)
            &&& (l.paths.intro is None ==> r.paths.intro == e.paths.intro)
            &&& (l.paths.outro is Some ==> r.paths.outro == l.paths.outro)
            &&& (l.paths.outro is None ==> r.paths.outro == e.paths.outro)
            &&& (l.paths.watch_folders.len() > 0 ==> r.paths.watch_folders
                == l.paths.watch_folders)
            &&& (l.paths.watch_folders.len() == 0 ==> r.paths.watch_folders
                == e.paths.watch_folders)
            &&& r.watch.enabled == (e.watch.enabled || l.watch.enabled)
            &&& (l.watch.interval != 5 ==> r.watch.interval == l.watch.interval)
            &&& (l.watch.interval == 5 ==> r.watch.interval == e.watch.interval)
            &&& r.video.stabilize == (e.video.stabilize || l.video.stabilize)
            &&& r.video.color_correct == (e.video.color_correct || l.video.color_correct)
            &&& r.video.reframe == (e.video.reframe || l.video.reframe)
            &&& r.video.blur_background == (e.video.blur_background || l.video.blur_background)
        }),
{
}

/// The command line wins over every file: each override given replaces what the
/// layers below set, and what is not given stays.
pub proof fn lemma_cli_wins(
    c: Config,
    threshold: Option<FloatBits>,
    duration: Option<FloatBits>,
    padding: Option<FloatBits>,
    speedup: bool,
)
    ensures
        ({
            let r = with_cli_overrides(c, threshold, duration, padding, speedup);
            &&& (threshold matches Some(t) ==> r.silence.threshold_db == t)
            &&& (threshold is None ==> r.silence.threshold_db == c.silence.threshold_db)
            &&& (duration matches Some(d) ==> r.silence.min_duration == d)
            &&& (duration is None ==> r.silence.min_duration == c.silence.min_duration)
            &&& (padding matches Some(p) ==> r.silence.padding == p)
            &&& (padding is None ==> r.silence.padding == c.silence.padding)
            &&& (speedup ==> r.silence.mode == SilenceMode::Speedup)
            &&& (!speedup ==> r.silence.mode == c.silence.mode)
            &&& r.audio == c.audio && r.export == c.export && r.video == c.video
            &&& r.paths == c.paths && r.watch == c.watch
        }),
{
}

/// The built-in preset names, in the order they are offered.
pub open spec fn builtin_preset_names() -> Seq<Seq<char>> {
    seq!["youtube"@, "shorts"@, "podcast"@, "minimal"@]
}

/// The stems of the entries whose extension is exactly `toml`, in order.
pub open spec fn preset_file_stems(entries: Seq<(String, Option<String>)>) -> Seq<Seq<char>>
    decreases entries.len(),
{
    if entries.len() == 0 {
        seq![]
    } else {
        let last = entries.last();
        preset_file_stems(entries.drop_last()) + if last.1 matches Some(e) && e@ == "toml"@ {
            seq![last.0@]
        } else {
            seq![]
        }
    }
}

/// The preset names offered for a presets directory that is missing (`None`) or
/// holds the given entries.
pub open spec fn preset_listing(listing: Option<Seq<(String, Option<String>)>>) -> Seq<Seq<char>> {
    match listing {
        None => builtin_preset_names(),
        Some(entries) => {
            let names = preset_file_stems(entries).sort_by(lex_order());
            if names.len() == 0 {
                builtin_preset_names()
            } else {
                names
            }
        },
    }
}

fn builtin_presets() -> (r: Vec<String>)
    ensures
        views(r@) == builtin_preset_names(),
{
    let mut v: Vec<String> = Vec::new();
    v.push("youtube".to_string());
    v.push("shorts".to_string());
    v.push("podcast".to_string());
    v.push("minimal".to_string());
    assert(views(v@) =~= builtin_preset_names());
    v
}

fn toml_stems(entries: &Vec<(String, Option<String>)>) -> (r: Vec<String>)
    ensures
        views(r@) == preset_file_stems(entries@),
{
    let mut r: Vec<String> = Vec::new();
    let mut i: usize = 0;
    while i < entries.len()
        invariant
            i <= entries.len(),
            views(r@) == preset_file_stems(entries@.take(i as int)),
        decreases entries.len() - i,
    {
        let is_toml = match &entries[i].1 {
            Some(e) => str_eq(e.as_str(), "toml"),
            None => false,
        };
        if is_toml {
            r.push(entries[i].0.clone());
        }
        proof {
            assert(entries@.take(i + 1).drop_last() =~= entries@.take(i as int));
            assert(entries@.take(i + 1).last() == entries@[i as int]);
            assert(views(r@) =~= preset_file_stems(entries@.take(i + 1)));
        }
        i = i + 1;
    }
    assert(entries@.take(entries.len() as int) =~= entries@);
    r
}

} // verus!

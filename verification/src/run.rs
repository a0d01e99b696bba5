//! What one run of the command-line program does, decided from its command line
//! and configuration: show the help, print a sample configuration, analyse
//! without processing, watch folders, or process a file or a directory; and the
//! feature switches of the command line applied to the configuration.

use vstd::prelude::*;
use crate::config::{AudioConfig, Config, ExportConfig, FillerWordsConfig, VideoConfig};

verus! {

/// What was asked for before any configuration is assembled.
#[derive(Clone, Copy, Debug, PartialEq, Eq, Structural)]
pub struct StartupFlags {
    /// An input file was given on the command line.
    pub input_file: bool,
    /// An input directory was given on the command line.
    pub input_dir: bool,
    /// A directory to watch was given on the command line.
    pub watch: bool,
    /// A sample configuration was asked for.
    pub generate_config: bool,
    /// A dry run was asked for.
    pub dry_run: bool,
    /// The configuration files switch on at least one watch folder.
    pub folders_enabled: bool,
}

/// The first decision of a run.
#[derive(Clone, Copy, Debug, PartialEq, Eq, Structural)]
pub enum StartupAction {
    /// Nothing to do: print the usage.
    ShowHelp,
    /// Print a sample configuration.
    GenerateConfig,
    /// Assemble the configuration and go on.
    Proceed,
}

/// The first decision: the usage when nothing at all was asked for, the sample
/// configuration when it was asked for, else on.
pub open spec fn startup_action_of(f: StartupFlags) -> StartupAction {
    if !f.input_file && !f.input_dir && !f.watch && !f.generate_config && !f.dry_run
        && !f.folders_enabled {
        StartupAction::ShowHelp
    } else if f.generate_config {
        StartupAction::GenerateConfig
    } else {
        StartupAction::Proceed
    }
}

/// Usage is printed only when there is nothing to do: as soon as an input file,
/// an input directory, a watched directory, a request for a sample configuration,
/// a dry run or enabled watch folders are given, the run does something. A sample
/// configuration is printed whenever one is asked for; otherwise the run goes on.
pub proof fn lemma_something_to_do(f: StartupFlags)
    ensures
        (startup_action_of(f) == StartupAction::ShowHelp) <==> !(f.input_file || f.input_dir
            || f.watch || f.generate_config || f.dry_run || f.folders_enabled),
        f.generate_config ==> startup_action_of(f) == StartupAction::GenerateConfig,
        (f.input_file || f.input_dir || f.watch || f.dry_run || f.folders_enabled)
            && !f.generate_config ==> startup_action_of(f) == StartupAction::Proceed,
{
}

/// The first decision of a run (`startup_action_of`).
pub fn startup_action(f: StartupFlags) -> (r: StartupAction)
    ensures
        r == startup_action_of(f),
        (r == StartupAction::ShowHelp) <==> !(f.input_file || f.input_dir || f.watch
            || f.generate_config || f.dry_run || f.folders_enabled),
        f.generate_config ==> r == StartupAction::GenerateConfig,
        (f.input_file || f.input_dir || f.watch || f.dry_run || f.folders_enabled)
            && !f.generate_config ==> r == StartupAction::Proceed,
{
    proof {
        lemma_something_to_do(f);
    }
    if !f.input_file && !f.input_dir && !f.watch && !f.generate_config && !f.dry_run
        && !f.folders_enabled {
        StartupAction::ShowHelp
    } else if f.generate_config {
        StartupAction::GenerateConfig
    } else {
        StartupAction::Proceed
    }
}

/// The feature switches of the command line; each one given turns its feature on.
#[derive(Clone, Copy, Debug, PartialEq, Eq, Structural)]
pub struct FeatureSwitches {
    pub enhance: bool,
    pub noise_reduction: bool,
    pub export_srt: bool,
    pub export_chapters: bool,
    pub export_fcpxml: bool,
    pub export_edl: bool,
    pub remove_fillers: bool,
    pub stabilize: bool,
    pub color_correct: bool,
    pub reframe: bool,
    pub blur_background: bool,
}

/// Whether `r` is `c` with the switches of `s` applied: every switch given turns
/// its setting on, every other setting is `c`'s.
pub open spec fn switched(c: Config, s: FeatureSwitches, r: Config) -> bool {
    &&& r.audio.enhance == (c.audio.enhance || s.enhance)
    &&& r.audio.noise_reduction == (c.audio.noise_reduction || s.noise_reduction)
    &&& r.audio.target_lufs == c.audio.target_lufs
    &&& r.audio.music_file == c.audio.music_file
    &&& r.audio.duck_volume == c.audio.duck_volume
    &&& r.export.subtitles == (c.export.subtitles || s.export_srt)
    &&& r.export.chapters == (c.export.chapters || s.export_chapters)
    &&& r.export.fcpxml == (c.export.fcpxml || s.export_fcpxml)
    &&& r.export.edl == (c.export.edl || s.export_edl)
    &&& r.export.captions == c.export.captions
    &&& r.export.clips == c.export.clips
    &&& r.export.clip_count == c.export.clip_count
    &&& r.export.clip_min_duration == c.export.clip_min_duration
    &&& r.export.clip_max_duration == c.export.clip_max_duration
    &&& r.filler_words.enabled == (c.filler_words.enabled || s.remove_fillers)
    &&& r.filler_words.words == c.filler_words.words
    &&& r.filler_words.padding == c.filler_words.padding
    &&& r.video.stabilize == (c.video.stabilize || s.stabilize)
    &&& r.video.color_correct == (c.video.color_correct || s.color_correct)
    &&& r.video.reframe == (c.video.reframe || s.reframe)
    &&& r.video.blur_background == (c.video.blur_background || s.blur_background)
    &&& r.silence == c.silence
    &&& r.paths == c.paths
    &&& r.processing == c.processing
    &&& r.watch == c.watch
}

/// Turns on the features switched on on the command line (`switched`).
pub fn apply_switches(config: Config, s: FeatureSwitches) -> (r: Config)
    ensures
        switched(config, s, r),
{
    let Config { paths, silence, filler_words, audio, video, processing, export, watch } = config;
    let audio = AudioConfig {
        enhance: audio.enhance || s.enhance,
        noise_reduction: audio.noise_reduction || s.noise_reduction,
        ..audio
    };
    let export = ExportConfig {
        subtitles: export.subtitles || s.export_srt,
        chapters: export.chapters || s.export_chapters,
        fcpxml: export.fcpxml || s.export_fcpxml,
        edl: export.edl || s.export_edl,
        ..export
    };
    let filler_words = FillerWordsConfig {
        enabled: filler_words.enabled || s.remove_fillers,
        ..filler_words
    };
    let video = VideoConfig {
        stabilize: video.stabilize || s.stabilize,
        color_correct: video.color_correct || s.color_correct,
        reframe: video.reframe || s.reframe,
        blur_background: video.blur_background || s.blur_background,
    };
    Config { paths, silence, filler_words, audio, video, processing, export, watch }
}

/// Where the background music comes from.
#[derive(Debug)]
pub enum MusicSource {
    /// This file.
    File(String),
    /// A track picked at random from this directory, if it exists and holds any.
    PickFrom(String),
    /// No music.
    Silent,
}

/// The music source: a music file (from the command line, else from the
/// configuration) wins over a music directory (likewise).
pub fn music_source(
    cli_music: Option<String>,
    config_music: Option<String>,
    cli_dir: Option<String>,
    config_dir: Option<String>,
) -> (r: MusicSource)
    ensures
        match (cli_music, config_music) {
            (Some(m), _) => r matches MusicSource::File(f) && f@ == m@,
            (None, Some(m)) => r matches MusicSource::File(f) && f@ == m@,
            (None, None) => match (cli_dir, config_dir) {
                (Some(d), _) => r matches MusicSource::PickFrom(p) && p@ == d@,
                (None, Some(d)) => r matches MusicSource::PickFrom(p) && p@ == d@,
                (None, None) => r is Silent,
            },
        },
{
    match cli_music {
        Some(m) => MusicSource::File(m),
        None => match config_music {
            Some(m) => MusicSource::File(m),
            None => match cli_dir {
                Some(d) => MusicSource::PickFrom(d),
                None => match config_dir {
                    Some(d) => MusicSource::PickFrom(d),
                    None => MusicSource::Silent,
                },
            },
        },
    }
}

/// Why a run cannot go on.
#[derive(Clone, Copy, Debug, PartialEq, Eq, Structural)]
pub enum RunError {
    /// A dry run needs an input on the command line.
    DryRunInput,
    /// Watching a single directory needs one.
    WatchDirectory,
    /// Watching needs an output directory.
    WatchOutput,
    /// Processing a file needs an output file.
    OutputFile,
    /// Processing a directory needs an output directory.
    OutputDirectory,
    /// Nothing to process.
    Input,
}

impl RunError {
    /// The message the program stops with.
    pub fn message(&self) -> (r: &'static str)
        ensures
            r@ == run_error_message(*self),
    {
        match self {
            RunError::DryRunInput => "Input file or directory required",
            RunError::WatchDirectory => "Watch directory required (set input_dir in config or use --watch)",
            RunError::WatchOutput => "Output directory required for watch mode",
            RunError::OutputFile => "Output file must be specified",
            RunError::OutputDirectory => "Output directory must be specified",
            RunError::Input => "Either an input file or an input directory must be specified (set in config or CLI).",
        }
    }
}

/// The message of each error.
pub open spec fn run_error_message(e: RunError) -> Seq<char> {
    match e {
        RunError::DryRunInput => "Input file or directory required"@,
        RunError::WatchDirectory => "Watch directory required (set input_dir in config or use --watch)"@,
        RunError::WatchOutput => "Output directory required for watch mode"@,
        RunError::OutputFile => "Output file must be specified"@,
        RunError::OutputDirectory => "Output directory must be specified"@,
        RunError::Input => "Either an input file or an input directory must be specified (set in config or CLI)."@,
    }
}

/// What the run does once its configuration is assembled.
#[derive(Debug)]
pub enum RunPlan {
    /// Analyse this input and report what processing would do.
    DryRun(String),
    /// Watch one directory, writing into an output directory.
    WatchDir { dir: String, output: String },
    /// Watch the configured watch folders.
    WatchFolders,
    /// Process one file.
    ProcessFile { input: String, output: String },
    /// Process every video of a directory.
    ProcessDir { input: String, output: String },
    /// Stop with an error.
    Refuse(RunError),
}

/// What the run has to go on: the command line's dry-run switch, input (file, else
/// directory) and watch directory, whether watching is on in the configuration or
/// any watch folder is switched on, and the paths, each from the command line or
/// else from the configuration.
pub struct RunRequest {
    pub dry_run: bool,
    pub cli_input: Option<String>,
    pub watch_flag: Option<String>,
    pub watch_enabled: bool,
    pub folders_enabled: bool,
    pub input_file: Option<String>,
    pub input_dir: Option<String>,
    pub output_file: Option<String>,
    pub output_dir: Option<String>,
}

/// What the run does: a dry run when asked for; watching when the command line
/// names a directory to watch, watching is on in the configuration, or a watch
/// folder is switched on (the named directory first, then the folders, then the
/// input directory); otherwise the input file, else the input directory; each
/// refused when the path it needs is missing.
pub open spec fn plan_is(q: RunRequest, r: RunPlan) -> bool {
    if q.dry_run {
        match q.cli_input {
            Some(i) => r matches RunPlan::DryRun(x) && x@ == i@,
            None => r == RunPlan::Refuse(RunError::DryRunInput),
        }
    } else if q.watch_flag is Some || q.watch_enabled || q.folders_enabled {
        if q.watch_flag is Some {
            match q.output_dir {
                Some(o) => r matches RunPlan::WatchDir { dir, output } && dir@ == q.watch_flag->0@
                    && output@ == o@,
                None => r == RunPlan::Refuse(RunError::WatchOutput),
            }
        } else if q.folders_enabled {
            r is WatchFolders
        } else {
            match (q.input_dir, q.output_dir) {
                (Some(d), Some(o)) => r matches RunPlan::WatchDir { dir, output } && dir@ == d@
                    && output@ == o@,
                (Some(_), None) => r == RunPlan::Refuse(RunError::WatchOutput),
                (None, _) => r == RunPlan::Refuse(RunError::WatchDirectory),
            }
        }
    } else {
        match (q.input_file, q.output_file, q.input_dir, q.output_dir) {
            (Some(i), Some(o), _, _) => r matches RunPlan::ProcessFile { input, output } && input@
                == i@ && output@ == o@,
            (Some(_), None, _, _) => r == RunPlan::Refuse(RunError::OutputFile),
            (None, _, Some(d), Some(o)) => r matches RunPlan::ProcessDir { input, output } && input@
                == d@ && output@ == o@,
            (None, _, Some(_), None) => r == RunPlan::Refuse(RunError::OutputDirectory),
            (None, _, None, _) => r == RunPlan::Refuse(RunError::Input),
        }
    }
}

/// What the run does (`plan_is`).
pub fn plan_run(q: RunRequest) -> (r: RunPlan)
    ensures
        plan_is(q, r),
{
    let RunRequest {
        dry_run,
        cli_input,
        watch_flag,
        watch_enabled,
        folders_enabled,
        input_file,
        input_dir,
        output_file,
        output_dir,
    } = q;
    if dry_run {
        return match cli_input {
            Some(i) => RunPlan::DryRun(i),
            None => RunPlan::Refuse(RunError::DryRunInput),
        };
    }
    if watch_flag.is_some() || watch_enabled || folders_enabled {
        return match watch_flag {
            Some(w) => match output_dir {
                Some(o) => RunPlan::WatchDir { dir: w, output: o },
                None => RunPlan::Refuse(RunError::WatchOutput),
            },
            None => if folders_enabled {
                RunPlan::WatchFolders
            } else {
                match input_dir {
                    Some(d) => match output_dir {
                        Some(o) => RunPlan::WatchDir { dir: d, output: o },
                        None => RunPlan::Refuse(RunError::WatchOutput),
                    },
                    None => RunPlan::Refuse(RunError::WatchDirectory),
                }
            },
        };
    }
    match input_file {
        Some(i) => match output_file {
            Some(o) => RunPlan::ProcessFile { input: i, output: o },
            None => RunPlan::Refuse(RunError::OutputFile),
        },
        None => match input_dir {
            Some(d) => match output_dir {
                Some(o) => RunPlan::ProcessDir { input: d, output: o },
                None => RunPlan::Refuse(RunError::OutputDirectory),
            },
            None => RunPlan::Refuse(RunError::Input),
        },
    }
}

} // verus!

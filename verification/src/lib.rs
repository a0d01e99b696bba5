//! Verified core of an automated video editor: configuration layers and presets,
//! what a run does, silence-report parsing, ffmpeg filter graphs and argument
//! lists, the processing pipeline, export documents, watch-folder bookkeeping and
//! the texts shown to the user.

pub mod text;
pub mod order;
pub mod silence;
pub mod config;
pub mod filters;
pub mod pipeline;
pub mod export;
pub mod display;
pub mod folders;
pub mod watch;
pub mod commands;
pub mod run;
pub mod speech;
pub mod loudness;

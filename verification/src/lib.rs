use vstd::prelude::*;

pub mod args;
pub mod audio;
pub mod commands;
pub mod error;
pub mod file_set;
pub mod names;
pub mod presets;
pub mod report_text;
pub mod session;
pub mod signal;
pub mod spectral;
pub mod suite;
pub mod suite_report;
pub mod sweep;
pub mod text;
pub mod wav;
pub mod wav_info;


//! The command line of the tool: one subcommand and its arguments. Paths are
//! held as the text given on the command line.
use vstd::prelude::*;

verus! {

/// The parsed command line.
#[derive(Debug)]
pub struct Cli {
    pub command: Command,
}

/// The subcommands.
#[derive(Debug)]
pub enum Command {
    /// Compare band energy between two WAV files.
    Bec(BecArgs),
    /// Show the band energy of one WAV file.
    Energy(EnergyArgs),
    /// Generate WAV test signals.
    Gen(GenArgs),
    /// Show WAV file metadata and comparison preflight checks.
    Info(InfoArgs),
    /// Analyze a processed noise test file.
    Noise(NoiseArgs),
    /// Analyze a processed sine test file.
    Sine(SineArgs),
    /// Analyze a processed log sweep test file.
    Sweep(SweepArgs),
    /// Analyze a processed two-tone intermodulation test file.
    Twotone(TwotoneArgs),
    /// Compare a target and a candidate directory against an input directory.
    CompareSuite(CompareSuiteArgs),
}

/// Arguments of `bec`.
#[derive(Debug)]
pub struct BecArgs {
    /// Reference WAV file.
    pub target_wav_path: String,
    /// Candidate WAV file to compare against the reference.
    pub candidate_wav_path: String,
}

/// Arguments of `energy`.
#[derive(Debug)]
pub struct EnergyArgs {
    /// WAV file to analyze.
    pub wav_path: String,
}

/// Arguments of `gen`.
#[derive(Debug)]
pub struct GenArgs {
    /// Signal group or exact preset to generate: all, sine, sweep, noise, or a
    /// preset name like sine_1000_-36.
    pub target: String,
    /// Directory where generated WAV files will be written.
    pub output_dir: String,
}

/// Arguments of `info`.
#[derive(Debug)]
pub struct InfoArgs {
    /// WAV files to inspect.
    pub wav_paths: Vec<String>,
}

/// Arguments of `noise`.
#[derive(Debug)]
pub struct NoiseArgs {
    /// Input WAV file with the source noise test signal.
    pub input: String,
    /// Output WAV file after processing through the device or amp.
    pub output: String,
}

/// Arguments of `sine`.
#[derive(Debug)]
pub struct SineArgs {
    /// Input WAV file with the source sine test signal.
    pub input: String,
    /// Output WAV file after processing through the device or amp.
    pub output: String,
}

/// Arguments of `sweep`.
#[derive(Debug)]
pub struct SweepArgs {
    /// Input WAV file with the source log sweep test signal.
    pub input: String,
    /// Output WAV file after processing through the device or amp.
    pub output: String,
}

/// Arguments of `twotone`.
#[derive(Debug)]
pub struct TwotoneArgs {
    /// Input WAV file with the source two-tone test signal.
    pub input: String,
    /// Output WAV file after processing through the device or amp.
    pub output: String,
}

/// Arguments of `compare-suite`.
#[derive(Debug)]
pub struct CompareSuiteArgs {
    /// Directory with the source test signals.
    pub input_dir: String,
    /// Directory with the reference device's recordings.
    pub target_dir: String,
    /// Directory with the candidate device's recordings.
    pub candidate_dir: String,
    /// Directory where report.txt and report.json are written.
    pub report_dir: String,
}

} // verus!

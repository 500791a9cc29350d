//! The `energy` command: the third-octave band energy of one WAV file.
use vstd::prelude::*;
use crate::args::EnergyArgs;
use crate::error::{ErrorKind, Failure};
use crate::spectral::{band_length_message, check_band_energy_length, BAND_FFT_SIZE};
use crate::report_text::{banner, report_header};
use crate::text::string_from;

verus! {

/// Where the command stands.
#[derive(Clone, Copy, Debug, PartialEq, Eq, Structural)]
pub enum EnergyPhase {
    Ready,
    Loading,
    Analyzing,
    Finished,
    Failed,
}

/// What happened since the last step.
#[derive(Debug)]
pub enum EnergyEvent {
    /// The command starts.
    Start,
    /// The file was loaded; its first channel has this many samples.
    Loaded { mono_sample_count: usize },
    /// The band energy was computed.
    Analyzed,
    /// Loading or analysis failed.
    Failed(Failure),
}

/// What the caller does next.
#[derive(Debug)]
pub enum EnergyAction {
    /// Load the WAV file at this path.
    Load(String),
    /// Compute the band energy of the first channel.
    Analyze,
    /// Print the report, opening with this banner; the command is done.
    Print(String),
    /// Stop with this error.
    Fail(Failure),
    /// The event does not fit the phase; nothing to do.
    Ignore,
}

/// The step of `energy`, as the contract of `run` states it.
pub open spec fn energy_step_spec(path: Seq<char>, old: EnergyPhase, new: EnergyPhase, event: EnergyEvent, action: EnergyAction) -> bool {
    match event {
        EnergyEvent::Start => if old == EnergyPhase::Ready {
            &&& new == EnergyPhase::Loading
            &&& action matches EnergyAction::Load(p) && p@ == path
        } else {
            new == old && action is Ignore
        },
        EnergyEvent::Loaded { mono_sample_count } => if old == EnergyPhase::Loading {
            if mono_sample_count >= BAND_FFT_SIZE {
                new == EnergyPhase::Analyzing && action is Analyze
            } else {
                &&& new == EnergyPhase::Failed
                &&& action matches EnergyAction::Fail(f) && f.kind == ErrorKind::InvalidData
                    && f.message@ == band_length_message(mono_sample_count as nat)
            }
        } else {
            new == old && action is Ignore
        },
        EnergyEvent::Analyzed => if old == EnergyPhase::Analyzing {
            new == EnergyPhase::Finished && (action matches EnergyAction::Print(b) && b@ == banner("BAND ENERGY"@, 52))
        } else {
            new == old && action is Ignore
        },
        EnergyEvent::Failed(f) => new == EnergyPhase::Failed && action == EnergyAction::Fail(f),
    }
}

/// One step of `energy`: load the file, check that it is long enough for one
/// FFT block, have the band energy computed, print.
pub fn run(args: &EnergyArgs, phase: &mut EnergyPhase, event: EnergyEvent) -> (action: EnergyAction)
    ensures
        energy_step_spec(args.wav_path@, *old(phase), *final(phase), event, action),
{
    match event {
        EnergyEvent::Start => {
            if *phase != EnergyPhase::Ready {
                return EnergyAction::Ignore;
            }
            *phase = EnergyPhase::Loading;
            EnergyAction::Load(string_from(args.wav_path.as_str()))
        },
        EnergyEvent::Loaded { mono_sample_count } => {
            if *phase != EnergyPhase::Loading {
                return EnergyAction::Ignore;
            }
            match check_band_energy_length(mono_sample_count) {
                Ok(()) => {
                    *phase = EnergyPhase::Analyzing;
                    EnergyAction::Analyze
                },
                Err(f) => {
                    *phase = EnergyPhase::Failed;
                    EnergyAction::Fail(f)
                },
            }
        },
        EnergyEvent::Analyzed => {
            if *phase != EnergyPhase::Analyzing {
                return EnergyAction::Ignore;
            }
            *phase = EnergyPhase::Finished;
            EnergyAction::Print(report_header("BAND ENERGY", 52))
        },
        EnergyEvent::Failed(f) => {
            *phase = EnergyPhase::Failed;
            EnergyAction::Fail(f)
        },
    }
}

} // verus!

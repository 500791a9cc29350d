//! The course of an analysis command that compares an input test file with
//! its processed output (`sine`, `sweep`, `noise`, `twotone`): load the
//! input, load the output, check that they share a sample rate, read what the
//! input's file name says about the signal, analyze, print. Loading,
//! analyzing and printing are done by the caller; this state machine decides
//! what comes next.
use vstd::prelude::*;
use crate::error::{ErrorKind, Failure};
use crate::names::{
    check_same_sample_rate, sample_rate_mismatch_message, sine_frequency_token, sine_token_of,
    sweep_frequency_tokens, sweep_name_error, sweep_name_message, sweep_tokens_of,
    twotone_frequency_tokens, twotone_name_error, twotone_name_message, twotone_tokens_of,
    FrequencyToken,
};
use crate::report_text::{banner, report_header};
use crate::text::string_from;

verus! {

/// Which analysis a pair command runs.
#[derive(Clone, Copy, Debug, PartialEq, Eq, Structural)]
pub enum PairKind {
    Sine,
    Sweep,
    Noise,
    Twotone,
}

/// Where a pair command stands.
#[derive(Clone, Copy, Debug, PartialEq, Eq, Structural)]
pub enum Phase {
    Ready,
    LoadingInput,
    LoadingOutput,
    Analyzing,
    Finished,
    Failed,
}

/// The state of a pair command: its phase, and the sample rate and file name
/// of the input once loaded.
#[derive(Debug)]
pub struct PairSession {
    pub phase: Phase,
    pub input_sample_rate: u32,
    pub input_id: String,
}

/// What happened since the last step.
#[derive(Debug)]
pub enum PairEvent {
    /// The command starts.
    Start,
    /// The input file was loaded.
    InputLoaded { sample_rate: u32, id: String },
    /// The output file was loaded.
    OutputLoaded { sample_rate: u32 },
    /// The analysis succeeded.
    Analyzed,
    /// Loading or analysis failed.
    Failed(Failure),
}

/// What the input file name says about the signal, for the analysis.
#[derive(Debug)]
pub enum NameHint {
    /// The frequency token of a sine file name, if it has one (otherwise the
    /// frequency is estimated from the samples).
    Sine(Option<FrequencyToken>),
    /// The start and end tokens of a sweep file name, or the error to report
    /// once the samples are found valid.
    Sweep(Result<(FrequencyToken, FrequencyToken), Failure>),
    /// Noise analysis reads nothing from the name.
    Noise,
    /// The two tokens of a two-tone file name, or the error to report once the
    /// samples are found valid.
    Twotone(Result<(FrequencyToken, FrequencyToken), Failure>),
}

/// What the caller does next.
#[derive(Debug)]
pub enum PairAction {
    /// Load the input file at this path.
    LoadInput(String),
    /// Load the output file at this path.
    LoadOutput(String),
    /// Analyze the loaded pair.
    Analyze(NameHint),
    /// Print the report of the analysis, opening with this banner; the
    /// command is done.
    Print(String),
    /// Stop with this error.
    Fail(Failure),
    /// The event does not fit the phase; nothing to do.
    Ignore,
}

/// `hint` is what `kind` reads from the input file name `id`.
pub open spec fn hint_matches(kind: PairKind, id: Seq<char>, hint: NameHint) -> bool {
    match kind {
        PairKind::Sine => hint matches NameHint::Sine(t) && match sine_token_of(id) {
            Some(v) => t matches Some(x) && x@ == v,
            None => t is None,
        },
        PairKind::Sweep => hint matches NameHint::Sweep(r) && match sweep_tokens_of(id) {
            Some((a, b)) => r matches Ok((x, y)) && x@ == a && y@ == b,
            None => r matches Err(f) && f.kind == ErrorKind::InvalidInput && f.message@
                == sweep_name_message(id),
        },
        PairKind::Noise => hint is Noise,
        PairKind::Twotone => hint matches NameHint::Twotone(r) && match twotone_tokens_of(id) {
            Some((a, b)) => r matches Ok((x, y)) && x@ == a && y@ == b,
            None => r matches Err(f) && f.kind == ErrorKind::InvalidInput && f.message@
                == twotone_name_message(id),
        },
    }
}

/// Whether `event` fits phase `phase`.
pub open spec fn event_fits(phase: Phase, event: PairEvent) -> bool {
    match event {
        PairEvent::Start => phase == Phase::Ready,
        PairEvent::InputLoaded { .. } => phase == Phase::LoadingInput,
        PairEvent::OutputLoaded { .. } => phase == Phase::LoadingOutput,
        PairEvent::Analyzed => phase == Phase::Analyzing,
        PairEvent::Failed(_) => true,
    }
}

/// The title of the report of `kind`.
pub open spec fn report_title(kind: PairKind) -> Seq<char> {
    match kind {
        PairKind::Sine => "SINE ANALYSIS"@,
        PairKind::Sweep => "SWEEP ANALYSIS"@,
        PairKind::Noise => "NOISE ANALYSIS"@,
        PairKind::Twotone => "TWO-TONE ANALYSIS"@,
    }
}

/// The width of the banner of the report of `kind`.
pub open spec fn report_width(kind: PairKind) -> nat {
    match kind {
        PairKind::Sine | PairKind::Sweep => 56,
        PairKind::Noise | PairKind::Twotone => 52,
    }
}

/// The banner that opens the report of `kind`.
pub fn report_banner(kind: PairKind) -> (r: String)
    ensures
        r@ == banner(report_title(kind), report_width(kind)),
{
    match kind {
        PairKind::Sine => report_header("SINE ANALYSIS", 56),
        PairKind::Sweep => report_header("SWEEP ANALYSIS", 56),
        PairKind::Noise => report_header("NOISE ANALYSIS", 52),
        PairKind::Twotone => report_header("TWO-TONE ANALYSIS", 52),
    }
}

/// The step of a pair command, as the contract of `pair_step` states it.
pub open spec fn pair_step_spec(
    kind: PairKind,
    input: Seq<char>,
    output: Seq<char>,
    old: PairSession,
    new: PairSession,
    event: PairEvent,
    action: PairAction,
) -> bool {
    if !event_fits(old.phase, event) {
        new == old && action is Ignore
    } else {
        match event {
            PairEvent::Start => {
                &&& new.phase == Phase::LoadingInput
                &&& new.input_sample_rate == old.input_sample_rate
                &&& new.input_id == old.input_id
                &&& action matches PairAction::LoadInput(p) && p@ == input
            },
            PairEvent::InputLoaded { sample_rate, id } => {
                &&& new.phase == Phase::LoadingOutput
                &&& new.input_sample_rate == sample_rate
                &&& new.input_id@ == id@
                &&& action matches PairAction::LoadOutput(p) && p@ == output
            },
            PairEvent::OutputLoaded { sample_rate } => {
                &&& new.input_sample_rate == old.input_sample_rate
                &&& new.input_id == old.input_id
                &&& if sample_rate != old.input_sample_rate {
                    &&& new.phase == Phase::Failed
                    &&& action matches PairAction::Fail(f) && f.kind == ErrorKind::InvalidInput
                        && f.message@ == sample_rate_mismatch_message(old.input_sample_rate, sample_rate)
                } else {
                    &&& new.phase == Phase::Analyzing
                    &&& action matches PairAction::Analyze(h) && hint_matches(kind, old.input_id@, h)
                }
            },
            PairEvent::Analyzed => {
                &&& new.phase == Phase::Finished
                &&& new.input_sample_rate == old.input_sample_rate
                &&& new.input_id == old.input_id
                &&& action matches PairAction::Print(b) && b@ == banner(report_title(kind), report_width(kind))
            },
            PairEvent::Failed(f) => {
                &&& new.phase == Phase::Failed
                &&& new.input_sample_rate == old.input_sample_rate
                &&& new.input_id == old.input_id
                &&& action == PairAction::Fail(f)
            },
        }
    }
}

impl PairSession {
    /// A command that has not started.
    pub fn new() -> (r: PairSession)
        ensures
            r.phase == Phase::Ready,
            r.input_sample_rate == 0,
            r.input_id@ == Seq::<char>::empty(),
    {
        PairSession { phase: Phase::Ready, input_sample_rate: 0, input_id: String::new() }
    }
}

/// What the analysis of `kind` reads from the input file name `id`.
fn name_hint(kind: PairKind, id: &str) -> (h: NameHint)
    ensures
        hint_matches(kind, id@, h),
{
    match kind {
        PairKind::Sine => NameHint::Sine(sine_frequency_token(id)),
        PairKind::Sweep => match sweep_frequency_tokens(id) {
            Some(t) => NameHint::Sweep(Ok(t)),
            None => NameHint::Sweep(Err(sweep_name_error(id))),
        },
        PairKind::Noise => NameHint::Noise,
        PairKind::Twotone => match twotone_frequency_tokens(id) {
            Some(t) => NameHint::Twotone(Ok(t)),
            None => NameHint::Twotone(Err(twotone_name_error(id))),
        },
    }
}

/// One step of a pair command: from the session and what happened, the next
/// session and what to do.
pub fn pair_step(kind: PairKind, input: &str, output: &str, session: &mut PairSession, event: PairEvent) -> (action: PairAction)
    ensures
        pair_step_spec(kind, input@, output@, *old(session), *final(session), event, action),
{
    match event {
        PairEvent::Start => {
            if session.phase != Phase::Ready {
                return PairAction::Ignore;
            }
            session.phase = Phase::LoadingInput;
            PairAction::LoadInput(string_from(input))
        },
        PairEvent::InputLoaded { sample_rate, id } => {
            if session.phase != Phase::LoadingInput {
                return PairAction::Ignore;
            }
            session.phase = Phase::LoadingOutput;
            session.input_sample_rate = sample_rate;
            session.input_id = id;
            PairAction::LoadOutput(string_from(output))
        },
        PairEvent::OutputLoaded { sample_rate } => {
            if session.phase != Phase::LoadingOutput {
                return PairAction::Ignore;
            }
            match check_same_sample_rate(session.input_sample_rate, sample_rate) {
                Err(f) => {
                    session.phase = Phase::Failed;
                    PairAction::Fail(f)
                },
                Ok(()) => {
                    session.phase = Phase::Analyzing;
                    PairAction::Analyze(name_hint(kind, session.input_id.as_str()))
                },
            }
        },
        PairEvent::Analyzed => {
            if session.phase != Phase::Analyzing {
                return PairAction::Ignore;
            }
            session.phase = Phase::Finished;
            PairAction::Print(report_banner(kind))
        },
        PairEvent::Failed(f) => {
            session.phase = Phase::Failed;
            PairAction::Fail(f)
        },
    }
}

/// A pair command that follows its course loads the input, then the output,
/// and analyzes only files of one sample rate.
pub proof fn law_analysis_only_at_one_rate(
    kind: PairKind,
    input: Seq<char>,
    output: Seq<char>,
    old: PairSession,
    new: PairSession,
    event: PairEvent,
    action: PairAction,
)
    requires
        pair_step_spec(kind, input, output, old, new, event, action),
        action is Analyze,
    ensures
        old.phase == Phase::LoadingOutput,
        event matches PairEvent::OutputLoaded { sample_rate } && sample_rate == old.input_sample_rate,
{
}

} // verus!

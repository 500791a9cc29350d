//! The `gen` command: select the presets named by the target, create the
//! output directory, announce the run, then render and write each preset and
//! say where it went. Rendering, writing and printing are done by the caller;
//! this state machine decides what comes next.
use vstd::prelude::*;
use crate::args::GenArgs;
use crate::error::Failure;
use crate::presets::{
    models, select, select_presets, PresetModel, SignalPreset, UnknownPreset, BITS_PER_SAMPLE,
    CHANNELS, FADE_MS, SAMPLE_RATE,
};
use crate::text::{decimal, push_decimal, push_str, string_from};

verus! {

/// Where the command stands.
#[derive(Clone, Copy, Debug, PartialEq, Eq, Structural)]
pub enum GenPhase {
    Ready,
    CreatingDir,
    Announcing,
    Writing,
    Reporting,
    Finished,
    Failed,
}

/// The state of the command: its phase, the presets to write and how many
/// have been written.
#[derive(Debug)]
pub struct GenSession {
    pub phase: GenPhase,
    pub presets: Vec<SignalPreset>,
    pub written: usize,
}

/// What happened since the last step.
#[derive(Debug)]
pub enum GenEvent {
    /// The command starts.
    Start,
    /// The output directory exists now.
    DirCreated,
    /// The line last asked for was printed.
    Printed,
    /// The preset last asked for was written to the file at this path.
    Written { path: String },
    /// Creating the directory, rendering or writing failed.
    Failed(Failure),
}

/// What the caller does next.
#[derive(Debug)]
pub enum GenAction {
    /// Create the directory at this path (and its parents).
    CreateDir(String),
    /// Print this line.
    Print(String),
    /// Render this preset and write it into the output directory.
    Write(SignalPreset),
    /// The command is done.
    Done,
    /// The target names no group and no preset.
    UnknownTarget(UnknownPreset),
    /// Stop with this error.
    Fail(Failure),
    /// The event does not fit the phase; nothing to do.
    Ignore,
}

impl GenSession {
    /// A command that has not started.
    pub fn new() -> (r: GenSession)
        ensures
            r.phase == GenPhase::Ready,
            r.presets@.len() == 0,
            r.written == 0,
    {
        GenSession { phase: GenPhase::Ready, presets: Vec::new(), written: 0 }
    }
}

/// The line that announces a run of `count` files.
pub open spec fn announcement(count: nat) -> Seq<char> {
    "Generating "@ + decimal(count) + " file(s): sample_rate="@ + decimal(SAMPLE_RATE as nat)
        + "Hz bits="@ + decimal(BITS_PER_SAMPLE as nat) + " float channels="@ + decimal(
        CHANNELS as nat,
    ) + " fade="@ + decimal(FADE_MS as nat) + "ms"@
}

/// The line printed once a file is written at `path`.
pub open spec fn wrote_line(path: Seq<char>) -> Seq<char> {
    "Wrote "@ + path
}

/// Once `written` presets of `presets` are written: the next one to write,
/// or the end of the command.
pub open spec fn next_write(presets: Seq<PresetModel>, written: int, phase: GenPhase, action: GenAction) -> bool {
    if written < presets.len() {
        phase == GenPhase::Writing && (action matches GenAction::Write(p) && p@ == presets[written])
    } else {
        phase == GenPhase::Finished && action is Done
    }
}

/// The step of `gen`, as the contract of `run` states it.
pub open spec fn gen_step_spec(args: GenArgs, old: GenSession, new: GenSession, event: GenEvent, action: GenAction) -> bool {
    match event {
        GenEvent::Start => if old.phase == GenPhase::Ready {
            match select(args.target@) {
                Ok(chosen) => {
                    &&& new.phase == GenPhase::CreatingDir
                    &&& models(new.presets@) == chosen
                    &&& new.written == 0
                    &&& action matches GenAction::CreateDir(p) && p@ == args.output_dir@
                },
                Err(unknown) => {
                    &&& new.phase == GenPhase::Failed && new.presets == old.presets && new.written
                        == old.written
                    &&& action matches GenAction::UnknownTarget(u) && u@ == unknown
                },
            }
        } else {
            new == old && action is Ignore
        },
        GenEvent::DirCreated => if old.phase == GenPhase::CreatingDir {
            &&& new.phase == GenPhase::Announcing && new.presets == old.presets && new.written == old.written
            &&& action matches GenAction::Print(s) && s@ == announcement(old.presets@.len())
        } else {
            new == old && action is Ignore
        },
        GenEvent::Printed => if old.phase == GenPhase::Announcing || old.phase == GenPhase::Reporting {
            &&& new.presets == old.presets && new.written == old.written
            &&& next_write(models(old.presets@), old.written as int, new.phase, action)
        } else {
            new == old && action is Ignore
        },
        GenEvent::Written { path } => if old.phase == GenPhase::Writing && old.written < old.presets@.len() {
            &&& new.phase == GenPhase::Reporting && new.presets == old.presets
            &&& new.written == old.written + 1
            &&& action matches GenAction::Print(s) && s@ == wrote_line(path@)
        } else {
            new == old && action is Ignore
        },
        GenEvent::Failed(f) => {
            &&& new.phase == GenPhase::Failed && new.presets == old.presets && new.written == old.written
            &&& action == GenAction::Fail(f)
        },
    }
}

/// A copy of `p`.
fn copy_preset(p: &SignalPreset) -> (r: SignalPreset)
    ensures
        r@ == p@,
{
    SignalPreset {
        file_name: string_from(p.file_name.as_str()),
        group: p.group,
        spec: p.spec,
        peak_dbfs: p.peak_dbfs,
        duration_secs: p.duration_secs,
    }
}

/// The announcement of a run of `count` files.
fn announce(count: usize) -> (r: String)
    ensures
        r@ == announcement(count as nat),
{
    let mut r = string_from("Generating ");
    push_decimal(&mut r, count as u64);
    push_str(&mut r, " file(s): sample_rate=");
    push_decimal(&mut r, SAMPLE_RATE as u64);
    push_str(&mut r, "Hz bits=");
    push_decimal(&mut r, BITS_PER_SAMPLE as u64);
    push_str(&mut r, " float channels=");
    push_decimal(&mut r, CHANNELS as u64);
    push_str(&mut r, " fade=");
    push_decimal(&mut r, FADE_MS as u64);
    push_str(&mut r, "ms");
    r
}

/// One step of `gen`: select the presets of the target, create the output
/// directory, announce the run, then write each preset in turn and report
/// its path.
pub fn run(args: &GenArgs, session: &mut GenSession, event: GenEvent) -> (action: GenAction)
    ensures
        gen_step_spec(*args, *old(session), *final(session), event, action),
{
    match event {
        GenEvent::Start => {
            if session.phase != GenPhase::Ready {
                return GenAction::Ignore;
            }
            match select_presets(args.target.as_str()) {
                Ok(chosen) => {
                    session.presets = chosen;
                    session.written = 0;
                    session.phase = GenPhase::CreatingDir;
                    GenAction::CreateDir(string_from(args.output_dir.as_str()))
                },
                Err(unknown) => {
                    session.phase = GenPhase::Failed;
                    GenAction::UnknownTarget(unknown)
                },
            }
        },
        GenEvent::DirCreated => {
            if session.phase != GenPhase::CreatingDir {
                return GenAction::Ignore;
            }
            session.phase = GenPhase::Announcing;
            GenAction::Print(announce(session.presets.len()))
        },
        GenEvent::Printed => {
            if session.phase != GenPhase::Announcing && session.phase != GenPhase::Reporting {
                return GenAction::Ignore;
            }
            let i = session.written;
            if i < session.presets.len() {
                session.phase = GenPhase::Writing;
                let p = copy_preset(&session.presets[i]);
                assert(models(session.presets@)[i as int] == session.presets@[i as int]@);
                GenAction::Write(p)
            } else {
                session.phase = GenPhase::Finished;
                GenAction::Done
            }
        },
        GenEvent::Written { path } => {
            if session.phase != GenPhase::Writing || session.written >= session.presets.len() {
                return GenAction::Ignore;
            }
            session.written = session.written + 1;
            session.phase = GenPhase::Reporting;
            let mut line = string_from("Wrote ");
            push_str(&mut line, path.as_str());
            GenAction::Print(line)
        },
        GenEvent::Failed(f) => {
            session.phase = GenPhase::Failed;
            GenAction::Fail(f)
        },
    }
}

/// What holds of every session `gen` reaches from a new one: once the
/// target is accepted the presets are exactly those it selects; no more are
/// written than were selected; the command writes exactly while presets
/// remain and is done only when all are written.
pub open spec fn gen_consistent(target: Seq<char>, s: GenSession) -> bool {
    &&& (s.phase != GenPhase::Ready && s.phase != GenPhase::Failed) ==> select(target) == Ok::<
        Seq<PresetModel>,
        Seq<char>,
    >(models(s.presets@))
    &&& s.written <= s.presets@.len()
    &&& s.phase == GenPhase::Writing ==> s.written < s.presets@.len()
    &&& s.phase == GenPhase::Finished ==> s.written == s.presets@.len()
}

/// Every step of `gen` keeps its session consistent, so a finished run wrote
/// every preset the target selects, in table order.
pub proof fn law_gen_step_keeps_consistent(
    args: GenArgs,
    old: GenSession,
    new: GenSession,
    event: GenEvent,
    action: GenAction,
)
    requires
        gen_consistent(args.target@, old),
        gen_step_spec(args, old, new, event, action),
    ensures
        gen_consistent(args.target@, new),
{
}

} // verus!

//! The `info` command: the metadata of WAV files and whether they agree.
use vstd::prelude::*;
use crate::args::InfoArgs;
use crate::error::Failure;
use crate::report_text::{banner, report_header, section, section_heading};
use crate::text::{decimal, push_decimal, push_str, string_from};
use crate::wav_info::{compare_wav_info, WavInfo, WavInfoChecks};

verus! {

/// Where the command stands.
#[derive(Clone, Copy, Debug, PartialEq, Eq, Structural)]
pub enum InfoPhase {
    Ready,
    Loading,
    Finished,
    Failed,
}

/// The state of the command: its phase and the metadata loaded so far.
#[derive(Debug)]
pub struct InfoSession {
    pub phase: InfoPhase,
    pub infos: Vec<WavInfo>,
}

/// What happened since the last step.
#[derive(Debug)]
pub enum InfoEvent {
    /// The command starts.
    Start,
    /// The file last asked for was loaded.
    Loaded(WavInfo),
    /// Loading failed.
    Failed(Failure),
}

/// What the caller does next.
#[derive(Debug)]
pub enum InfoAction {
    /// Load the WAV file at this path.
    Load(String),
    /// Print the metadata held by the session and these checks; the command
    /// is done.
    Report(WavInfoChecks),
    /// Stop with this error.
    Fail(Failure),
    /// The event does not fit the phase; nothing to do.
    Ignore,
}

impl InfoSession {
    /// A command that has not started.
    pub fn new() -> (r: InfoSession)
        ensures
            r.phase == InfoPhase::Ready,
            r.infos@.len() == 0,
    {
        InfoSession { phase: InfoPhase::Ready, infos: Vec::new() }
    }
}

/// After the metadata `infos` is loaded, the next action: load the next path,
/// or report the checks over all files.
pub open spec fn next_info_action(paths: Seq<String>, infos: Seq<WavInfo>, action: InfoAction) -> bool {
    if infos.len() < paths.len() {
        action matches InfoAction::Load(p) && p@ == paths[infos.len() as int]@
    } else {
        action matches InfoAction::Report(c) && c.same_sample_rate == crate::wav_info::all_equal(
            crate::wav_info::sample_rates(infos),
        ) && c.same_sample_count == crate::wav_info::all_equal(crate::wav_info::frame_counts(infos))
    }
}

/// The step of `info`, as the contract of `run` states it.
pub open spec fn info_step_spec(paths: Seq<String>, old: InfoSession, new: InfoSession, event: InfoEvent, action: InfoAction) -> bool {
    match event {
        InfoEvent::Start => if old.phase == InfoPhase::Ready && old.infos@.len() == 0 {
            &&& new.infos@ == old.infos@
            &&& new.phase == if paths.len() > 0 { InfoPhase::Loading } else { InfoPhase::Finished }
            &&& next_info_action(paths, new.infos@, action)
        } else {
            new == old && action is Ignore
        },
        InfoEvent::Loaded(info) => if old.phase == InfoPhase::Loading && old.infos@.len() < paths.len() {
            &&& new.infos@ == old.infos@.push(info)
            &&& new.phase == if new.infos@.len() < paths.len() { InfoPhase::Loading } else { InfoPhase::Finished }
            &&& next_info_action(paths, new.infos@, action)
        } else {
            new == old && action is Ignore
        },
        InfoEvent::Failed(f) => new.phase == InfoPhase::Failed && new.infos == old.infos && action
            == InfoAction::Fail(f),
    }
}

/// The next action once `session.infos` is loaded.
fn next_action(args: &InfoArgs, session: &mut InfoSession) -> (action: InfoAction)
    requires
        old(session).infos@.len() <= args.wav_paths@.len(),
    ensures
        final(session).infos == old(session).infos,
        final(session).phase == if old(session).infos@.len() < args.wav_paths@.len() {
            InfoPhase::Loading
        } else {
            InfoPhase::Finished
        },
        next_info_action(args.wav_paths@, final(session).infos@, action),
{
    let n = session.infos.len();
    if n < args.wav_paths.len() {
        session.phase = InfoPhase::Loading;
        InfoAction::Load(string_from(args.wav_paths[n].as_str()))
    } else {
        session.phase = InfoPhase::Finished;
        InfoAction::Report(compare_wav_info(session.infos.as_slice()))
    }
}

/// One step of `info`: load each path in turn, then report the metadata and
/// whether all files share a sample rate and a frame count.
pub fn run(args: &InfoArgs, session: &mut InfoSession, event: InfoEvent) -> (action: InfoAction)
    ensures
        info_step_spec(args.wav_paths@, *old(session), *final(session), event, action),
{
    match event {
        InfoEvent::Start => {
            if session.phase != InfoPhase::Ready || session.infos.len() != 0 {
                return InfoAction::Ignore;
            }
            next_action(args, session)
        },
        InfoEvent::Loaded(info) => {
            if session.phase != InfoPhase::Loading || session.infos.len() >= args.wav_paths.len() {
                return InfoAction::Ignore;
            }
            session.infos.push(info);
            next_action(args, session)
        },
        InfoEvent::Failed(f) => {
            session.phase = InfoPhase::Failed;
            InfoAction::Fail(f)
        },
    }
}

/// The text shown for a yes/no check.
pub fn yes_no(value: bool) -> (s: &'static str)
    ensures
        s@ == (if value { "yes"@ } else { "no"@ }),
{
    if value {
        "yes"
    } else {
        "no"
    }
}

/// The text of a yes/no check.
pub open spec fn yes_no_text(value: bool) -> Seq<char> {
    if value {
        "yes"@
    } else {
        "no"@
    }
}

/// The block of one file in the `info` report; `duration` is its duration
/// in seconds, already formatted.
pub open spec fn info_block(info: WavInfo, duration: Seq<char>) -> Seq<char> {
    section(info.path@, 40) + "Sample Rate:       "@ + decimal(info.sample_rate as nat) + " Hz\n"@
        + "Duration:          "@ + duration + " s\n"@ + "Number of samples: "@ + decimal(
        info.frames as nat,
    ) + "\n"@ + "Total samples:     "@ + decimal(info.total_samples as nat) + "\n"@
        + "Channels:          "@ + decimal(info.channels as nat) + "\n"@ + "Bit depth:         "@
        + decimal(info.bits_per_sample as nat) + "\n"@
}

/// The blocks of the files, in order, each with its formatted duration.
pub open spec fn info_blocks(infos: Seq<WavInfo>, durations: Seq<Seq<char>>) -> Seq<char>
    decreases infos.len(),
{
    if infos.len() == 0 {
        Seq::<char>::empty()
    } else {
        info_blocks(infos.drop_last(), durations.drop_last()) + info_block(infos.last(), durations.last())
    }
}

/// The closing lines of the `info` report: whether all files share a sample
/// rate and a sample count.
pub open spec fn checks_text(checks: WavInfoChecks) -> Seq<char> {
    section("Checks"@, 40) + "same sample rate:  "@ + yes_no_text(checks.same_sample_rate) + "\n"@
        + "same sample count: "@ + yes_no_text(checks.same_sample_count) + "\n"@
}

/// The whole `info` report: the banner, one block per file, the checks.
pub open spec fn info_report_text(infos: Seq<WavInfo>, durations: Seq<Seq<char>>, checks: WavInfoChecks) -> Seq<char> {
    banner("WAV INFO"@, 56) + info_blocks(infos, durations) + checks_text(checks)
}

/// The views of a list of strings.
pub open spec fn string_views(v: Seq<String>) -> Seq<Seq<char>> {
    v.map_values(|s: String| s@)
}

/// The closing lines of the `info` report for these checks.
pub fn checks_lines(checks: WavInfoChecks) -> (r: String)
    ensures
        r@ == checks_text(checks),
{
    let mut r = section_heading("Checks", 40);
    push_str(&mut r, "same sample rate:  ");
    push_str(&mut r, yes_no(checks.same_sample_rate));
    push_str(&mut r, "\n");
    push_str(&mut r, "same sample count: ");
    push_str(&mut r, yes_no(checks.same_sample_count));
    push_str(&mut r, "\n");
    assert(r@ =~= checks_text(checks));
    r
}

/// Appends the block of one file.
fn push_info_block(out: &mut String, info: &WavInfo, duration: &str)
    ensures
        final(out)@ == old(out)@ + info_block(*info, duration@),
{
    let heading = section_heading(info.path.as_str(), 40);
    push_str(out, heading.as_str());
    push_str(out, "Sample Rate:       ");
    push_decimal(out, info.sample_rate as u64);
    push_str(out, " Hz\n");
    push_str(out, "Duration:          ");
    push_str(out, duration);
    push_str(out, " s\n");
    push_str(out, "Number of samples: ");
    push_decimal(out, info.frames as u64);
    push_str(out, "\n");
    push_str(out, "Total samples:     ");
    push_decimal(out, info.total_samples as u64);
    push_str(out, "\n");
    push_str(out, "Channels:          ");
    push_decimal(out, info.channels as u64);
    push_str(out, "\n");
    push_str(out, "Bit depth:         ");
    push_decimal(out, info.bits_per_sample as u64);
    push_str(out, "\n");
    assert(final(out)@ =~= old(out)@ + info_block(*info, duration@));
}

/// The text the `info` command prints: the banner, a block per file (with
/// its duration, formatted by the caller) and the checks.
pub fn info_report(infos: &Vec<WavInfo>, durations: &Vec<String>, checks: WavInfoChecks) -> (r: String)
    requires
        durations@.len() == infos@.len(),
    ensures
        r@ == info_report_text(infos@, string_views(durations@), checks),
{
    let ghost ds = string_views(durations@);
    let mut out = report_header("WAV INFO", 56);
    let ghost head = out@;
    let mut i: usize = 0;
    while i < infos.len()
        invariant
            i <= infos.len(),
            durations@.len() == infos@.len(),
            ds == string_views(durations@),
            out@ == head + info_blocks(infos@.take(i as int), ds.take(i as int)),
        decreases infos.len() - i,
    {
        push_info_block(&mut out, &infos[i], durations[i].as_str());
        let ghost ti = infos@.take(i + 1);
        let ghost td = ds.take(i + 1);
        assert(ti.drop_last() =~= infos@.take(i as int));
        assert(td.drop_last() =~= ds.take(i as int));
        assert(td.last() == durations@[i as int]@);
        assert(out@ =~= head + info_blocks(ti, td));
        i = i + 1;
    }
    assert(infos@.take(infos.len() as int) =~= infos@);
    assert(ds.take(infos.len() as int) =~= ds);
    let lines = checks_lines(checks);
    push_str(&mut out, lines.as_str());
    assert(out@ =~= info_report_text(infos@, ds, checks));
    out
}

/// What holds of every session `info` reaches from a new one: no more files
/// are loaded than paths were given, the command is loading exactly while
/// files remain, and it reports only once every path is loaded.
pub open spec fn info_consistent(paths: Seq<String>, s: InfoSession) -> bool {
    &&& s.infos@.len() <= paths.len()
    &&& s.phase == InfoPhase::Loading ==> s.infos@.len() < paths.len()
    &&& s.phase == InfoPhase::Finished ==> s.infos@.len() == paths.len()
}

/// Every step of `info` keeps its session consistent, so the checks are
/// reported over one loaded file per path.
pub proof fn law_info_step_keeps_consistent(
    paths: Seq<String>,
    old: InfoSession,
    new: InfoSession,
    event: InfoEvent,
    action: InfoAction,
)
    requires
        info_consistent(paths, old),
        info_step_spec(paths, old, new, event, action),
    ensures
        info_consistent(paths, new),
{
}

} // verus!

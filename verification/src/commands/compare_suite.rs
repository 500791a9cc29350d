//! The `compare-suite` command: check the three suite directories, list and
//! match their WAV files, run one test per input file in suite order, write
//! the reports and print the summary. Directory checks, listing, analysis
//! and writing are done by the caller; this state machine decides what comes
//! next and with which arguments.
use vstd::prelude::*;
use crate::args::CompareSuiteArgs;
use crate::error::{failure_with, ErrorKind, Failure};
use crate::file_set::{file_name_set, sorted_names, FileNameSet};
use crate::suite::{
    console_summary, dir_check, filename_set_check, plan_suite, spec_views, suite_plan,
    summary_text, validate_dir, validate_exact_filename_set, SuiteFileSpec, SuiteTestType,
};
use crate::text::string_from;

verus! {

/// Where the suite stands.
#[derive(Clone, Copy, Debug, PartialEq, Eq, Structural)]
pub enum SuitePhase {
    Ready,
    CheckingDirs,
    ListingInput,
    ListingTarget,
    ListingCandidate,
    Analyzing,
    Writing,
    Finished,
    Failed,
}

/// The state of the suite: its phase, how many directories were checked,
/// the WAV file names of the three directories, the tests to run and how
/// many have run.
#[derive(Debug)]
pub struct SuiteSession {
    pub phase: SuitePhase,
    pub dirs_checked: usize,
    pub input_files: FileNameSet,
    pub target_files: FileNameSet,
    pub candidate_files: FileNameSet,
    pub plan: Vec<SuiteFileSpec>,
    pub analyzed: usize,
}

/// What happened since the last step.
#[derive(Debug)]
pub enum SuiteEvent {
    /// The command starts.
    Start,
    /// The directory last asked for was looked at.
    DirChecked { exists: bool, is_dir: bool },
    /// The directory last asked for holds WAV files with these names.
    Listed(Vec<String>),
    /// The test last asked for was analyzed.
    Analyzed,
    /// The text and JSON reports were written at these paths.
    ReportsWritten { txt_path: String, json_path: String },
    /// Checking, listing, analysis or writing failed.
    Failed(Failure),
}

/// What the caller does next.
#[derive(Debug)]
pub enum SuiteAction {
    /// Look at the directory at this path: does it exist, is it a directory?
    CheckDir(String),
    /// List the names of the WAV files in the directory at this path.
    ListWavFiles(String),
    /// Analyze this test: its input, target and candidate files.
    Analyze(SuiteFileSpec),
    /// Write the text and JSON reports into the report directory.
    WriteReports,
    /// Print this summary; the command is done.
    PrintSummary(String),
    /// Stop with this error.
    Fail(Failure),
    /// The event does not fit the phase; nothing to do.
    Ignore,
}

impl SuiteSession {
    /// A suite that has not started.
    pub fn new() -> (r: SuiteSession)
        ensures
            r.phase == SuitePhase::Ready,
            r.dirs_checked == 0,
            r.input_files@.len() == 0,
            r.target_files@.len() == 0,
            r.candidate_files@.len() == 0,
            r.plan@.len() == 0,
            r.analyzed == 0,
    {
        SuiteSession {
            phase: SuitePhase::Ready,
            dirs_checked: 0,
            input_files: FileNameSet::new(),
            target_files: FileNameSet::new(),
            candidate_files: FileNameSet::new(),
            plan: Vec::new(),
            analyzed: 0,
        }
    }
}

/// The option that names directory `k` (0: input, 1: target, 2: candidate).
pub open spec fn dir_label(k: int) -> Seq<char> {
    if k == 0 {
        "input-dir"@
    } else if k == 1 {
        "target-dir"@
    } else {
        "candidate-dir"@
    }
}

/// The path of directory `k` (0: input, 1: target, 2: candidate).
pub open spec fn dir_path(args: CompareSuiteArgs, k: int) -> Seq<char> {
    if k == 0 {
        args.input_dir@
    } else if k == 1 {
        args.target_dir@
    } else {
        args.candidate_dir@
    }
}

/// `set` holds the names of `names`, once each, in increasing order.
pub open spec fn holds_names(set: Seq<Seq<char>>, names: Seq<Seq<char>>) -> bool {
    &&& sorted_names(set)
    &&& forall|x: Seq<char>| #[trigger] set.contains(x) <==> names.contains(x)
}

/// The message when the input directory has no WAV file.
pub open spec fn no_input_message(input_dir: Seq<char>) -> Seq<char> {
    "No .wav files found in input-dir: "@ + input_dir
}

/// `new` is `old` in phase `phase`, all else unchanged.
pub open spec fn moved_to(old: SuiteSession, new: SuiteSession, phase: SuitePhase) -> bool {
    &&& new.phase == phase
    &&& new.dirs_checked == old.dirs_checked
    &&& new.input_files == old.input_files
    &&& new.target_files == old.target_files
    &&& new.candidate_files == old.candidate_files
    &&& new.plan == old.plan
    &&& new.analyzed == old.analyzed
}

/// `action` is the error `kind` with `message`.
pub open spec fn fails_with(action: SuiteAction, kind: ErrorKind, message: Seq<char>) -> bool {
    action matches SuiteAction::Fail(f) && f.kind == kind && f.message@ == message
}

/// Once `analyzed` tests of `plan` have run: the next test, or the reports.
pub open spec fn next_test(plan: Seq<(Seq<char>, SuiteTestType)>, analyzed: int, phase: SuitePhase, action: SuiteAction) -> bool {
    if analyzed < plan.len() {
        phase == SuitePhase::Analyzing && (action matches SuiteAction::Analyze(s) && s@ == plan[analyzed])
    } else {
        phase == SuitePhase::Writing && action is WriteReports
    }
}

/// The step of `compare-suite`, as the contract of `run` states it.
pub open spec fn suite_step_spec(
    args: CompareSuiteArgs,
    old: SuiteSession,
    new: SuiteSession,
    event: SuiteEvent,
    action: SuiteAction,
) -> bool {
    match event {
        SuiteEvent::Start => if old.phase == SuitePhase::Ready {
            &&& new.phase == SuitePhase::CheckingDirs
            &&& new.dirs_checked == 0
            &&& new.input_files == old.input_files && new.target_files == old.target_files
            &&& new.candidate_files == old.candidate_files && new.plan == old.plan
            &&& new.analyzed == old.analyzed
            &&& action matches SuiteAction::CheckDir(p) && p@ == args.input_dir@
        } else {
            new == old && action is Ignore
        },
        SuiteEvent::DirChecked { exists, is_dir } => if old.phase == SuitePhase::CheckingDirs
            && old.dirs_checked < 3 {
            let k = old.dirs_checked as int;
            match dir_check(dir_label(k), dir_path(args, k), exists, is_dir) {
                Some((kind, message)) => moved_to(old, new, SuitePhase::Failed) && fails_with(
                    action,
                    kind,
                    message,
                ),
                None => {
                    &&& new.dirs_checked == k + 1
                    &&& new.input_files == old.input_files && new.target_files == old.target_files
                    &&& new.candidate_files == old.candidate_files && new.plan == old.plan
                    &&& new.analyzed == old.analyzed
                    &&& if k + 1 < 3 {
                        new.phase == SuitePhase::CheckingDirs && (action matches SuiteAction::CheckDir(p)
                            && p@ == dir_path(args, k + 1))
                    } else {
                        new.phase == SuitePhase::ListingInput && (action matches SuiteAction::ListWavFiles(p)
                            && p@ == args.input_dir@)
                    }
                },
            }
        } else {
            new == old && action is Ignore
        },
        SuiteEvent::Listed(names) => if old.phase == SuitePhase::ListingInput {
            if names.len() == 0 {
                moved_to(old, new, SuitePhase::Failed) && fails_with(
                    action,
                    ErrorKind::InvalidInput,
                    no_input_message(args.input_dir@),
                )
            } else {
                &&& new.phase == SuitePhase::ListingTarget
                &&& holds_names(new.input_files@, names.deep_view())
                &&& new.dirs_checked == old.dirs_checked && new.target_files == old.target_files
                &&& new.candidate_files == old.candidate_files && new.plan == old.plan
                &&& new.analyzed == old.analyzed
                &&& action matches SuiteAction::ListWavFiles(p) && p@ == args.target_dir@
            }
        } else if old.phase == SuitePhase::ListingTarget {
            &&& new.phase == SuitePhase::ListingCandidate
            &&& holds_names(new.target_files@, names.deep_view())
            &&& new.dirs_checked == old.dirs_checked && new.input_files == old.input_files
            &&& new.candidate_files == old.candidate_files && new.plan == old.plan
            &&& new.analyzed == old.analyzed
            &&& action matches SuiteAction::ListWavFiles(p) && p@ == args.candidate_dir@
        } else if old.phase == SuitePhase::ListingCandidate {
            &&& holds_names(new.candidate_files@, names.deep_view())
            &&& new.dirs_checked == old.dirs_checked && new.input_files == old.input_files
            &&& new.target_files == old.target_files
            &&& match filename_set_check("target-dir"@, old.input_files@, old.target_files@) {
                Some(message) => {
                    &&& new.phase == SuitePhase::Failed && new.plan == old.plan && new.analyzed == old.analyzed
                    &&& fails_with(action, ErrorKind::InvalidInput, message)
                },
                None => match filename_set_check("candidate-dir"@, old.input_files@, new.candidate_files@) {
                    Some(message) => {
                        &&& new.phase == SuitePhase::Failed && new.plan == old.plan && new.analyzed == old.analyzed
                        &&& fails_with(action, ErrorKind::InvalidInput, message)
                    },
                    None => {
                        &&& spec_views(new.plan@) == suite_plan(old.input_files@)
                        &&& new.analyzed == 0
                        &&& next_test(spec_views(new.plan@), 0, new.phase, action)
                    },
                },
            }
        } else {
            new == old && action is Ignore
        },
        SuiteEvent::Analyzed => if old.phase == SuitePhase::Analyzing && old.analyzed < old.plan@.len() {
            &&& new.dirs_checked == old.dirs_checked && new.input_files == old.input_files
            &&& new.target_files == old.target_files && new.candidate_files == old.candidate_files
            &&& new.plan == old.plan
            &&& new.analyzed == old.analyzed + 1
            &&& next_test(spec_views(old.plan@), new.analyzed as int, new.phase, action)
        } else {
            new == old && action is Ignore
        },
        SuiteEvent::ReportsWritten { txt_path, json_path } => if old.phase == SuitePhase::Writing {
            &&& moved_to(old, new, SuitePhase::Finished)
            &&& action matches SuiteAction::PrintSummary(s) && s@ == summary_text(
                spec_views(old.plan@),
                txt_path@,
                json_path@,
            )
        } else {
            new == old && action is Ignore
        },
        SuiteEvent::Failed(f) => moved_to(old, new, SuitePhase::Failed) && action == SuiteAction::Fail(f),
    }
}

/// The option that names directory `k`.
fn dir_label_str(k: usize) -> (r: &'static str)
    ensures
        r@ == dir_label(k as int),
{
    if k == 0 {
        "input-dir"
    } else if k == 1 {
        "target-dir"
    } else {
        "candidate-dir"
    }
}

/// The path of directory `k`.
fn dir_path_str(args: &CompareSuiteArgs, k: usize) -> (r: &str)
    ensures
        r@ == dir_path(*args, k as int),
{
    if k == 0 {
        args.input_dir.as_str()
    } else if k == 1 {
        args.target_dir.as_str()
    } else {
        args.candidate_dir.as_str()
    }
}

/// The next test to analyze, or the reports once all have run.
fn next_test_action(session: &mut SuiteSession) -> (action: SuiteAction)
    ensures
        final(session).dirs_checked == old(session).dirs_checked,
        final(session).input_files == old(session).input_files,
        final(session).target_files == old(session).target_files,
        final(session).candidate_files == old(session).candidate_files,
        final(session).plan == old(session).plan,
        final(session).analyzed == old(session).analyzed,
        next_test(spec_views(old(session).plan@), old(session).analyzed as int, final(session).phase, action),
{
    if session.analyzed < session.plan.len() {
        session.phase = SuitePhase::Analyzing;
        let i = session.analyzed;
        let file_name = string_from(session.plan[i].file_name.as_str());
        let test_type = session.plan[i].test_type;
        assert(spec_views(session.plan@)[i as int] == session.plan@[i as int]@);
        SuiteAction::Analyze(SuiteFileSpec { file_name, test_type })
    } else {
        session.phase = SuitePhase::Writing;
        SuiteAction::WriteReports
    }
}

/// One step of `compare-suite`: check the input, target and candidate
/// directories, list the WAV files of each (the input must have some, the
/// other two exactly the same names), analyze each test in suite order,
/// have the reports written, then print the summary.
pub fn run(args: &CompareSuiteArgs, session: &mut SuiteSession, event: SuiteEvent) -> (action: SuiteAction)
    ensures
        suite_step_spec(*args, *old(session), *final(session), event, action),
{
    match event {
        SuiteEvent::Start => {
            if session.phase != SuitePhase::Ready {
                return SuiteAction::Ignore;
            }
            session.phase = SuitePhase::CheckingDirs;
            session.dirs_checked = 0;
            SuiteAction::CheckDir(string_from(args.input_dir.as_str()))
        },
        SuiteEvent::DirChecked { exists, is_dir } => {
            if session.phase != SuitePhase::CheckingDirs || session.dirs_checked >= 3 {
                return SuiteAction::Ignore;
            }
            let k = session.dirs_checked;
            match validate_dir(dir_label_str(k), dir_path_str(args, k), exists, is_dir) {
                Err(f) => {
                    session.phase = SuitePhase::Failed;
                    SuiteAction::Fail(f)
                },
                Ok(()) => {
                    session.dirs_checked = k + 1;
                    if k + 1 < 3 {
                        SuiteAction::CheckDir(string_from(dir_path_str(args, k + 1)))
                    } else {
                        session.phase = SuitePhase::ListingInput;
                        SuiteAction::ListWavFiles(string_from(args.input_dir.as_str()))
                    }
                },
            }
        },
        SuiteEvent::Listed(names) => {
            if session.phase == SuitePhase::ListingInput {
                if names.len() == 0 {
                    session.phase = SuitePhase::Failed;
                    return SuiteAction::Fail(
                        failure_with(
                            ErrorKind::InvalidInput,
                            "No .wav files found in input-dir: ",
                            args.input_dir.as_str(),
                        ),
                    );
                }
                session.input_files = file_name_set(&names);
                session.phase = SuitePhase::ListingTarget;
                SuiteAction::ListWavFiles(string_from(args.target_dir.as_str()))
            } else if session.phase == SuitePhase::ListingTarget {
                session.target_files = file_name_set(&names);
                session.phase = SuitePhase::ListingCandidate;
                SuiteAction::ListWavFiles(string_from(args.candidate_dir.as_str()))
            } else if session.phase == SuitePhase::ListingCandidate {
                session.candidate_files = file_name_set(&names);
                match validate_exact_filename_set("target-dir", &session.input_files, &session.target_files) {
                    Err(f) => {
                        session.phase = SuitePhase::Failed;
                        SuiteAction::Fail(f)
                    },
                    Ok(()) => match validate_exact_filename_set(
                        "candidate-dir",
                        &session.input_files,
                        &session.candidate_files,
                    ) {
                        Err(f) => {
                            session.phase = SuitePhase::Failed;
                            SuiteAction::Fail(f)
                        },
                        Ok(()) => {
                            session.plan = plan_suite(&session.input_files);
                            session.analyzed = 0;
                            next_test_action(session)
                        },
                    },
                }
            } else {
                SuiteAction::Ignore
            }
        },
        SuiteEvent::Analyzed => {
            if session.phase != SuitePhase::Analyzing || session.analyzed >= session.plan.len() {
                return SuiteAction::Ignore;
            }
            session.analyzed = session.analyzed + 1;
            next_test_action(session)
        },
        SuiteEvent::ReportsWritten { txt_path, json_path } => {
            if session.phase != SuitePhase::Writing {
                return SuiteAction::Ignore;
            }
            session.phase = SuitePhase::Finished;
            SuiteAction::PrintSummary(console_summary(&session.plan, txt_path.as_str(), json_path.as_str()))
        },
        SuiteEvent::Failed(f) => {
            session.phase = SuitePhase::Failed;
            SuiteAction::Fail(f)
        },
    }
}

/// Whether the suite has planned its tests.
pub open spec fn is_planned(phase: SuitePhase) -> bool {
    phase == SuitePhase::Analyzing || phase == SuitePhase::Writing || phase == SuitePhase::Finished
}

/// What holds of every session the suite reaches from a new one: the listed
/// names are sets; once tests are planned, the target and candidate
/// directories hold exactly the input file names, the plan is the suite plan
/// of those names, and the suite is analyzing exactly while planned tests
/// remain.
pub open spec fn suite_consistent(s: SuiteSession) -> bool {
    &&& (s.phase == SuitePhase::ListingTarget || s.phase == SuitePhase::ListingCandidate || is_planned(s.phase))
        ==> sorted_names(s.input_files@) && s.input_files@.len() > 0
    &&& (s.phase == SuitePhase::ListingCandidate || is_planned(s.phase)) ==> sorted_names(s.target_files@)
    &&& is_planned(s.phase) ==> {
        &&& s.target_files@ == s.input_files@
        &&& s.candidate_files@ == s.input_files@
        &&& spec_views(s.plan@) == suite_plan(s.input_files@)
        &&& s.analyzed <= s.plan@.len()
        &&& (s.phase == SuitePhase::Analyzing <==> s.analyzed < s.plan@.len())
    }
}

/// Every step keeps the suite consistent: tests are planned and run only
/// once the target and candidate directories hold exactly the input file
/// names, the tests are those of the suite plan of the input names, and the
/// suite leaves the analysis only when every planned test has run.
pub proof fn law_step_keeps_suite_consistent(
    args: CompareSuiteArgs,
    old: SuiteSession,
    new: SuiteSession,
    event: SuiteEvent,
    action: SuiteAction,
)
    requires
        suite_consistent(old),
        suite_step_spec(args, old, new, event, action),
    ensures
        suite_consistent(new),
{
    match event {
        SuiteEvent::Listed(names) => {
            if old.phase == SuitePhase::ListingInput && names.len() > 0 {
                assert(names.deep_view().contains(names.deep_view()[0]));
                assert(new.input_files@.contains(names.deep_view()[0]));
            }
            if old.phase == SuitePhase::ListingCandidate {
                let input = old.input_files@;
                crate::suite::law_exact_match_iff_same_names("target-dir"@, input, old.target_files@);
                crate::suite::law_exact_match_iff_same_names("candidate-dir"@, input, new.candidate_files@);
                crate::suite::law_plan_covers_inputs(input);
            }
        },
        _ => {},
    }
}

/// A suite that finished ran one test per input file, and there was at
/// least one.
pub proof fn law_finished_suite_ran_every_input(s: SuiteSession)
    requires
        suite_consistent(s),
        s.phase == SuitePhase::Finished,
    ensures
        s.analyzed == s.input_files@.len(),
        s.analyzed > 0,
        s.target_files@ == s.input_files@,
        s.candidate_files@ == s.input_files@,
{
    crate::suite::law_plan_covers_inputs(s.input_files@);
    assert(spec_views(s.plan@).len() == s.plan@.len());
}

} // verus!

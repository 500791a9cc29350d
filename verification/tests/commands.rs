use wavbench::args::{CompareSuiteArgs, EnergyArgs, GenArgs, InfoArgs, SineArgs, SweepArgs, TwotoneArgs};
use wavbench::commands::compare_suite::{self, SuiteAction, SuiteEvent, SuitePhase, SuiteSession};
use wavbench::commands::energy::{self, EnergyAction, EnergyEvent, EnergyPhase};
use wavbench::commands::generate::{self, GenAction, GenEvent, GenPhase, GenSession};
use wavbench::commands::info::{self, checks_lines, info_report, yes_no, InfoAction, InfoEvent, InfoPhase, InfoSession};
use wavbench::report_text::{report_header, section_heading};
use wavbench::session::{report_banner, PairKind};
use wavbench::wav_info::WavInfoChecks;
use wavbench::commands::{sine, sweep, twotone};
use wavbench::error::{ErrorKind, Failure};
use wavbench::session::{NameHint, PairAction, PairEvent, PairSession, Phase};
use wavbench::suite::SuiteTestType;
use wavbench::wav_info::WavInfo;

fn names(values: &[&str]) -> Vec<String> {
    values.iter().map(|value| value.to_string()).collect()
}

#[test]
fn sine_command_loads_checks_and_analyzes() {
    let args = SineArgs { input: "in/sine_5k_-24.wav".to_string(), output: "out.wav".to_string() };
    let mut session = PairSession::new();
    match sine::run(&args, &mut session, PairEvent::Start) {
        PairAction::LoadInput(path) => assert_eq!(path, "in/sine_5k_-24.wav"),
        other => panic!("unexpected {other:?}"),
    }
    assert!(matches!(sine::run(&args, &mut session, PairEvent::Start), PairAction::Ignore));
    let loaded = PairEvent::InputLoaded { sample_rate: 44_100, id: "sine_5k_-24.wav".to_string() };
    match sine::run(&args, &mut session, loaded) {
        PairAction::LoadOutput(path) => assert_eq!(path, "out.wav"),
        other => panic!("unexpected {other:?}"),
    }
    match sine::run(&args, &mut session, PairEvent::OutputLoaded { sample_rate: 44_100 }) {
        PairAction::Analyze(NameHint::Sine(Some(token))) => {
            assert_eq!(token.number, "5");
            assert!(token.kilo);
        },
        other => panic!("unexpected {other:?}"),
    }
    match sine::run(&args, &mut session, PairEvent::Analyzed) {
        PairAction::Print(banner) => {
            assert_eq!(banner, format!("{}\nSINE ANALYSIS\n{}\n", "=".repeat(56), "=".repeat(56)))
        },
        other => panic!("unexpected {other:?}"),
    }
    assert_eq!(session.phase, Phase::Finished);
}

#[test]
fn pair_commands_refuse_mismatched_sample_rates() {
    let args = SweepArgs { input: "a.wav".to_string(), output: "b.wav".to_string() };
    let mut session = PairSession::new();
    sweep::run(&args, &mut session, PairEvent::Start);
    sweep::run(&args, &mut session, PairEvent::InputLoaded { sample_rate: 48_000, id: "a.wav".to_string() });
    match sweep::run(&args, &mut session, PairEvent::OutputLoaded { sample_rate: 44_100 }) {
        PairAction::Fail(error) => {
            assert_eq!(error.kind, ErrorKind::InvalidInput);
            assert_eq!(error.message, "Input and output sample rates differ: 48000Hz vs 44100Hz");
        },
        other => panic!("unexpected {other:?}"),
    }
    assert_eq!(session.phase, Phase::Failed);
    assert!(matches!(sweep::run(&args, &mut session, PairEvent::Analyzed), PairAction::Ignore));
}

#[test]
fn pair_commands_pass_name_errors_to_the_analysis() {
    let args = SweepArgs { input: "riff.wav".to_string(), output: "b.wav".to_string() };
    let mut session = PairSession::new();
    sweep::run(&args, &mut session, PairEvent::Start);
    sweep::run(&args, &mut session, PairEvent::InputLoaded { sample_rate: 44_100, id: "riff.wav".to_string() });
    match sweep::run(&args, &mut session, PairEvent::OutputLoaded { sample_rate: 44_100 }) {
        PairAction::Analyze(NameHint::Sweep(Err(error))) => {
            assert_eq!(
                error.message,
                "Could not determine sweep range from input filename 'riff.wav'. Expected sweep_<start>_<end>_<level>.wav"
            );
        },
        other => panic!("unexpected {other:?}"),
    }

    let args = TwotoneArgs { input: "t.wav".to_string(), output: "o.wav".to_string() };
    let mut session = PairSession::new();
    twotone::run(&args, &mut session, PairEvent::Start);
    twotone::run(&args, &mut session, PairEvent::InputLoaded { sample_rate: 8_000, id: "two_tone_700_1900.wav".to_string() });
    match twotone::run(&args, &mut session, PairEvent::OutputLoaded { sample_rate: 8_000 }) {
        PairAction::Analyze(NameHint::Twotone(Ok((first, second)))) => {
            assert_eq!((first.number.as_str(), second.number.as_str()), ("700", "1900"));
        },
        other => panic!("unexpected {other:?}"),
    }
}

#[test]
fn info_command_loads_every_file_then_reports() {
    let args = InfoArgs { wav_paths: names(&["a.wav", "b.wav"]) };
    let mut session = InfoSession::new();
    match info::run(&args, &mut session, InfoEvent::Start) {
        InfoAction::Load(path) => assert_eq!(path, "a.wav"),
        other => panic!("unexpected {other:?}"),
    }
    let first = WavInfo { path: "a.wav".to_string(), sample_rate: 44_100, frames: 10, total_samples: 20, channels: 2, bits_per_sample: 16 };
    match info::run(&args, &mut session, InfoEvent::Loaded(first)) {
        InfoAction::Load(path) => assert_eq!(path, "b.wav"),
        other => panic!("unexpected {other:?}"),
    }
    let second = WavInfo { path: "b.wav".to_string(), sample_rate: 44_100, frames: 11, total_samples: 11, channels: 1, bits_per_sample: 24 };
    match info::run(&args, &mut session, InfoEvent::Loaded(second)) {
        InfoAction::Report(checks) => {
            assert!(checks.same_sample_rate);
            assert!(!checks.same_sample_count);
        },
        other => panic!("unexpected {other:?}"),
    }
    assert_eq!(session.phase, InfoPhase::Finished);
    assert_eq!(session.infos.len(), 2);
    assert_eq!(yes_no(true), "yes");
    assert_eq!(yes_no(false), "no");
}

#[test]
fn energy_command_needs_one_fft_block() {
    let args = EnergyArgs { wav_path: "short.wav".to_string() };
    let mut phase = EnergyPhase::Ready;
    assert!(matches!(energy::run(&args, &mut phase, EnergyEvent::Start), EnergyAction::Load(_)));
    match energy::run(&args, &mut phase, EnergyEvent::Loaded { mono_sample_count: 4000 }) {
        EnergyAction::Fail(error) => {
            assert_eq!(error.kind, ErrorKind::InvalidData);
            assert_eq!(error.message, "Not enough samples for band energy analysis: got 4000, need at least 4096");
        },
        other => panic!("unexpected {other:?}"),
    }
    let mut phase = EnergyPhase::Ready;
    energy::run(&args, &mut phase, EnergyEvent::Start);
    assert!(matches!(energy::run(&args, &mut phase, EnergyEvent::Loaded { mono_sample_count: 4096 }), EnergyAction::Analyze));
    match energy::run(&args, &mut phase, EnergyEvent::Analyzed) {
        EnergyAction::Print(banner) => {
            assert_eq!(banner, format!("{}\nBAND ENERGY\n{}\n", "=".repeat(52), "=".repeat(52)))
        },
        other => panic!("unexpected {other:?}"),
    }
    assert_eq!(phase, EnergyPhase::Finished);
}

#[test]
fn generate_command_announces_writes_and_reports() {
    let args = GenArgs { target: "noise".to_string(), output_dir: "signals".to_string() };
    let mut session = GenSession::new();
    match generate::run(&args, &mut session, GenEvent::Start) {
        GenAction::CreateDir(path) => assert_eq!(path, "signals"),
        other => panic!("unexpected {other:?}"),
    }
    match generate::run(&args, &mut session, GenEvent::DirCreated) {
        GenAction::Print(line) => {
            assert_eq!(line, "Generating 2 file(s): sample_rate=44100Hz bits=32 float channels=1 fade=5ms")
        },
        other => panic!("unexpected {other:?}"),
    }
    let mut written = Vec::new();
    loop {
        match generate::run(&args, &mut session, GenEvent::Printed) {
            GenAction::Write(preset) => {
                let path = format!("signals/{}", preset.file_name);
                written.push(preset.file_name.clone());
                match generate::run(&args, &mut session, GenEvent::Written { path: path.clone() }) {
                    GenAction::Print(line) => assert_eq!(line, format!("Wrote {path}")),
                    other => panic!("unexpected {other:?}"),
                }
            },
            GenAction::Done => break,
            other => panic!("unexpected {other:?}"),
        }
    }
    assert_eq!(written, names(&["pink_noise.wav", "white_noise.wav"]));
    assert_eq!(session.phase, GenPhase::Finished);
}

#[test]
fn generate_command_reports_unknown_targets() {
    let args = GenArgs { target: "square".to_string(), output_dir: "signals".to_string() };
    let mut session = GenSession::new();
    match generate::run(&args, &mut session, GenEvent::Start) {
        GenAction::UnknownTarget(error) => assert_eq!(error.target(), "square"),
        other => panic!("unexpected {other:?}"),
    }
    assert_eq!(session.phase, GenPhase::Failed);
}

fn suite_args() -> CompareSuiteArgs {
    CompareSuiteArgs {
        input_dir: "in".to_string(),
        target_dir: "target".to_string(),
        candidate_dir: "candidate".to_string(),
        report_dir: "reports".to_string(),
    }
}

fn list_directories(session: &mut SuiteSession, input: &[&str], target: &[&str], candidate: &[&str]) -> SuiteAction {
    let args = suite_args();
    compare_suite::run(&args, session, SuiteEvent::Start);
    for _ in 0..3 {
        compare_suite::run(&args, session, SuiteEvent::DirChecked { exists: true, is_dir: true });
    }
    compare_suite::run(&args, session, SuiteEvent::Listed(names(input)));
    compare_suite::run(&args, session, SuiteEvent::Listed(names(target)));
    compare_suite::run(&args, session, SuiteEvent::Listed(names(candidate)))
}

#[test]
fn suite_command_runs_each_test_then_writes_reports() {
    let args = suite_args();
    let mut session = SuiteSession::new();
    match compare_suite::run(&args, &mut session, SuiteEvent::Start) {
        SuiteAction::CheckDir(path) => assert_eq!(path, "in"),
        other => panic!("unexpected {other:?}"),
    }
    match compare_suite::run(&args, &mut session, SuiteEvent::DirChecked { exists: true, is_dir: true }) {
        SuiteAction::CheckDir(path) => assert_eq!(path, "target"),
        other => panic!("unexpected {other:?}"),
    }
    match compare_suite::run(&args, &mut session, SuiteEvent::DirChecked { exists: true, is_dir: true }) {
        SuiteAction::CheckDir(path) => assert_eq!(path, "candidate"),
        other => panic!("unexpected {other:?}"),
    }
    match compare_suite::run(&args, &mut session, SuiteEvent::DirChecked { exists: true, is_dir: true }) {
        SuiteAction::ListWavFiles(path) => assert_eq!(path, "in"),
        other => panic!("unexpected {other:?}"),
    }
    let files = ["riff.wav", "sine_1000_-24.wav", "sweep_20_20k_-6.wav"];
    compare_suite::run(&args, &mut session, SuiteEvent::Listed(names(&files)));
    compare_suite::run(&args, &mut session, SuiteEvent::Listed(names(&["sweep_20_20k_-6.wav", "riff.wav", "sine_1000_-24.wav"])));
    let mut action = compare_suite::run(&args, &mut session, SuiteEvent::Listed(names(&files)));
    let mut order = Vec::new();
    while let SuiteAction::Analyze(spec) = action {
        order.push((spec.file_name.clone(), spec.test_type));
        action = compare_suite::run(&args, &mut session, SuiteEvent::Analyzed);
    }
    assert!(matches!(action, SuiteAction::WriteReports));
    assert_eq!(
        order,
        vec![
            ("sine_1000_-24.wav".to_string(), SuiteTestType::Sine),
            ("sweep_20_20k_-6.wav".to_string(), SuiteTestType::Sweep),
            ("riff.wav".to_string(), SuiteTestType::General),
        ]
    );
    let written = SuiteEvent::ReportsWritten { txt_path: "reports/report.txt".to_string(), json_path: "reports/report.json".to_string() };
    match compare_suite::run(&args, &mut session, written) {
        SuiteAction::PrintSummary(text) => assert_eq!(
            text,
            "Found 3 tests\nsine: 1\nsweep: 1\ngeneral: 1\n\nReports written:\nreports/report.txt\nreports/report.json\n"
        ),
        other => panic!("unexpected {other:?}"),
    }
    assert_eq!(session.phase, SuitePhase::Finished);
    assert_eq!(session.analyzed, 3);
}

#[test]
fn suite_command_stops_on_a_missing_directory() {
    let args = suite_args();
    let mut session = SuiteSession::new();
    compare_suite::run(&args, &mut session, SuiteEvent::Start);
    compare_suite::run(&args, &mut session, SuiteEvent::DirChecked { exists: true, is_dir: true });
    match compare_suite::run(&args, &mut session, SuiteEvent::DirChecked { exists: false, is_dir: false }) {
        SuiteAction::Fail(error) => {
            assert_eq!(error.kind, ErrorKind::NotFound);
            assert_eq!(error.message, "target-dir does not exist: target");
        },
        other => panic!("unexpected {other:?}"),
    }
    assert_eq!(session.phase, SuitePhase::Failed);
}

#[test]
fn suite_command_needs_input_files() {
    let args = suite_args();
    let mut session = SuiteSession::new();
    compare_suite::run(&args, &mut session, SuiteEvent::Start);
    for _ in 0..3 {
        compare_suite::run(&args, &mut session, SuiteEvent::DirChecked { exists: true, is_dir: true });
    }
    match compare_suite::run(&args, &mut session, SuiteEvent::Listed(Vec::new())) {
        SuiteAction::Fail(error) => {
            assert_eq!(error.kind, ErrorKind::InvalidInput);
            assert_eq!(error.message, "No .wav files found in input-dir: in");
        },
        other => panic!("unexpected {other:?}"),
    }
}

#[test]
fn suite_command_checks_target_before_candidate() {
    let mut session = SuiteSession::new();
    match list_directories(&mut session, &["a.wav"], &["b.wav"], &["c.wav"]) {
        SuiteAction::Fail(error) => assert_eq!(
            error.message,
            "target-dir does not exactly match input-dir: missing WAV files: a.wav; extra WAV files: b.wav"
        ),
        other => panic!("unexpected {other:?}"),
    }
    let mut session = SuiteSession::new();
    match list_directories(&mut session, &["a.wav"], &["a.wav"], &["a.wav", "c.wav"]) {
        SuiteAction::Fail(error) => assert_eq!(
            error.message,
            "candidate-dir does not exactly match input-dir: extra WAV files: c.wav"
        ),
        other => panic!("unexpected {other:?}"),
    }
    assert_eq!(session.phase, SuitePhase::Failed);
}

#[test]
fn failures_stop_every_command() {
    let args = suite_args();
    let mut session = SuiteSession::new();
    compare_suite::run(&args, &mut session, SuiteEvent::Start);
    let failure = Failure { kind: ErrorKind::InvalidData, message: "bad file".to_string() };
    match compare_suite::run(&args, &mut session, SuiteEvent::Failed(failure)) {
        SuiteAction::Fail(error) => assert_eq!(error.to_string(), "bad file"),
        other => panic!("unexpected {other:?}"),
    }
    assert!(matches!(compare_suite::run(&args, &mut session, SuiteEvent::Analyzed), SuiteAction::Ignore));
}

#[test]
fn lays_out_report_banners_and_sections() {
    assert_eq!(report_header("X", 3), "===\nX\n===\n");
    assert_eq!(section_heading("Input", 5), "\nInput\n-----\n");
    assert_eq!(
        report_banner(PairKind::Twotone),
        format!("{}\nTWO-TONE ANALYSIS\n{}\n", "=".repeat(52), "=".repeat(52))
    );
    assert_eq!(
        report_banner(PairKind::Noise),
        format!("{}\nNOISE ANALYSIS\n{}\n", "=".repeat(52), "=".repeat(52))
    );
    assert_eq!(
        report_banner(PairKind::Sweep),
        format!("{}\nSWEEP ANALYSIS\n{}\n", "=".repeat(56), "=".repeat(56))
    );
}

#[test]
fn writes_the_info_report() {
    let infos = vec![
        WavInfo { path: "a.wav".to_string(), sample_rate: 44_100, frames: 10, total_samples: 20, channels: 2, bits_per_sample: 16 },
        WavInfo { path: "b.wav".to_string(), sample_rate: 48_000, frames: 10, total_samples: 10, channels: 1, bits_per_sample: 24 },
    ];
    let checks = WavInfoChecks { same_sample_rate: false, same_sample_count: true };
    let durations = vec!["0.000".to_string(), "0.000".to_string()];
    let dash = "-".repeat(40);
    let rule = "=".repeat(56);
    let expected = format!(
        "{rule}\nWAV INFO\n{rule}\n\
         \na.wav\n{dash}\nSample Rate:       44100 Hz\nDuration:          0.000 s\nNumber of samples: 10\nTotal samples:     20\nChannels:          2\nBit depth:         16\n\
         \nb.wav\n{dash}\nSample Rate:       48000 Hz\nDuration:          0.000 s\nNumber of samples: 10\nTotal samples:     10\nChannels:          1\nBit depth:         24\n\
         \nChecks\n{dash}\nsame sample rate:  no\nsame sample count: yes\n"
    );
    assert_eq!(info_report(&infos, &durations, checks), expected);
    assert_eq!(
        checks_lines(WavInfoChecks { same_sample_rate: true, same_sample_count: false }),
        format!("\nChecks\n{dash}\nsame sample rate:  yes\nsame sample count: no\n")
    );
}

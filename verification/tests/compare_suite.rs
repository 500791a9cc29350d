use wavbench::error::ErrorKind;
use wavbench::file_set::{file_name_set, FileNameSet};
use wavbench::suite_report::{render_text_report, RenderedTest};
use wavbench::suite::{
    console_summary, count_tests_of_type, detect_test_type, harmonic_key, harmonic_label,
    json_key, plan_suite, test_id, validate_dir, validate_exact_filename_set,
    validate_general_sample_rates, write_band_header, write_metric_header, write_row,
    SuiteTestType,
};

fn set(values: &[&str]) -> FileNameSet {
    let names: Vec<String> = values.iter().map(|value| value.to_string()).collect();
    file_name_set(&names)
}

#[test]
fn detects_test_types_from_filename() {
    assert_eq!(detect_test_type("sine_100_-12.wav"), SuiteTestType::Sine);
    assert_eq!(detect_test_type("sweep_20_20k_-36.wav"), SuiteTestType::Sweep);
    assert_eq!(detect_test_type("pink_noise_-24.wav"), SuiteTestType::Noise);
    assert_eq!(detect_test_type("white_noise.wav"), SuiteTestType::Noise);
    assert_eq!(detect_test_type("twotone_700_1900_-24.wav"), SuiteTestType::Twotone);
    assert_eq!(detect_test_type("riff.wav"), SuiteTestType::General);
}

#[test]
fn accepts_exact_filename_sets() {
    let input = set(&["a.wav", "b.wav"]);
    let actual = set(&["a.wav", "b.wav"]);

    validate_exact_filename_set("target-dir", &input, &actual).expect("matching sets should be valid");
}

#[test]
fn rejects_missing_or_extra_filename_sets() {
    let input = set(&["a.wav", "b.wav"]);
    let actual = set(&["a.wav", "c.wav"]);

    let error = validate_exact_filename_set("target-dir", &input, &actual)
        .expect_err("mismatched sets should fail")
        .to_string();

    assert!(error.contains("missing WAV files: b.wav"));
    assert!(error.contains("extra WAV files: c.wav"));
}

#[test]
fn mismatch_message_lists_missing_then_extra() {
    let input = set(&["a.wav", "b.wav", "d.wav"]);
    let actual = set(&["e.wav", "a.wav", "c.wav"]);
    let error = validate_exact_filename_set("candidate-dir", &input, &actual).expect_err("mismatch");
    assert_eq!(error.kind, ErrorKind::InvalidInput);
    assert_eq!(
        error.message,
        "candidate-dir does not exactly match input-dir: missing WAV files: b.wav, d.wav; extra WAV files: c.wav, e.wav"
    );
}

#[test]
fn only_extra_files_are_reported_alone() {
    let input = set(&["a.wav"]);
    let actual = set(&["a.wav", "z.wav"]);
    let error = validate_exact_filename_set("target-dir", &input, &actual).expect_err("mismatch");
    assert_eq!(error.message, "target-dir does not exactly match input-dir: extra WAV files: z.wav");
}

#[test]
fn detects_types_with_other_prefixes() {
    assert_eq!(detect_test_type("two_tone_700_1900.wav"), SuiteTestType::Twotone);
    assert_eq!(detect_test_type("pink_noise"), SuiteTestType::Noise);
    assert_eq!(detect_test_type("sine.wav"), SuiteTestType::General);
    assert_eq!(detect_test_type("SINE_100.wav"), SuiteTestType::General);
}

#[test]
fn test_type_names_and_order() {
    let all = SuiteTestType::all();
    let names: Vec<&str> = all.iter().map(|t| t.json_name()).collect();
    assert_eq!(names, vec!["sine", "sweep", "noise", "twotone", "general"]);
    assert_eq!(SuiteTestType::Twotone.heading(), "TWO-TONE");
    assert_eq!(SuiteTestType::General.rank(), 4);
}

#[test]
fn validates_suite_directories() {
    let missing = validate_dir("input-dir", "/no/such", false, false).expect_err("missing");
    assert_eq!(missing.kind, ErrorKind::NotFound);
    assert_eq!(missing.message, "input-dir does not exist: /no/such");

    let file = validate_dir("target-dir", "/tmp/x.wav", true, false).expect_err("a file");
    assert_eq!(file.kind, ErrorKind::InvalidInput);
    assert_eq!(file.message, "target-dir is not a directory: /tmp/x.wav");

    assert!(validate_dir("candidate-dir", "/tmp", true, true).is_ok());
}

#[test]
fn general_tests_need_one_sample_rate() {
    assert!(validate_general_sample_rates(48_000, 48_000, 48_000).is_ok());
    let error = validate_general_sample_rates(44_100, 48_000, 44_100).expect_err("rates differ");
    assert_eq!(error.kind, ErrorKind::InvalidInput);
    assert_eq!(
        error.message,
        "Sample rates differ for general comparison: input=44100Hz target=48000Hz candidate=44100Hz"
    );
}

#[test]
fn builds_test_ids_and_keys() {
    assert_eq!(test_id("sine_1000_-24.wav"), "sine_1000_-24");
    assert_eq!(test_id("RIFF.WAV"), "RIFF");
    assert_eq!(test_id("notes.txt"), "notes.txt");
    assert_eq!(json_key("  Low-Band Level\t"), "low_band_level");
    assert_eq!(json_key("THD+N"), "thd+n");
    assert_eq!(harmonic_key(3), "h3_dbc");
    assert_eq!(harmonic_label(12), "H12 dBc");
}

#[test]
fn writes_report_columns() {
    let mut out = String::new();
    write_metric_header(&mut out);
    assert_eq!(out, format!("{:<22} {:>11} {:>13} {:>10}\n", "Metric", "Target", "Candidate", "Diff"));

    let mut bands = String::new();
    write_band_header(&mut bands);
    assert_eq!(bands, format!("{:<14} {:>11} {:>13} {:>10}\n", "Freq", "Target dB", "Candidate dB", "Diff"));

    let mut row = String::from("> ");
    write_row(&mut row, "RMS dBFS", 22, "-20.0", "-19.5", "+0.5");
    assert_eq!(row, format!("> {:<22} {:>11} {:>13} {:>10}\n", "RMS dBFS", "-20.0", "-19.5", "+0.5"));

    let mut long = String::new();
    write_row(&mut long, "a label longer than the column", 5, "1", "2", "3");
    assert_eq!(long, "a label longer than the column           1             2          3\n");
}

#[test]
fn plans_tests_by_type_then_name() {
    let input = set(&["white_noise.wav", "sine_1k.wav", "riff.wav", "sweep_a.wav", "sine_100.wav", "two_tone_1_2.wav"]);
    let plan = plan_suite(&input);
    let order: Vec<(&str, SuiteTestType)> =
        plan.iter().map(|spec| (spec.file_name.as_str(), spec.test_type)).collect();
    assert_eq!(
        order,
        vec![
            ("sine_100.wav", SuiteTestType::Sine),
            ("sine_1k.wav", SuiteTestType::Sine),
            ("sweep_a.wav", SuiteTestType::Sweep),
            ("white_noise.wav", SuiteTestType::Noise),
            ("two_tone_1_2.wav", SuiteTestType::Twotone),
            ("riff.wav", SuiteTestType::General),
        ]
    );
    assert_eq!(count_tests_of_type(&plan, SuiteTestType::Sine), 2);
    assert_eq!(count_tests_of_type(&plan, SuiteTestType::General), 1);
}

#[test]
fn summarizes_a_finished_suite() {
    let input = set(&["sine_1.wav", "sine_2.wav", "riff.wav"]);
    let plan = plan_suite(&input);
    let summary = console_summary(&plan, "out/report.txt", "out/report.json");
    assert_eq!(
        summary,
        "Found 3 tests\nsine: 2\ngeneral: 1\n\nReports written:\nout/report.txt\nout/report.json\n"
    );
}

#[test]
fn renders_the_text_report_by_type() {
    let test = |id: &str, test_type, text: &str| RenderedTest {
        id: id.to_string(),
        test_type,
        text: text.to_string(),
    };
    let tests = vec![
        test("sine_1", SuiteTestType::Sine, "body1\n"),
        test("riff", SuiteTestType::General, "body2\n"),
        test("sine_2", SuiteTestType::Sine, "body3\n"),
    ];
    let rule = "=".repeat(56);
    let dash = "-".repeat(40);
    let expected = format!(
        "{rule}\nCOMPARE SUITE\n{rule}\n\nInput dir:     in\nTarget dir:    t\nCandidate dir: c\n\nMatched tests: 3\n\
         \n{rule}\nSINE\n{rule}\n\nsine_1\n{dash}\nbody1\n\nsine_2\n{dash}\nbody3\n\
         \n{rule}\nGENERAL\n{rule}\n\nriff\n{dash}\nbody2\n"
    );
    assert_eq!(render_text_report("in", "t", "c", &tests), expected);

    let empty = render_text_report("a", "b", "c", &Vec::new());
    assert!(empty.ends_with("Matched tests: 0\n"));
}

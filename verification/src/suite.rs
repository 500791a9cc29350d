//! The comparison suite: how files are classified into test types, how the
//! three directories are checked against each other, in which order the
//! tests run, and the fixed parts of the reports.
use vstd::prelude::*;
use crate::error::{ErrorKind, Failure};
use crate::file_set::{sorted_names, without, FileNameSet};
use crate::text::{
    ascii_lower, ascii_lower_chars, chars_of, decimal, has_prefix, join, join_strings, lex_lt,
    push_chars, push_decimal, push_repeated, push_str, repeat_char, replace_char, replace_char_chars, starts_with,
    string_from, string_of, strip_suffix, strip_suffix_chars, strip_suffix_or_self,
    strip_suffix_or_self_chars, trim, trim_chars,
};

verus! {

/// The kind of analysis a suite file gets, chosen from its name.
#[derive(Clone, Copy, Debug, PartialEq, Eq, Structural)]
pub enum SuiteTestType {
    Sine,
    Sweep,
    Noise,
    Twotone,
    General,
}

/// The position of a test type in the suite order.
pub open spec fn type_rank(t: SuiteTestType) -> int {
    match t {
        SuiteTestType::Sine => 0,
        SuiteTestType::Sweep => 1,
        SuiteTestType::Noise => 2,
        SuiteTestType::Twotone => 3,
        SuiteTestType::General => 4,
    }
}

/// The test types in suite order.
pub open spec fn all_types() -> Seq<SuiteTestType> {
    seq![
        SuiteTestType::Sine,
        SuiteTestType::Sweep,
        SuiteTestType::Noise,
        SuiteTestType::Twotone,
        SuiteTestType::General,
    ]
}

/// The name of a test type in the JSON report.
pub open spec fn json_name_of(t: SuiteTestType) -> Seq<char> {
    match t {
        SuiteTestType::Sine => "sine"@,
        SuiteTestType::Sweep => "sweep"@,
        SuiteTestType::Noise => "noise"@,
        SuiteTestType::Twotone => "twotone"@,
        SuiteTestType::General => "general"@,
    }
}

/// The heading of a test type in the text report.
pub open spec fn heading_of(t: SuiteTestType) -> Seq<char> {
    match t {
        SuiteTestType::Sine => "SINE"@,
        SuiteTestType::Sweep => "SWEEP"@,
        SuiteTestType::Noise => "NOISE"@,
        SuiteTestType::Twotone => "TWO-TONE"@,
        SuiteTestType::General => "GENERAL"@,
    }
}

impl SuiteTestType {
    /// The name of this test type in the JSON report.
    pub fn json_name(self) -> (r: &'static str)
        ensures
            r@ == json_name_of(self),
    {
        match self {
            SuiteTestType::Sine => "sine",
            SuiteTestType::Sweep => "sweep",
            SuiteTestType::Noise => "noise",
            SuiteTestType::Twotone => "twotone",
            SuiteTestType::General => "general",
        }
    }

    /// The heading of this test type in the text report.
    pub fn heading(self) -> (r: &'static str)
        ensures
            r@ == heading_of(self),
    {
        match self {
            SuiteTestType::Sine => "SINE",
            SuiteTestType::Sweep => "SWEEP",
            SuiteTestType::Noise => "NOISE",
            SuiteTestType::Twotone => "TWO-TONE",
            SuiteTestType::General => "GENERAL",
        }
    }

    /// Every test type, in suite order.
    pub fn all() -> (r: [SuiteTestType; 5])
        ensures
            r@ == all_types(),
    {
        let r = [
            SuiteTestType::Sine,
            SuiteTestType::Sweep,
            SuiteTestType::Noise,
            SuiteTestType::Twotone,
            SuiteTestType::General,
        ];
        assert(r@ =~= all_types());
        r
    }

    /// The position of this test type in the suite order.
    pub fn rank(self) -> (r: usize)
        ensures
            r == type_rank(self),
    {
        match self {
            SuiteTestType::Sine => 0,
            SuiteTestType::Sweep => 1,
            SuiteTestType::Noise => 2,
            SuiteTestType::Twotone => 3,
            SuiteTestType::General => 4,
        }
    }
}

/// The test type of a file name: by the prefix of its name without `.wav`.
pub open spec fn test_type_of(file_name: Seq<char>) -> SuiteTestType {
    let stem = strip_suffix_or_self(file_name, ".wav"@);
    if has_prefix(stem, "sine_"@) {
        SuiteTestType::Sine
    } else if has_prefix(stem, "sweep_"@) {
        SuiteTestType::Sweep
    } else if has_prefix(stem, "pink_noise"@) || has_prefix(stem, "white_noise"@) {
        SuiteTestType::Noise
    } else if has_prefix(stem, "twotone_"@) || has_prefix(stem, "two_tone_"@) {
        SuiteTestType::Twotone
    } else {
        SuiteTestType::General
    }
}

/// The test id of a file name: the name without `.wav`, else without `.WAV`.
pub open spec fn test_id_of(file_name: Seq<char>) -> Seq<char> {
    match strip_suffix(file_name, ".wav"@) {
        Some(t) => t,
        None => strip_suffix_or_self(file_name, ".WAV"@),
    }
}

/// A report label as a JSON key: trimmed, ASCII-lowercased, with spaces and
/// hyphens turned into underscores.
pub open spec fn json_key_of(label: Seq<char>) -> Seq<char> {
    replace_char(replace_char(ascii_lower(trim(label)), ' ', '_'), '-', '_')
}

/// The test type of a suite file, chosen from its name without `.wav`:
/// `sine_` files are sine tests, `sweep_` sweeps, `pink_noise`/`white_noise`
/// noise tests, `twotone_`/`two_tone_` two-tone tests, anything else general.
pub fn detect_test_type(file_name: &str) -> (r: SuiteTestType)
    ensures
        r == test_type_of(file_name@),
{
    let name = chars_of(file_name);
    let stem = strip_suffix_or_self_chars(&name, ".wav");
    if starts_with(&stem, "sine_") {
        SuiteTestType::Sine
    } else if starts_with(&stem, "sweep_") {
        SuiteTestType::Sweep
    } else if starts_with(&stem, "pink_noise") || starts_with(&stem, "white_noise") {
        SuiteTestType::Noise
    } else if starts_with(&stem, "twotone_") || starts_with(&stem, "two_tone_") {
        SuiteTestType::Twotone
    } else {
        SuiteTestType::General
    }
}

/// The id of a suite test: its file name without `.wav` (or `.WAV`).
pub fn test_id(file_name: &str) -> (r: String)
    ensures
        r@ == test_id_of(file_name@),
{
    let name = chars_of(file_name);
    match strip_suffix_chars(&name, ".wav") {
        Some(t) => string_of(&t),
        None => string_of(&strip_suffix_or_self_chars(&name, ".WAV")),
    }
}

/// A report label as a JSON key.
pub fn json_key(label: &str) -> (r: String)
    ensures
        r@ == json_key_of(label@),
{
    let v = chars_of(label);
    let t = trim_chars(&v);
    let lower = ascii_lower_chars(&t);
    let spaced = replace_char_chars(&lower, ' ', '_');
    let keyed = replace_char_chars(&spaced, '-', '_');
    string_of(&keyed)
}

/// The outcome of checking a suite directory, given whether it exists and
/// whether it is a directory.
pub open spec fn dir_check(label: Seq<char>, path: Seq<char>, exists: bool, is_dir: bool) -> Option<(ErrorKind, Seq<char>)> {
    if !exists {
        Some((ErrorKind::NotFound, label + " does not exist: "@ + path))
    } else if !is_dir {
        Some((ErrorKind::InvalidInput, label + " is not a directory: "@ + path))
    } else {
        None
    }
}

/// Checks a suite directory: it must exist and be a directory. `label` names
/// the directory option, `path` is the path as displayed.
pub fn validate_dir(label: &str, path: &str, exists: bool, is_dir: bool) -> (r: Result<(), Failure>)
    ensures
        match dir_check(label@, path@, exists, is_dir) {
            Some((kind, message)) => r matches Err(f) && f.kind == kind && f.message@ == message,
            None => r is Ok,
        },
{
    if !exists {
        let mut message = string_from(label);
        push_str(&mut message, " does not exist: ");
        push_str(&mut message, path);
        return Err(Failure { kind: ErrorKind::NotFound, message });
    }
    if !is_dir {
        let mut message = string_from(label);
        push_str(&mut message, " is not a directory: ");
        push_str(&mut message, path);
        return Err(Failure { kind: ErrorKind::InvalidInput, message });
    }
    Ok(())
}

/// The message when the three files of a general test differ in sample rate.
pub open spec fn general_rates_message(input: u32, target: u32, candidate: u32) -> Seq<char> {
    "Sample rates differ for general comparison: input="@ + decimal(input as nat) + "Hz target="@
        + decimal(target as nat) + "Hz candidate="@ + decimal(candidate as nat) + "Hz"@
}

/// A general test needs one sample rate across input, target and candidate.
pub fn validate_general_sample_rates(input: u32, target: u32, candidate: u32) -> (r: Result<(), Failure>)
    ensures
        input == target && target == candidate ==> r is Ok,
        !(input == target && target == candidate) ==> (r matches Err(f) && f.kind
            == ErrorKind::InvalidInput && f.message@ == general_rates_message(input, target, candidate)),
{
    if input == target && target == candidate {
        return Ok(());
    }
    let mut message = string_from("Sample rates differ for general comparison: input=");
    push_decimal(&mut message, input as u64);
    push_str(&mut message, "Hz target=");
    push_decimal(&mut message, target as u64);
    push_str(&mut message, "Hz candidate=");
    push_decimal(&mut message, candidate as u64);
    push_str(&mut message, "Hz");
    Err(Failure { kind: ErrorKind::InvalidInput, message })
}

/// The key of harmonic `number` in the suite metrics: `h<number>_dbc`.
pub fn harmonic_key(number: u64) -> (r: String)
    ensures
        r@ == "h"@ + decimal(number as nat) + "_dbc"@,
{
    let mut r = string_from("h");
    push_decimal(&mut r, number);
    push_str(&mut r, "_dbc");
    r
}

/// The label of harmonic `number` in the text report: `H<number> dBc`.
pub fn harmonic_label(number: u64) -> (r: String)
    ensures
        r@ == "H"@ + decimal(number as nat) + " dBc"@,
{
    let mut r = string_from("H");
    push_decimal(&mut r, number);
    push_str(&mut r, " dBc");
    r
}

// ---------------------------------------------------------------------------
// Fixed-width columns of the text report
// ---------------------------------------------------------------------------
/// `n` spaces.
pub open spec fn spaces(n: nat) -> Seq<char> {
    repeat_char(' ', n)
}

/// `{:<width}`: `s` padded with spaces on the right to `width` characters.
pub open spec fn pad_right(s: Seq<char>, width: nat) -> Seq<char> {
    if s.len() < width {
        s + spaces((width - s.len()) as nat)
    } else {
        s
    }
}

/// `{:>width}`: `s` padded with spaces on the left to `width` characters.
pub open spec fn pad_left(s: Seq<char>, width: nat) -> Seq<char> {
    if s.len() < width {
        spaces((width - s.len()) as nat) + s
    } else {
        s
    }
}

/// A line of four columns, the first left-aligned, the others right-aligned,
/// separated by single spaces and ended by a newline.
pub open spec fn columns_line(
    first: Seq<char>,
    first_width: nat,
    second: Seq<char>,
    third: Seq<char>,
    fourth: Seq<char>,
) -> Seq<char> {
    pad_right(first, first_width) + " "@ + pad_left(second, 11) + " "@ + pad_left(third, 13) + " "@
        + pad_left(fourth, 10) + "\n"@
}

/// Appends `n` spaces.
fn push_spaces(s: &mut String, n: usize)
    ensures
        final(s)@ == old(s)@ + spaces(n as nat),
{
    push_repeated(s, ' ', n);
}

/// Appends `t` padded on the right to `width` characters.
pub fn push_padded_right(s: &mut String, t: &str, width: usize)
    ensures
        final(s)@ == old(s)@ + pad_right(t@, width as nat),
{
    let n = t.unicode_len();
    push_str(s, t);
    if n < width {
        push_spaces(s, width - n);
    }
    assert(final(s)@ =~= old(s)@ + pad_right(t@, width as nat));
}

/// Appends `t` padded on the left to `width` characters.
pub fn push_padded_left(s: &mut String, t: &str, width: usize)
    ensures
        final(s)@ == old(s)@ + pad_left(t@, width as nat),
{
    let n = t.unicode_len();
    if n < width {
        push_spaces(s, width - n);
    }
    push_str(s, t);
    assert(final(s)@ =~= old(s)@ + pad_left(t@, width as nat));
}

/// Appends a four-column line.
fn push_columns(s: &mut String, first: &str, first_width: usize, second: &str, third: &str, fourth: &str)
    ensures
        final(s)@ == old(s)@ + columns_line(first@, first_width as nat, second@, third@, fourth@),
{
    push_padded_right(s, first, first_width);
    push_str(s, " ");
    push_padded_left(s, second, 11);
    push_str(s, " ");
    push_padded_left(s, third, 13);
    push_str(s, " ");
    push_padded_left(s, fourth, 10);
    push_str(s, "\n");
    assert(final(s)@ =~= old(s)@ + columns_line(first@, first_width as nat, second@, third@, fourth@));
}

/// Appends the header of a metric table: `Metric`, `Target`, `Candidate`, `Diff`.
pub fn write_metric_header(out: &mut String)
    ensures
        final(out)@ == old(out)@ + columns_line("Metric"@, 22, "Target"@, "Candidate"@, "Diff"@),
{
    push_columns(out, "Metric", 22, "Target", "Candidate", "Diff");
}

/// Appends the header of a band table: `Freq`, `Target dB`, `Candidate dB`, `Diff`.
pub fn write_band_header(out: &mut String)
    ensures
        final(out)@ == old(out)@ + columns_line("Freq"@, 14, "Target dB"@, "Candidate dB"@, "Diff"@),
{
    push_columns(out, "Freq", 14, "Target dB", "Candidate dB", "Diff");
}

/// Appends a metric or band row whose three values are already formatted.
pub fn write_row(out: &mut String, label: &str, label_width: usize, target: &str, candidate: &str, diff: &str)
    ensures
        final(out)@ == old(out)@ + columns_line(label@, label_width as nat, target@, candidate@, diff@),
{
    push_columns(out, label, label_width, target, candidate, diff);
}

// ---------------------------------------------------------------------------
// Matching the three directories
// ---------------------------------------------------------------------------
/// The parts of a mismatch message: the missing names, then the extra ones.
pub open spec fn mismatch_parts(missing: Seq<Seq<char>>, extra: Seq<Seq<char>>) -> Seq<Seq<char>> {
    let m = if missing.len() > 0 {
        seq!["missing WAV files: "@ + join(missing, ", "@)]
    } else {
        Seq::<Seq<char>>::empty()
    };
    let e = if extra.len() > 0 {
        seq!["extra WAV files: "@ + join(extra, ", "@)]
    } else {
        Seq::<Seq<char>>::empty()
    };
    m + e
}

/// The message when the WAV files of directory `label` are not exactly those
/// of the input directory; `None` when they are.
pub open spec fn filename_set_check(label: Seq<char>, input: Seq<Seq<char>>, actual: Seq<Seq<char>>) -> Option<Seq<char>> {
    let missing = without(input, actual);
    let extra = without(actual, input);
    if missing.len() == 0 && extra.len() == 0 {
        None
    } else {
        Some(label + " does not exactly match input-dir: "@ + join(mismatch_parts(missing, extra), "; "@))
    }
}

/// Checks that directory `label` holds exactly the WAV file names of the
/// input directory; otherwise the error lists the missing and the extra names.
pub fn validate_exact_filename_set(label: &str, input_files: &FileNameSet, actual_files: &FileNameSet) -> (r: Result<(), Failure>)
    ensures
        match filename_set_check(label@, input_files@, actual_files@) {
            Some(message) => r matches Err(f) && f.kind == ErrorKind::InvalidInput && f.message@ == message,
            None => r is Ok,
        },
{
    let missing = input_files.difference(actual_files);
    let extra = actual_files.difference(input_files);
    if missing.len() == 0 && extra.len() == 0 {
        return Ok(());
    }
    let mut parts: Vec<String> = Vec::new();
    if missing.len() > 0 {
        let mut part = string_from("missing WAV files: ");
        let list = join_strings(&missing, ", ");
        push_str(&mut part, list.as_str());
        parts.push(part);
    }
    if extra.len() > 0 {
        let ghost before = parts.deep_view();
        let mut part = string_from("extra WAV files: ");
        let list = join_strings(&extra, ", ");
        push_str(&mut part, list.as_str());
        parts.push(part);
        assert(parts.deep_view() =~= before.push(part@));
    }
    assert(parts.deep_view() =~= mismatch_parts(missing.deep_view(), extra.deep_view()));
    let mut message = string_from(label);
    push_str(&mut message, " does not exactly match input-dir: ");
    let joined = join_strings(&parts, "; ");
    push_str(&mut message, joined.as_str());
    Err(Failure { kind: ErrorKind::InvalidInput, message })
}

// ---------------------------------------------------------------------------
// The order of the tests
// ---------------------------------------------------------------------------
/// One test of the suite: a file name and the analysis it gets.
#[derive(Debug)]
pub struct SuiteFileSpec {
    pub file_name: String,
    pub test_type: SuiteTestType,
}

impl View for SuiteFileSpec {
    type V = (Seq<char>, SuiteTestType);

    open spec fn view(&self) -> (Seq<char>, SuiteTestType) {
        (self.file_name@, self.test_type)
    }
}

/// The views of a list of suite tests.
pub open spec fn spec_views(v: Seq<SuiteFileSpec>) -> Seq<(Seq<char>, SuiteTestType)> {
    v.map_values(|s: SuiteFileSpec| s@)
}

/// The names of `names` whose test type is `t`, in order.
pub open spec fn names_of_type(names: Seq<Seq<char>>, t: SuiteTestType) -> Seq<Seq<char>>
    decreases names.len(),
{
    if names.len() == 0 {
        Seq::<Seq<char>>::empty()
    } else {
        let r = names_of_type(names.drop_last(), t);
        if test_type_of(names.last()) == t {
            r.push(names.last())
        } else {
            r
        }
    }
}

/// The tests of type `t` over `names`, in order.
pub open spec fn planned(names: Seq<Seq<char>>, t: SuiteTestType) -> Seq<(Seq<char>, SuiteTestType)> {
    names_of_type(names, t).map_values(|n: Seq<char>| (n, t))
}

/// The tests of the first `k` types, in suite order.
pub open spec fn plan_upto(names: Seq<Seq<char>>, k: nat) -> Seq<(Seq<char>, SuiteTestType)>
    decreases k,
{
    if k == 0 {
        Seq::<(Seq<char>, SuiteTestType)>::empty()
    } else {
        plan_upto(names, (k - 1) as nat) + planned(names, all_types()[k - 1])
    }
}

/// The order in which the suite runs its tests: grouped by test type in the
/// order sine, sweep, noise, two-tone, general, and within a type in the
/// order of `names`.
pub open spec fn suite_plan(names: Seq<Seq<char>>) -> Seq<(Seq<char>, SuiteTestType)> {
    plan_upto(names, 5)
}

/// The tests of the suite, one per input file, in the order they run.
pub fn plan_suite(input_files: &FileNameSet) -> (r: Vec<SuiteFileSpec>)
    ensures
        spec_views(r@) == suite_plan(input_files@),
{
    let names = input_files.names();
    let types = SuiteTestType::all();
    let mut plan: Vec<SuiteFileSpec> = Vec::new();
    let mut ti: usize = 0;
    while ti < 5
        invariant
            ti <= 5,
            types@ == all_types(),
            names.deep_view() == input_files@,
            spec_views(plan@) == plan_upto(names.deep_view(), ti as nat),
        decreases 5 - ti,
    {
        let t = types[ti];
        let mut i: usize = 0;
        while i < names.len()
            invariant
                i <= names.len(),
                ti < 5,
                t == all_types()[ti as int],
                spec_views(plan@) == plan_upto(names.deep_view(), ti as nat) + planned(
                    names.deep_view().take(i as int),
                    t,
                ),
            decreases names.len() - i,
        {
            let ghost taken = names.deep_view().take(i + 1);
            assert(taken.drop_last() =~= names.deep_view().take(i as int));
            assert(taken.last() == names[i as int]@);
            if detect_test_type(names[i].as_str()) == t {
                let ghost before = spec_views(plan@);
                plan.push(SuiteFileSpec { file_name: names[i].clone(), test_type: t });
                assert(spec_views(plan@) =~= before.push((names[i as int]@, t)));
                assert(planned(taken, t) =~= planned(names.deep_view().take(i as int), t).push(
                    (names[i as int]@, t),
                ));
            } else {
                assert(planned(taken, t) =~= planned(names.deep_view().take(i as int), t));
            }
            assert(spec_views(plan@) =~= plan_upto(names.deep_view(), ti as nat) + planned(
                taken,
                t,
            ));
            i = i + 1;
        }
        assert(names.deep_view().take(names.len() as int) =~= names.deep_view());
        ti = ti + 1;
    }
    plan
}

/// The number of tests of type `t` in a plan.
pub open spec fn count_of_type(plan: Seq<(Seq<char>, SuiteTestType)>, t: SuiteTestType) -> nat
    decreases plan.len(),
{
    if plan.len() == 0 {
        0
    } else {
        count_of_type(plan.drop_last(), t) + if plan.last().1 == t {
            1nat
        } else {
            0nat
        }
    }
}

/// The lines `<type>: <count>` of the console summary, for the types
/// `all_types()[from..5]` that have tests.
pub open spec fn count_lines(plan: Seq<(Seq<char>, SuiteTestType)>, k: nat) -> Seq<char>
    decreases k,
{
    if k == 0 {
        Seq::<char>::empty()
    } else {
        let t = all_types()[k - 1];
        let n = count_of_type(plan, t);
        count_lines(plan, (k - 1) as nat) + if n > 0 {
            json_name_of(t) + ": "@ + decimal(n) + "\n"@
        } else {
            Seq::<char>::empty()
        }
    }
}

/// What the suite prints when it is done: the test count, the count of each
/// type that has tests, and the two report paths.
pub open spec fn summary_text(plan: Seq<(Seq<char>, SuiteTestType)>, txt_path: Seq<char>, json_path: Seq<char>) -> Seq<char> {
    "Found "@ + decimal(plan.len()) + " tests\n"@ + count_lines(plan, 5) + "\n"@ + "Reports written:\n"@
        + txt_path + "\n"@ + json_path + "\n"@
}

/// The number of tests of type `t` in `plan`.
pub fn count_tests_of_type(plan: &Vec<SuiteFileSpec>, t: SuiteTestType) -> (r: usize)
    ensures
        r == count_of_type(spec_views(plan@), t),
{
    let mut n: usize = 0;
    let mut i: usize = 0;
    while i < plan.len()
        invariant
            i <= plan.len(),
            n == count_of_type(spec_views(plan@).take(i as int), t),
            n <= i,
        decreases plan.len() - i,
    {
        let ghost taken = spec_views(plan@).take(i + 1);
        assert(taken.drop_last() =~= spec_views(plan@).take(i as int));
        if plan[i].test_type == t {
            n = n + 1;
        }
        i = i + 1;
    }
    assert(spec_views(plan@).take(plan.len() as int) =~= spec_views(plan@));
    n
}

/// The console summary of a finished suite.
pub fn console_summary(plan: &Vec<SuiteFileSpec>, txt_path: &str, json_path: &str) -> (r: String)
    ensures
        r@ == summary_text(spec_views(plan@), txt_path@, json_path@),
{
    let mut r = string_from("Found ");
    push_decimal(&mut r, plan.len() as u64);
    push_str(&mut r, " tests\n");
    let ghost head = r@;
    let types = SuiteTestType::all();
    let mut k: usize = 0;
    while k < 5
        invariant
            k <= 5,
            types@ == all_types(),
            r@ == head + count_lines(spec_views(plan@), k as nat),
        decreases 5 - k,
    {
        let t = types[k];
        let n = count_tests_of_type(plan, t);
        if n > 0 {
            push_str(&mut r, t.json_name());
            push_str(&mut r, ": ");
            push_decimal(&mut r, n as u64);
            push_str(&mut r, "\n");
        }
        assert(r@ =~= head + count_lines(spec_views(plan@), (k + 1) as nat));
        k = k + 1;
    }
    push_str(&mut r, "\n");
    push_str(&mut r, "Reports written:\n");
    push_str(&mut r, txt_path);
    push_str(&mut r, "\n");
    push_str(&mut r, json_path);
    push_str(&mut r, "\n");
    assert(r@ =~= summary_text(spec_views(plan@), txt_path@, json_path@));
    r
}

// ---------------------------------------------------------------------------
// Laws
// ---------------------------------------------------------------------------
/// The names of type `t` are names of `names`, and each has type `t`.
pub proof fn lemma_names_of_type_members(names: Seq<Seq<char>>, t: SuiteTestType)
    ensures
        forall|k: int|
            0 <= k < names_of_type(names, t).len() ==> names.contains(
                #[trigger] names_of_type(names, t)[k],
            ) && test_type_of(names_of_type(names, t)[k]) == t,
    decreases names.len(),
{
    if names.len() > 0 {
        let prev = names.drop_last();
        lemma_names_of_type_members(prev, t);
        let r = names_of_type(prev, t);
        assert forall|k: int| 0 <= k < r.len() implies names.contains(#[trigger] r[k]) by {
            let j = choose|j: int| 0 <= j < prev.len() && prev[j] == r[k];
            assert(names[j] == r[k]);
        }
        assert(names[names.len() - 1] == names.last());
    }
}

/// Every name of `names` is among the names of its own type.
pub proof fn lemma_names_of_type_complete(names: Seq<Seq<char>>, n: Seq<char>)
    requires
        names.contains(n),
    ensures
        names_of_type(names, test_type_of(n)).contains(n),
    decreases names.len(),
{
    let t = test_type_of(n);
    let prev = names.drop_last();
    let r = names_of_type(prev, t);
    if names.last() == n {
        assert(r.push(n)[r.len() as int] == n);
    } else {
        let k = choose|k: int| 0 <= k < names.len() && names[k] == n;
        assert(prev[k] == n);
        lemma_names_of_type_complete(prev, n);
        let j = choose|j: int| 0 <= j < r.len() && r[j] == n;
        if test_type_of(names.last()) == t {
            assert(r.push(names.last())[j] == n);
        }
    }
}

/// Each name has exactly one type, so the groups add up to all the names.
pub proof fn lemma_types_partition(names: Seq<Seq<char>>)
    ensures
        names_of_type(names, SuiteTestType::Sine).len() + names_of_type(names, SuiteTestType::Sweep).len()
            + names_of_type(names, SuiteTestType::Noise).len() + names_of_type(
            names,
            SuiteTestType::Twotone,
        ).len() + names_of_type(names, SuiteTestType::General).len() == names.len(),
    decreases names.len(),
{
    if names.len() > 0 {
        lemma_types_partition(names.drop_last());
    }
}

/// The suite runs every input file once, with the test type its name gives:
/// the plan has one test per name, each test is `(name, type of name)` for a
/// name of the input, and every input name is planned.
pub proof fn law_plan_covers_inputs(names: Seq<Seq<char>>)
    ensures
        suite_plan(names).len() == names.len(),
        forall|k: int|
            0 <= k < suite_plan(names).len() ==> names.contains((#[trigger] suite_plan(names)[k]).0)
                && suite_plan(names)[k].1 == test_type_of(suite_plan(names)[k].0),
        forall|n: Seq<char>| #[trigger] names.contains(n) ==> suite_plan(names).contains((n, test_type_of(n))),
{
    reveal_with_fuel(plan_upto, 6);
    lemma_types_partition(names);
    let p = suite_plan(names);
    let types = all_types();
    assert forall|k: int| 0 <= k < p.len() implies names.contains((#[trigger] p[k]).0) && p[k].1
        == test_type_of(p[k].0) by {
        lemma_plan_upto_members(names, 5);
    }
    assert forall|n: Seq<char>| #[trigger] names.contains(n) implies p.contains((n, test_type_of(n))) by {
        let t = test_type_of(n);
        lemma_names_of_type_complete(names, n);
        let j = choose|j: int| 0 <= j < names_of_type(names, t).len() && names_of_type(names, t)[j] == n;
        assert(planned(names, t)[j] == (n, t));
        lemma_plan_upto_contains(names, 5, t, j);
    }
}

/// Every entry of `plan_upto(names, k)` is a name of `names` paired with its type.
proof fn lemma_plan_upto_members(names: Seq<Seq<char>>, k: nat)
    requires
        k <= 5,
    ensures
        forall|i: int|
            0 <= i < plan_upto(names, k).len() ==> names.contains((#[trigger] plan_upto(names, k)[i]).0)
                && plan_upto(names, k)[i].1 == test_type_of(plan_upto(names, k)[i].0),
    decreases k,
{
    if k > 0 {
        lemma_plan_upto_members(names, (k - 1) as nat);
        let t = all_types()[k - 1];
        lemma_names_of_type_members(names, t);
        let a = plan_upto(names, (k - 1) as nat);
        let b = planned(names, t);
        assert forall|i: int| 0 <= i < (a + b).len() implies names.contains((#[trigger] (a + b)[i]).0)
            && (a + b)[i].1 == test_type_of((a + b)[i].0) by {
            if i >= a.len() {
                assert(b[i - a.len()] == (names_of_type(names, t)[i - a.len()], t));
            } else {
                assert((a + b)[i] == a[i]);
            }
        }
    }
}

/// The `j`-th test of type `t` is in the plan once its type is reached.
proof fn lemma_plan_upto_contains(names: Seq<Seq<char>>, k: nat, t: SuiteTestType, j: int)
    requires
        k <= 5,
        type_rank(t) < k,
        0 <= j < planned(names, t).len(),
    ensures
        plan_upto(names, k).contains(planned(names, t)[j]),
    decreases k,
{
    let a = plan_upto(names, (k - 1) as nat);
    let b = planned(names, all_types()[k - 1]);
    if all_types()[k - 1] == t {
        assert((a + b)[a.len() + j] == b[j]);
    } else {
        lemma_plan_upto_contains(names, (k - 1) as nat, t, j);
        let i = choose|i: int| 0 <= i < a.len() && a[i] == planned(names, t)[j];
        assert((a + b)[i] == a[i]);
    }
}

/// The names of one type keep the increasing order of `names`.
pub proof fn lemma_names_of_type_sorted(names: Seq<Seq<char>>, t: SuiteTestType)
    requires
        sorted_names(names),
    ensures
        sorted_names(names_of_type(names, t)),
    decreases names.len(),
{
    if names.len() > 0 {
        let prev = names.drop_last();
        assert(sorted_names(prev)) by {
            assert forall|i: int, j: int| 0 <= i < j < prev.len() implies lex_lt(#[trigger] prev[i], #[trigger] prev[j]) by {
                assert(prev[i] == names[i] && prev[j] == names[j]);
            }
        }
        lemma_names_of_type_sorted(prev, t);
        lemma_names_of_type_members(prev, t);
        let r = names_of_type(prev, t);
        if test_type_of(names.last()) == t {
            let q = r.push(names.last());
            assert forall|i: int, j: int| 0 <= i < j < q.len() implies lex_lt(#[trigger] q[i], #[trigger] q[j]) by {
                if j == r.len() {
                    assert(prev.contains(r[i]));
                    let m = choose|m: int| 0 <= m < prev.len() && prev[m] == r[i];
                    assert(names[m] == r[i]);
                    assert(names[names.len() - 1] == names.last());
                } else {
                    assert(q[i] == r[i] && q[j] == r[j]);
                }
            }
        }
    }
}

/// Tests run grouped by type (sine, sweep, noise, two-tone, general) and, for
/// increasing input names, by name within a type: of two tests, the earlier
/// one has a type of lower rank, or the same type and a smaller name.
pub open spec fn plan_ordered(p: Seq<(Seq<char>, SuiteTestType)>) -> bool {
    forall|i: int, j: int|
        0 <= i < j < p.len() ==> type_rank((#[trigger] p[i]).1) < type_rank((#[trigger] p[j]).1) || (
        p[i].1 == p[j].1 && lex_lt(p[i].0, p[j].0))
}

/// The plan of the first `k` types is ordered and holds only types of rank
/// below `k`.
proof fn lemma_plan_upto_ordered(names: Seq<Seq<char>>, k: nat)
    requires
        k <= 5,
        sorted_names(names),
    ensures
        plan_ordered(plan_upto(names, k)),
        forall|i: int| 0 <= i < plan_upto(names, k).len() ==> type_rank((#[trigger] plan_upto(names, k)[i]).1) < k,
    decreases k,
{
    if k > 0 {
        lemma_plan_upto_ordered(names, (k - 1) as nat);
        let t = all_types()[k - 1];
        assert(type_rank(t) == k - 1);
        lemma_names_of_type_sorted(names, t);
        let a = plan_upto(names, (k - 1) as nat);
        let b = planned(names, t);
        let nt = names_of_type(names, t);
        let c = a + b;
        assert forall|i: int| 0 <= i < c.len() implies type_rank((#[trigger] c[i]).1) < k by {
            if i >= a.len() {
                assert(b[i - a.len()] == (nt[i - a.len()], t));
            } else {
                assert(c[i] == a[i]);
            }
        }
        assert forall|i: int, j: int| 0 <= i < j < c.len() implies type_rank((#[trigger] c[i]).1) < type_rank(
            (#[trigger] c[j]).1,
        ) || (c[i].1 == c[j].1 && lex_lt(c[i].0, c[j].0)) by {
            if j < a.len() {
                assert(c[i] == a[i] && c[j] == a[j]);
            } else if i < a.len() {
                assert(c[i] == a[i]);
                assert(c[j] == b[j - a.len()]);
                assert(b[j - a.len()] == (nt[j - a.len()], t));
            } else {
                assert(c[i] == b[i - a.len()] && c[j] == b[j - a.len()]);
                assert(b[i - a.len()] == (nt[i - a.len()], t));
                assert(b[j - a.len()] == (nt[j - a.len()], t));
            }
        }
    }
}

/// With the input names in increasing order (as a directory listing set holds
/// them), the plan is ordered by test type, then by name.
pub proof fn law_plan_is_ordered(names: Seq<Seq<char>>)
    requires
        sorted_names(names),
    ensures
        plan_ordered(suite_plan(names)),
{
    lemma_plan_upto_ordered(names, 5);
}

/// A directory passes the file check exactly when it holds the same WAV file
/// names as the input directory.
pub proof fn law_exact_match_iff_same_names(label: Seq<char>, input: Seq<Seq<char>>, actual: Seq<Seq<char>>)
    requires
        sorted_names(input),
        sorted_names(actual),
    ensures
        filename_set_check(label, input, actual) is None <==> input == actual,
{
    let missing = without(input, actual);
    let extra = without(actual, input);
    if missing.len() == 0 && extra.len() == 0 {
        assert forall|x: Seq<char>| #![trigger input.contains(x)] #![trigger actual.contains(x)] input.contains(x) <==> actual.contains(x) by {
            crate::file_set::lemma_without(input, actual, x);
            crate::file_set::lemma_without(actual, input, x);
        }
        crate::file_set::lemma_sorted_unique(input, actual);
    }
    if input == actual {
        if missing.len() > 0 {
            crate::file_set::lemma_without(input, actual, missing[0]);
            assert(missing.contains(missing[0]));
        }
        if extra.len() > 0 {
            crate::file_set::lemma_without(actual, input, extra[0]);
            assert(extra.contains(extra[0]));
        }
    }
}

/// How a suite file is classified, stated on its stem (the name without
/// `.wav`): a stem starting with `sine_` is a sine test, else one starting
/// with `sweep_` a sweep, else one starting with `pink_noise` or
/// `white_noise` (whatever follows) a noise test, else one starting with
/// `twotone_` or `two_tone_` a two-tone test, and anything else is general.
pub proof fn law_test_type_by_prefix(file_name: Seq<char>)
    ensures
        ({
            let stem = strip_suffix_or_self(file_name, ".wav"@);
            &&& has_prefix(stem, "sine_"@) ==> test_type_of(file_name) == SuiteTestType::Sine
            &&& !has_prefix(stem, "sine_"@) && has_prefix(stem, "sweep_"@) ==> test_type_of(file_name)
                == SuiteTestType::Sweep
            &&& !has_prefix(stem, "sine_"@) && !has_prefix(stem, "sweep_"@) && (has_prefix(
                stem,
                "pink_noise"@,
            ) || has_prefix(stem, "white_noise"@)) ==> test_type_of(file_name) == SuiteTestType::Noise
            &&& !has_prefix(stem, "sine_"@) && !has_prefix(stem, "sweep_"@) && !has_prefix(
                stem,
                "pink_noise"@,
            ) && !has_prefix(stem, "white_noise"@) && (has_prefix(stem, "twotone_"@) || has_prefix(
                stem,
                "two_tone_"@,
            )) ==> test_type_of(file_name) == SuiteTestType::Twotone
            &&& !has_prefix(stem, "sine_"@) && !has_prefix(stem, "sweep_"@) && !has_prefix(
                stem,
                "pink_noise"@,
            ) && !has_prefix(stem, "white_noise"@) && !has_prefix(stem, "twotone_"@) && !has_prefix(
                stem,
                "two_tone_"@,
            ) ==> test_type_of(file_name) == SuiteTestType::General
        }),
{
}

} // verus!

//! The layout of the suite's text report: a title block naming the three
//! directories, then one section per test type that has tests, in suite
//! order, each listing its tests under their ids. The body of each test (its
//! metric tables, with formatted numbers) is rendered by the caller.
use vstd::prelude::*;
use crate::suite::{all_types, heading_of, SuiteTestType};
use crate::text::{decimal, push_decimal, push_repeated, push_str, repeat_char, string_from};

verus! {

/// One test of the text report: its id, its type and its rendered body.
#[derive(Debug)]
pub struct RenderedTest {
    pub id: String,
    pub test_type: SuiteTestType,
    pub text: String,
}

impl View for RenderedTest {
    type V = (Seq<char>, SuiteTestType, Seq<char>);

    open spec fn view(&self) -> (Seq<char>, SuiteTestType, Seq<char>) {
        (self.id@, self.test_type, self.text@)
    }
}

/// The views of a list of rendered tests.
pub open spec fn rendered_views(v: Seq<RenderedTest>) -> Seq<(Seq<char>, SuiteTestType, Seq<char>)> {
    v.map_values(|t: RenderedTest| t@)
}

/// A rule of `n` `=` characters and a newline.
pub open spec fn double_rule(n: nat) -> Seq<char> {
    repeat_char('=', n) + "\n"@
}

/// The lines of one test: a blank line, its id, a rule of 40 `-`, its body.
pub open spec fn test_section(t: (Seq<char>, SuiteTestType, Seq<char>)) -> Seq<char> {
    "\n"@ + t.0 + "\n"@ + repeat_char('-', 40) + "\n"@ + t.2
}

/// The sections of the tests of type `ty`, in the order of `tests`.
pub open spec fn sections_of_type(tests: Seq<(Seq<char>, SuiteTestType, Seq<char>)>, ty: SuiteTestType) -> Seq<char>
    decreases tests.len(),
{
    if tests.len() == 0 {
        Seq::<char>::empty()
    } else {
        sections_of_type(tests.drop_last(), ty) + if tests.last().1 == ty {
            test_section(tests.last())
        } else {
            Seq::<char>::empty()
        }
    }
}

/// Whether `tests` holds a test of type `ty`.
pub open spec fn has_type(tests: Seq<(Seq<char>, SuiteTestType, Seq<char>)>, ty: SuiteTestType) -> bool {
    exists|i: int| 0 <= i < tests.len() && (#[trigger] tests[i]).1 == ty
}

/// The section of type `ty`: its heading between two rules, then its tests;
/// nothing when no test has that type.
pub open spec fn type_block(tests: Seq<(Seq<char>, SuiteTestType, Seq<char>)>, ty: SuiteTestType) -> Seq<char> {
    if has_type(tests, ty) {
        "\n"@ + double_rule(56) + heading_of(ty) + "\n"@ + double_rule(56) + sections_of_type(tests, ty)
    } else {
        Seq::<char>::empty()
    }
}

/// The sections of the first `k` test types, in suite order.
pub open spec fn blocks_upto(tests: Seq<(Seq<char>, SuiteTestType, Seq<char>)>, k: nat) -> Seq<char>
    decreases k,
{
    if k == 0 {
        Seq::<char>::empty()
    } else {
        blocks_upto(tests, (k - 1) as nat) + type_block(tests, all_types()[k - 1])
    }
}

/// The text report: the title block, the directories, the number of tests,
/// then the section of each test type that has tests.
pub open spec fn text_report(
    input_dir: Seq<char>,
    target_dir: Seq<char>,
    candidate_dir: Seq<char>,
    tests: Seq<(Seq<char>, SuiteTestType, Seq<char>)>,
) -> Seq<char> {
    double_rule(56) + "COMPARE SUITE\n"@ + double_rule(56) + "\n"@ + "Input dir:     "@ + input_dir
        + "\n"@ + "Target dir:    "@ + target_dir + "\n"@ + "Candidate dir: "@ + candidate_dir + "\n"@
        + "\n"@ + "Matched tests: "@ + decimal(tests.len()) + "\n"@ + blocks_upto(tests, 5)
}

/// Appends a rule of `n` `=` characters and a newline.
fn push_double_rule(s: &mut String, n: usize)
    ensures
        final(s)@ == old(s)@ + double_rule(n as nat),
{
    push_repeated(s, '=', n);
    push_str(s, "\n");
    assert(final(s)@ =~= old(s)@ + double_rule(n as nat));
}

/// Appends the section of type `ty`.
fn push_type_block(out: &mut String, tests: &Vec<RenderedTest>, ty: SuiteTestType)
    ensures
        final(out)@ == old(out)@ + type_block(rendered_views(tests@), ty),
{
    let ghost all = rendered_views(tests@);
    let mut found = false;
    let mut i: usize = 0;
    while i < tests.len()
        invariant
            i <= tests.len(),
            all == rendered_views(tests@),
            found <==> exists|j: int| 0 <= j < i && (#[trigger] all[j]).1 == ty,
        decreases tests.len() - i,
    {
        assert(all[i as int] == tests@[i as int]@);
        if tests[i].test_type == ty {
            found = true;
        }
        i = i + 1;
    }
    if !found {
        return;
    }
    push_str(out, "\n");
    push_double_rule(out, 56);
    push_str(out, heading_str(ty));
    push_str(out, "\n");
    push_double_rule(out, 56);
    let ghost head = out@;
    let mut k: usize = 0;
    while k < tests.len()
        invariant
            k <= tests.len(),
            all == rendered_views(tests@),
            out@ == head + sections_of_type(all.take(k as int), ty),
        decreases tests.len() - k,
    {
        let ghost taken = all.take(k + 1);
        assert(taken.drop_last() =~= all.take(k as int));
        assert(taken.last() == tests@[k as int]@);
        if tests[k].test_type == ty {
            push_str(out, "\n");
            push_str(out, tests[k].id.as_str());
            push_str(out, "\n");
            push_repeated(out, '-', 40);
            push_str(out, "\n");
            push_str(out, tests[k].text.as_str());
        }
        assert(out@ =~= head + sections_of_type(taken, ty));
        k = k + 1;
    }
    assert(all.take(tests.len() as int) =~= all);
    assert(out@ =~= old(out)@ + type_block(all, ty));
}

/// The heading of a test type.
fn heading_str(ty: SuiteTestType) -> (r: &'static str)
    ensures
        r@ == heading_of(ty),
{
    ty.heading()
}

/// The text report of a suite run over `input_dir`, `target_dir` and
/// `candidate_dir` with these tests, in the order they ran.
pub fn render_text_report(input_dir: &str, target_dir: &str, candidate_dir: &str, tests: &Vec<RenderedTest>) -> (r: String)
    ensures
        r@ == text_report(input_dir@, target_dir@, candidate_dir@, rendered_views(tests@)),
{
    let ghost all = rendered_views(tests@);
    let mut out = String::new();
    push_double_rule(&mut out, 56);
    push_str(&mut out, "COMPARE SUITE\n");
    push_double_rule(&mut out, 56);
    push_str(&mut out, "\n");
    push_str(&mut out, "Input dir:     ");
    push_str(&mut out, input_dir);
    push_str(&mut out, "\n");
    push_str(&mut out, "Target dir:    ");
    push_str(&mut out, target_dir);
    push_str(&mut out, "\n");
    push_str(&mut out, "Candidate dir: ");
    push_str(&mut out, candidate_dir);
    push_str(&mut out, "\n");
    push_str(&mut out, "\n");
    push_str(&mut out, "Matched tests: ");
    push_decimal(&mut out, tests.len() as u64);
    push_str(&mut out, "\n");
    let ghost head = out@;
    let types = SuiteTestType::all();
    let mut t: usize = 0;
    while t < 5
        invariant
            t <= 5,
            types@ == all_types(),
            all == rendered_views(tests@),
            out@ == head + blocks_upto(all, t as nat),
        decreases 5 - t,
    {
        push_type_block(&mut out, tests, types[t]);
        assert(out@ =~= head + blocks_upto(all, (t + 1) as nat));
        t = t + 1;
    }
    assert(all.len() == tests@.len());
    assert(out@ =~= text_report(input_dir@, target_dir@, candidate_dir@, all));
    out
}

} // verus!

//! The file-name grammars of the test signals: `sine_<freq>_...`,
//! `sweep_<start>_<end>_...` and `twotone_<f1>_<f2>_...` (or
//! `two_tone_<f1>_<f2>...`). A frequency token is a number, optionally
//! followed by `k` (kilohertz) and, for sweeps and two-tone files, by `Hz` in
//! any case. The library finds the tokens; reading the number itself is
//! floating-point work done by the caller.
use vstd::prelude::*;
use crate::error::{ErrorKind, Failure};
use crate::text::{
    ascii_lower, ascii_lower_chars, chars_eq_str, chars_of, decimal, lemma_split_nonempty,
    push_decimal, push_str, split_chars, split_on, string_from, string_of, strip_suffix,
    strip_suffix_chars, strip_suffix_or_self, strip_suffix_or_self_chars,
};

verus! {

/// A frequency token: the digits of the number, and whether it was followed
/// by `k` (so the number is in kilohertz).
#[derive(Debug)]
pub struct FrequencyToken {
    pub number: String,
    pub kilo: bool,
}

impl View for FrequencyToken {
    type V = (Seq<char>, bool);

    open spec fn view(&self) -> (Seq<char>, bool) {
        (self.number@, self.kilo)
    }
}

/// A token with an optional trailing `k`.
pub open spec fn kilo_token(t: Seq<char>) -> (Seq<char>, bool) {
    match strip_suffix(t, "k"@) {
        Some(n) => (n, true),
        None => (t, false),
    }
}

/// A token lowercased, with an optional trailing `hz` and then an optional `k`.
pub open spec fn unit_token(t: Seq<char>) -> (Seq<char>, bool) {
    kilo_token(strip_suffix_or_self(ascii_lower(t), "hz"@))
}

/// The parts of a file name without `.wav`, split on `_`.
pub open spec fn name_parts(file_name: Seq<char>) -> Seq<Seq<char>> {
    split_on(strip_suffix_or_self(file_name, ".wav"@), '_')
}

/// The frequency token of a `sine_<freq>...` file name.
pub open spec fn sine_token_of(file_name: Seq<char>) -> Option<(Seq<char>, bool)> {
    let parts = name_parts(file_name);
    if parts.len() >= 2 && parts[0] == "sine"@ {
        Some(kilo_token(parts[1]))
    } else {
        None
    }
}

/// The start and end tokens of a `sweep_<start>_<end>...` file name.
pub open spec fn sweep_tokens_of(file_name: Seq<char>) -> Option<((Seq<char>, bool), (Seq<char>, bool))> {
    let parts = name_parts(file_name);
    if parts.len() >= 3 && parts[0] == "sweep"@ {
        Some((unit_token(parts[1]), unit_token(parts[2])))
    } else {
        None
    }
}

/// The two tokens of a `twotone_<f1>_<f2>...` or `two_tone_<f1>_<f2>...` file
/// name, in the order they appear.
pub open spec fn twotone_tokens_of(file_name: Seq<char>) -> Option<((Seq<char>, bool), (Seq<char>, bool))> {
    let parts = name_parts(file_name);
    if parts.len() >= 3 && parts[0] == "twotone"@ {
        Some((unit_token(parts[1]), unit_token(parts[2])))
    } else if parts.len() >= 4 && parts[0] == "two"@ && parts[1] == "tone"@ {
        Some((unit_token(parts[2]), unit_token(parts[3])))
    } else {
        None
    }
}

/// A token with an optional trailing `k` removed.
fn kilo_token_of(t: &Vec<char>) -> (r: FrequencyToken)
    ensures
        r@ == kilo_token(t@),
{
    match strip_suffix_chars(t, "k") {
        Some(n) => FrequencyToken { number: string_of(&n), kilo: true },
        None => FrequencyToken { number: string_of(t), kilo: false },
    }
}

/// A token lowercased, with an optional `hz` and then an optional `k` removed.
fn unit_token_of(t: &Vec<char>) -> (r: FrequencyToken)
    ensures
        r@ == unit_token(t@),
{
    let lower = ascii_lower_chars(t);
    let without_hz = strip_suffix_or_self_chars(&lower, "hz");
    kilo_token_of(&without_hz)
}

/// The parts of a file name without `.wav`, split on `_`.
fn parts_of(file_name: &str) -> (r: Vec<Vec<char>>)
    ensures
        r.deep_view() == name_parts(file_name@),
        r.len() >= 1,
{
    let name = chars_of(file_name);
    let stem = strip_suffix_or_self_chars(&name, ".wav");
    let parts = split_chars(&stem, '_');
    proof {
        lemma_split_nonempty(stem@, '_');
    }
    parts
}

/// The view of a part, as its characters.
proof fn lemma_part_view(parts: Vec<Vec<char>>, i: int)
    requires
        0 <= i < parts.len(),
    ensures
        parts.deep_view()[i] == parts@[i]@,
{
    crate::text::lemma_chars_deep_view(parts@[i]);
}

/// The frequency token of a `sine_<freq>...` file name, if it is one.
pub fn sine_frequency_token(file_name: &str) -> (r: Option<FrequencyToken>)
    ensures
        match r {
            Some(t) => sine_token_of(file_name@) == Some(t@),
            None => sine_token_of(file_name@) is None,
        },
{
    let parts = parts_of(file_name);
    proof {
        lemma_part_view(parts, 0);
    }
    if parts.len() >= 2 && chars_eq_str(&parts[0], "sine") {
        proof {
            lemma_part_view(parts, 1);
        }
        Some(kilo_token_of(&parts[1]))
    } else {
        None
    }
}

/// The start and end tokens of a `sweep_<start>_<end>...` file name, if it is one.
pub fn sweep_frequency_tokens(file_name: &str) -> (r: Option<(FrequencyToken, FrequencyToken)>)
    ensures
        match r {
            Some((a, b)) => sweep_tokens_of(file_name@) == Some((a@, b@)),
            None => sweep_tokens_of(file_name@) is None,
        },
{
    let parts = parts_of(file_name);
    proof {
        lemma_part_view(parts, 0);
    }
    if parts.len() >= 3 && chars_eq_str(&parts[0], "sweep") {
        proof {
            lemma_part_view(parts, 1);
            lemma_part_view(parts, 2);
        }
        Some((unit_token_of(&parts[1]), unit_token_of(&parts[2])))
    } else {
        None
    }
}

/// The two tokens of a `twotone_<f1>_<f2>...` or `two_tone_<f1>_<f2>...` file
/// name, if it is one.
pub fn twotone_frequency_tokens(file_name: &str) -> (r: Option<(FrequencyToken, FrequencyToken)>)
    ensures
        match r {
            Some((a, b)) => twotone_tokens_of(file_name@) == Some((a@, b@)),
            None => twotone_tokens_of(file_name@) is None,
        },
{
    let parts = parts_of(file_name);
    proof {
        lemma_part_view(parts, 0);
        if parts.len() >= 2 {
            lemma_part_view(parts, 1);
        }
        reveal_strlit("two");
        reveal_strlit("twotone");
        assert("two"@.len() != "twotone"@.len());
    }
    if parts.len() >= 3 && chars_eq_str(&parts[0], "twotone") {
        proof {
            lemma_part_view(parts, 1);
            lemma_part_view(parts, 2);
        }
        Some((unit_token_of(&parts[1]), unit_token_of(&parts[2])))
    } else if parts.len() >= 4 && chars_eq_str(&parts[0], "two") && chars_eq_str(&parts[1], "tone") {
        proof {
            lemma_part_view(parts, 1);
            lemma_part_view(parts, 2);
            lemma_part_view(parts, 3);
            reveal_strlit("two");
            reveal_strlit("twotone");
            assert("two"@.len() != "twotone"@.len());
        }
        Some((unit_token_of(&parts[2]), unit_token_of(&parts[3])))
    } else {
        None
    }
}

/// The message when an analysed pair of files differ in sample rate.
pub open spec fn sample_rate_mismatch_message(input: u32, output: u32) -> Seq<char> {
    "Input and output sample rates differ: "@ + decimal(input as nat) + "Hz vs "@ + decimal(
        output as nat,
    ) + "Hz"@
}

/// An input file and its processed output must share one sample rate.
pub fn check_same_sample_rate(input: u32, output: u32) -> (r: Result<(), Failure>)
    ensures
        input == output ==> r is Ok,
        input != output ==> (r matches Err(f) && f.kind == ErrorKind::InvalidInput && f.message@
            == sample_rate_mismatch_message(input, output)),
{
    if input == output {
        return Ok(());
    }
    let mut message = string_from("Input and output sample rates differ: ");
    push_decimal(&mut message, input as u64);
    push_str(&mut message, "Hz vs ");
    push_decimal(&mut message, output as u64);
    push_str(&mut message, "Hz");
    Err(Failure { kind: ErrorKind::InvalidInput, message })
}

/// The message when a sweep file name does not give the sweep range.
pub open spec fn sweep_name_message(id: Seq<char>) -> Seq<char> {
    "Could not determine sweep range from input filename '"@ + id
        + "'. Expected sweep_<start>_<end>_<level>.wav"@
}

/// The error for a sweep file name that does not give the sweep range.
pub fn sweep_name_error(id: &str) -> (f: Failure)
    ensures
        f.kind == ErrorKind::InvalidInput,
        f.message@ == sweep_name_message(id@),
{
    let mut message = string_from("Could not determine sweep range from input filename '");
    push_str(&mut message, id);
    push_str(&mut message, "'. Expected sweep_<start>_<end>_<level>.wav");
    Failure { kind: ErrorKind::InvalidInput, message }
}

/// The message when a two-tone file name does not give the two frequencies.
pub open spec fn twotone_name_message(id: Seq<char>) -> Seq<char> {
    "Could not determine two-tone frequencies from input filename '"@ + id
        + "'. Expected twotone_<f1>_<f2>_<level>.wav"@
}

/// The error for a two-tone file name that does not give the two frequencies.
pub fn twotone_name_error(id: &str) -> (f: Failure)
    ensures
        f.kind == ErrorKind::InvalidInput,
        f.message@ == twotone_name_message(id@),
{
    let mut message = string_from("Could not determine two-tone frequencies from input filename '");
    push_str(&mut message, id);
    push_str(&mut message, "'. Expected twotone_<f1>_<f2>_<level>.wav");
    Failure { kind: ErrorKind::InvalidInput, message }
}

/// `s` is a string of decimal digits.
pub open spec fn is_digits(s: Seq<char>) -> bool {
    forall|i: int| 0 <= i < s.len() ==> '0' <= #[trigger] s[i] <= '9'
}

/// Lowercasing a string of digits followed by `u` lowercases `u` alone.
proof fn lemma_lower_digits_then(n: Seq<char>, u: Seq<char>)
    requires
        is_digits(n),
    ensures
        ascii_lower(n + u) == n + ascii_lower(u),
{
    assert(ascii_lower(n + u) =~= n + ascii_lower(u)) by {
        assert forall|i: int| 0 <= i < n.len() implies #[trigger] ascii_lower(n + u)[i] == n[i] by {
            assert((n + u)[i] == n[i]);
        }
        assert forall|i: int| n.len() <= i < n.len() + u.len() implies #[trigger] ascii_lower(n + u)[i]
            == ascii_lower(u)[i - n.len()] by {
            assert((n + u)[i] == u[i - n.len()]);
        }
    }
}

/// A frequency token is read with its unit in any letter case: digits alone
/// are hertz; digits then `k` are kilohertz; digits then `Hz` (any case) are
/// hertz; digits then `kHz` (any case) are kilohertz. The number is the
/// digits, without the unit.
pub proof fn law_unit_token_reads_units(n: Seq<char>, u: Seq<char>)
    requires
        is_digits(n),
    ensures
        u.len() == 0 ==> unit_token(n + u) == (n, false),
        ascii_lower(u) == "k"@ ==> unit_token(n + u) == (n, true),
        ascii_lower(u) == "hz"@ ==> unit_token(n + u) == (n, false),
        ascii_lower(u) == "khz"@ ==> unit_token(n + u) == (n, true),
{
    reveal_strlit("k");
    reveal_strlit("hz");
    reveal_strlit("khz");
    lemma_lower_digits_then(n, u);
    let low = n + ascii_lower(u);
    // digits never end in `k` or `hz`
    if n.len() > 0 {
        assert(n[n.len() - 1] != 'k' && n[n.len() - 1] != 'z');
    }
    if u.len() == 0 {
        assert(ascii_lower(u) =~= Seq::<char>::empty());
        assert(low =~= n);
        assert(!crate::text::has_suffix(n, "hz"@)) by {
            if crate::text::has_suffix(n, "hz"@) {
                assert(n.subrange(n.len() - 2, n.len() as int)[1] == n[n.len() - 1]);
            }
        }
        assert(!crate::text::has_suffix(n, "k"@)) by {
            if crate::text::has_suffix(n, "k"@) {
                assert(n.subrange(n.len() - 1, n.len() as int)[0] == n[n.len() - 1]);
            }
        }
    }
    if ascii_lower(u) == "k"@ {
        assert(!crate::text::has_suffix(low, "hz"@)) by {
            if crate::text::has_suffix(low, "hz"@) {
                assert(low.subrange(low.len() - 2, low.len() as int)[1] == low[low.len() - 1]);
            }
        }
        assert(low.subrange(low.len() - 1, low.len() as int) =~= "k"@);
        assert(low.subrange(0, low.len() - 1) =~= n);
    }
    if ascii_lower(u) == "hz"@ {
        assert(low.subrange(low.len() - 2, low.len() as int) =~= "hz"@);
        assert(low.subrange(0, low.len() - 2) =~= n);
        assert(!crate::text::has_suffix(n, "k"@)) by {
            if crate::text::has_suffix(n, "k"@) {
                assert(n.subrange(n.len() - 1, n.len() as int)[0] == n[n.len() - 1]);
            }
        }
    }
    if ascii_lower(u) == "khz"@ {
        let nk = n + "k"@;
        assert(low.subrange(low.len() - 2, low.len() as int) =~= "hz"@);
        assert(low.subrange(0, low.len() - 2) =~= nk);
        assert(nk.subrange(nk.len() - 1, nk.len() as int) =~= "k"@);
        assert(nk.subrange(0, nk.len() - 1) =~= n);
    }
}

/// A two-tone file name is split on `_` after removing `.wav`; its two
/// frequency tokens are the two parts after `twotone` (or after `two`,
/// `tone`), each read by the unit rules of `unit_token`, as sweep tokens are.
pub proof fn law_twotone_tokens_use_unit_rules(file_name: Seq<char>)
    ensures
        ({
            let parts = split_on(strip_suffix_or_self(file_name, ".wav"@), '_');
            &&& parts.len() >= 3 && parts[0] == "twotone"@ ==> twotone_tokens_of(file_name) == Some(
                (unit_token(parts[1]), unit_token(parts[2])),
            )
            &&& parts.len() >= 4 && parts[0] == "two"@ && parts[1] == "tone"@ ==> twotone_tokens_of(
                file_name,
            ) == Some((unit_token(parts[2]), unit_token(parts[3])))
            &&& parts.len() >= 3 && parts[0] == "sweep"@ ==> sweep_tokens_of(file_name) == Some(
                (unit_token(parts[1]), unit_token(parts[2])),
            )
        }),
{
    reveal_strlit("two");
    reveal_strlit("twotone");
    assert("two"@.len() != "twotone"@.len());
}

} // verus!

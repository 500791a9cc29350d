//! The decisions made when a WAV file is opened: which paths are accepted,
//! how samples of each format are read, their full-scale value, and the frame
//! count. Reading the file is done outside the library.
use vstd::prelude::*;
use crate::error::{failure_with, ErrorKind, Failure};
use crate::text::{ascii_lower, ascii_lower_chars, chars_eq_str, chars_of, decimal, push_decimal, string_from};

verus! {

/// How the samples of a WAV file are stored.
#[derive(Clone, Copy, Debug, PartialEq, Eq, Structural)]
pub enum SampleFormat {
    Float,
    Int,
}

/// How samples are read: as 32-bit floats, or as integers held in 16 or 32
/// bits.
#[derive(Clone, Copy, Debug, PartialEq, Eq, Structural)]
pub enum SampleReadMode {
    Float,
    Int16,
    Int32,
}

/// `2^e`.
pub open spec fn two_pow(e: nat) -> nat
    decreases e,
{
    if e == 0 {
        1
    } else {
        2 * two_pow((e - 1) as nat)
    }
}

/// Whether a path's extension is `wav`, ignoring ASCII case.
pub open spec fn is_wav_extension(extension: Option<Seq<char>>) -> bool {
    match extension {
        Some(e) => ascii_lower(e) == "wav"@,
        None => false,
    }
}

/// The outcome of checking a WAV path, given whether it exists, whether it is
/// a file, and its extension.
pub open spec fn path_check(path: Seq<char>, exists: bool, is_file: bool, extension: Option<Seq<char>>) -> Option<(ErrorKind, Seq<char>)> {
    if !exists {
        Some((ErrorKind::NotFound, "WAV file does not exist: "@ + path))
    } else if !is_file {
        Some((ErrorKind::InvalidInput, "WAV path is not a file: "@ + path))
    } else if !is_wav_extension(extension) {
        Some((ErrorKind::InvalidInput, "Expected a .wav file: "@ + path))
    } else {
        None
    }
}

/// Whether a path with this extension (as `Path::extension` gives it) names a
/// WAV file: the extension is `wav` in any ASCII case.
pub fn is_wav_path(extension: Option<&str>) -> (r: bool)
    ensures
        r == is_wav_extension(
            match extension {
                Some(e) => Some(e@),
                None => None,
            },
        ),
{
    match extension {
        Some(e) => {
            let lower = ascii_lower_chars(&chars_of(e));
            chars_eq_str(&lower, "wav")
        },
        None => false,
    }
}

/// Checks a path before it is opened as a WAV file: it must exist, be a file,
/// and have the extension `wav`. `path` is the path as displayed in messages.
pub fn validate_wav_path(path: &str, exists: bool, is_file: bool, extension: Option<&str>) -> (r: Result<(), Failure>)
    ensures
        match path_check(
            path@,
            exists,
            is_file,
            match extension {
                Some(e) => Some(e@),
                None => None,
            },
        ) {
            Some((kind, message)) => r matches Err(f) && f.kind == kind && f.message@ == message,
            None => r is Ok,
        },
{
    if !exists {
        return Err(failure_with(ErrorKind::NotFound, "WAV file does not exist: ", path));
    }
    if !is_file {
        return Err(failure_with(ErrorKind::InvalidInput, "WAV path is not a file: ", path));
    }
    if !is_wav_path(extension) {
        return Err(failure_with(ErrorKind::InvalidInput, "Expected a .wav file: ", path));
    }
    Ok(())
}

/// How samples of this format and bit depth are read: floats as floats,
/// integers of 1 to 16 bits as 16-bit integers, of 17 to 32 bits as 32-bit
/// integers; any other integer depth is refused.
pub fn sample_read_mode(format: SampleFormat, bits_per_sample: u16) -> (r: Result<SampleReadMode, Failure>)
    ensures
        format == SampleFormat::Float ==> r == Ok::<SampleReadMode, Failure>(SampleReadMode::Float),
        format == SampleFormat::Int && 1 <= bits_per_sample <= 16 ==> r == Ok::<SampleReadMode, Failure>(SampleReadMode::Int16),
        format == SampleFormat::Int && 17 <= bits_per_sample <= 32 ==> r == Ok::<SampleReadMode, Failure>(SampleReadMode::Int32),
        format == SampleFormat::Int && (bits_per_sample == 0 || bits_per_sample > 32) ==> (r matches Err(f)
            && f.kind == ErrorKind::InvalidInput
            && f.message@ == "Unsupported int bit depth: "@ + decimal(bits_per_sample as nat)),
{
    match format {
        SampleFormat::Float => Ok(SampleReadMode::Float),
        SampleFormat::Int => {
            if 1 <= bits_per_sample && bits_per_sample <= 16 {
                Ok(SampleReadMode::Int16)
            } else if 17 <= bits_per_sample && bits_per_sample <= 32 {
                Ok(SampleReadMode::Int32)
            } else {
                let mut message = string_from("Unsupported int bit depth: ");
                push_decimal(&mut message, bits_per_sample as u64);
                Err(Failure { kind: ErrorKind::InvalidInput, message })
            }
        },
    }
}

/// The full-scale value of signed integer samples of this bit depth,
/// `2^(bits - 1) - 1`; integer samples are divided by it.
pub fn int_full_scale(bits_per_sample: u16) -> (r: i64)
    requires
        1 <= bits_per_sample <= 32,
    ensures
        r == two_pow((bits_per_sample - 1) as nat) - 1,
{
    let mut p: i64 = 1;
    let mut e: u16 = 0;
    while e < bits_per_sample - 1
        invariant
            e <= bits_per_sample - 1,
            bits_per_sample <= 32,
            p == two_pow(e as nat),
            p <= 0x8000_0000,
        decreases bits_per_sample - 1 - e,
    {
        assert(two_pow((e + 1) as nat) == 2 * two_pow(e as nat));
        proof {
            lemma_two_pow_bound(e as nat);
        }
        p = p * 2;
        e = e + 1;
    }
    p - 1
}

/// `2^e` for `e` below 31 is at most `2^30`.
proof fn lemma_two_pow_bound(e: nat)
    requires
        e < 31,
    ensures
        two_pow(e) <= 0x4000_0000,
{
    lemma_two_pow_monotone(e, 30);
    reveal_with_fuel(two_pow, 31);
}

/// `2^a <= 2^b` when `a <= b`.
proof fn lemma_two_pow_monotone(a: nat, b: nat)
    requires
        a <= b,
    ensures
        two_pow(a) <= two_pow(b),
    decreases b,
{
    if b > a {
        lemma_two_pow_monotone(a, (b - 1) as nat);
    }
}

/// The number of frames of a file: the sample count (taken modulo `2^32`, as
/// a `u32`) divided by the channel count.
pub fn frame_count(sample_count: usize, channels: u16) -> (r: u32)
    requires
        channels > 0,
    ensures
        r == (sample_count as int % 0x1_0000_0000) / (channels as int),
{
    let n = (sample_count as u64 % 0x1_0000_0000) as u32;
    n / (channels as u32)
}

} // verus!

//! The table of generated test signals and the selection of presets by a
//! command-line target (a group name or a preset name).
use vstd::prelude::*;
use crate::text::{
    chars_eq, chars_eq_str, chars_of, lemma_trim_suffixes_append, push_str, string_from, string_of,
    strip_suffix_or_self, strip_suffix_or_self_chars, trim_suffixes, trim_suffixes_chars,
};

verus! {

/// Sample rate of every generated signal, in Hz.
pub const SAMPLE_RATE: u32 = 44_100;

/// Channel count of every generated signal.
pub const CHANNELS: u16 = 1;

/// Bit depth of every generated signal (32-bit float samples).
pub const BITS_PER_SAMPLE: u16 = 32;

/// Length of the fade-in and fade-out of a generated signal, in milliseconds.
pub const FADE_MS: u32 = 5;

/// Number of presets in the table.
pub const PRESET_COUNT: usize = 14;

/// The family a generated signal belongs to.
#[derive(Clone, Copy, Debug, PartialEq, Eq, Structural)]
pub enum SignalGroup {
    Sine,
    Sweep,
    TwoTone,
    Noise,
}

/// What a preset renders. Every frequency in the table is a whole number of
/// hertz, so frequencies are held as integers.
#[derive(Clone, Copy, Debug, PartialEq, Eq, Structural)]
pub enum SignalSpec {
    Sine { frequency_hz: u32 },
    LogSweep { start_hz: u32, end_hz: u32 },
    TwoTone { first_hz: u32, second_hz: u32 },
    WhiteNoise,
    PinkNoise,
}

/// One generated test signal: its file name, family, content, peak level
/// (whole dBFS) and length (whole seconds).
#[derive(Debug)]
pub struct SignalPreset {
    pub file_name: String,
    pub group: SignalGroup,
    pub spec: SignalSpec,
    pub peak_dbfs: i32,
    pub duration_secs: u32,
}

/// The mathematical content of a preset.
pub struct PresetModel {
    pub file_name: Seq<char>,
    pub group: SignalGroup,
    pub spec: SignalSpec,
    pub peak_dbfs: int,
    pub duration_secs: int,
}

impl View for SignalPreset {
    type V = PresetModel;

    open spec fn view(&self) -> PresetModel {
        PresetModel {
            file_name: self.file_name@,
            group: self.group,
            spec: self.spec,
            peak_dbfs: self.peak_dbfs as int,
            duration_secs: self.duration_secs as int,
        }
    }
}

/// The model of a preset whose file name is `name`.
pub open spec fn preset_model(
    name: &str,
    group: SignalGroup,
    spec: SignalSpec,
    peak_dbfs: int,
    duration_secs: int,
) -> PresetModel {
    PresetModel { file_name: name@, group, spec, peak_dbfs, duration_secs }
}

/// The preset table, in order.
pub open spec fn preset_table() -> Seq<PresetModel> {
    seq![
        preset_model("sine_1000_-36.wav", SignalGroup::Sine, SignalSpec::Sine { frequency_hz: 1000 }, -36, 3),
        preset_model("sine_1000_-30.wav", SignalGroup::Sine, SignalSpec::Sine { frequency_hz: 1000 }, -30, 3),
        preset_model("sine_1000_-24.wav", SignalGroup::Sine, SignalSpec::Sine { frequency_hz: 1000 }, -24, 3),
        preset_model("sine_1000_-18.wav", SignalGroup::Sine, SignalSpec::Sine { frequency_hz: 1000 }, -18, 3),
        preset_model("sine_1000_-12.wav", SignalGroup::Sine, SignalSpec::Sine { frequency_hz: 1000 }, -12, 3),
        preset_model("sine_1000_-6.wav", SignalGroup::Sine, SignalSpec::Sine { frequency_hz: 1000 }, -6, 3),
        preset_model("sine_100_-24.wav", SignalGroup::Sine, SignalSpec::Sine { frequency_hz: 100 }, -24, 3),
        preset_model("sine_100_-12.wav", SignalGroup::Sine, SignalSpec::Sine { frequency_hz: 100 }, -12, 3),
        preset_model("sine_5000_-24.wav", SignalGroup::Sine, SignalSpec::Sine { frequency_hz: 5000 }, -24, 3),
        preset_model("sweep_20_20k_-24.wav", SignalGroup::Sweep, SignalSpec::LogSweep { start_hz: 20, end_hz: 20_000 }, -24, 10),
        preset_model("sweep_20_20k_-6.wav", SignalGroup::Sweep, SignalSpec::LogSweep { start_hz: 20, end_hz: 20_000 }, -6, 10),
        preset_model("two_tone_700_1900.wav", SignalGroup::TwoTone, SignalSpec::TwoTone { first_hz: 700, second_hz: 1900 }, -24, 3),
        preset_model("pink_noise.wav", SignalGroup::Noise, SignalSpec::PinkNoise, -24, 3),
        preset_model("white_noise.wav", SignalGroup::Noise, SignalSpec::WhiteNoise, -24, 3),
    ]
}

/// The name of a preset: its file name without the `.wav` extension.
pub open spec fn preset_name_of(m: PresetModel) -> Seq<char> {
    strip_suffix_or_self(m.file_name, ".wav"@)
}

/// The presets of `t` in group `g`, in order.
pub open spec fn group_members(t: Seq<PresetModel>, g: SignalGroup) -> Seq<PresetModel>
    decreases t.len(),
{
    if t.len() == 0 {
        Seq::<PresetModel>::empty()
    } else {
        let r = group_members(t.drop_last(), g);
        if t.last().group == g {
            r.push(t.last())
        } else {
            r
        }
    }
}

/// The first preset of `t` whose name is `n`.
pub open spec fn find_named(t: Seq<PresetModel>, n: Seq<char>) -> Option<PresetModel>
    decreases t.len(),
{
    if t.len() == 0 {
        None
    } else if preset_name_of(t[0]) == n {
        Some(t[0])
    } else {
        find_named(t.drop_first(), n)
    }
}

/// A target with every trailing `.wav` removed.
pub open spec fn normalized_target(target: Seq<char>) -> Seq<char> {
    trim_suffixes(target, ".wav"@)
}

/// The presets that a target selects: every preset for `all`, the members of
/// a group for `sine`, `sweep`, `two-tone`/`two_tone` or `noise`, else the
/// preset of that name; `Err` holds the normalized target when none matches.
pub open spec fn select(target: Seq<char>) -> Result<Seq<PresetModel>, Seq<char>> {
    let n = normalized_target(target);
    if n == "all"@ {
        Ok(preset_table())
    } else if n == "sine"@ {
        Ok(group_members(preset_table(), SignalGroup::Sine))
    } else if n == "sweep"@ {
        Ok(group_members(preset_table(), SignalGroup::Sweep))
    } else if n == "two-tone"@ || n == "two_tone"@ {
        Ok(group_members(preset_table(), SignalGroup::TwoTone))
    } else if n == "noise"@ {
        Ok(group_members(preset_table(), SignalGroup::Noise))
    } else {
        match find_named(preset_table(), n) {
            Some(p) => Ok(seq![p]),
            None => Err(n),
        }
    }
}

/// The names of the presets of `t`, each preceded by a space.
pub open spec fn spaced_names(t: Seq<PresetModel>) -> Seq<char>
    decreases t.len(),
{
    if t.len() == 0 {
        Seq::<char>::empty()
    } else {
        spaced_names(t.drop_last()) + " "@ + preset_name_of(t.last())
    }
}

/// The message of an unknown generator target.
pub open spec fn unknown_target_message(target: Seq<char>) -> Seq<char> {
    "Unknown generator target: "@ + target + "\n"@ + "Expected all, sine, sweep, or one of:"@
        + spaced_names(preset_table())
}

/// The views of a list of presets.
pub open spec fn models(v: Seq<SignalPreset>) -> Seq<PresetModel> {
    v.map_values(|p: SignalPreset| p@)
}

/// A target that names no group and no preset.
#[derive(Debug)]
pub struct UnknownPreset {
    target: String,
}

impl View for UnknownPreset {
    type V = Seq<char>;

    /// The normalized target that matched nothing.
    closed spec fn view(&self) -> Seq<char> {
        self.target@
    }
}

impl UnknownPreset {
    /// The target that matched nothing (with trailing `.wav` removed).
    pub fn target(&self) -> (r: &str)
        ensures
            r@ == self@,
    {
        self.target.as_str()
    }

    /// The text shown for this error: the target, then every accepted name.
    pub fn message(&self) -> (r: String)
        ensures
            r@ == unknown_target_message(self@),
    {
        let mut r = string_from("Unknown generator target: ");
        push_str(&mut r, self.target.as_str());
        push_str(&mut r, "\n");
        push_str(&mut r, "Expected all, sine, sweep, or one of:");
        let mut i: usize = 0;
        while i < PRESET_COUNT
            invariant
                i <= PRESET_COUNT,
                preset_table().len() == PRESET_COUNT,
                r@ == "Unknown generator target: "@ + self@ + "\n"@
                    + "Expected all, sine, sweep, or one of:"@ + spaced_names(
                    preset_table().take(i as int),
                ),
            decreases PRESET_COUNT - i,
        {
            let p = preset_at(i);
            let name = preset_name(&p);
            push_str(&mut r, " ");
            push_str(&mut r, name.as_str());
            let ghost t = preset_table().take(i + 1);
            assert(t.drop_last() =~= preset_table().take(i as int));
            assert(r@ =~= "Unknown generator target: "@ + self@ + "\n"@
                + "Expected all, sine, sweep, or one of:"@ + spaced_names(t));
            i = i + 1;
        }
        assert(preset_table().take(PRESET_COUNT as int) =~= preset_table());
        r
    }
}

/// The preset at position `i` of the table.
pub fn preset_at(i: usize) -> (p: SignalPreset)
    requires
        i < PRESET_COUNT,
    ensures
        p@ == preset_table()[i as int],
{
    if i == 0 {
        SignalPreset { file_name: string_from("sine_1000_-36.wav"), group: SignalGroup::Sine, spec: SignalSpec::Sine { frequency_hz: 1000 }, peak_dbfs: -36, duration_secs: 3 }
    } else if i == 1 {
        SignalPreset { file_name: string_from("sine_1000_-30.wav"), group: SignalGroup::Sine, spec: SignalSpec::Sine { frequency_hz: 1000 }, peak_dbfs: -30, duration_secs: 3 }
    } else if i == 2 {
        SignalPreset { file_name: string_from("sine_1000_-24.wav"), group: SignalGroup::Sine, spec: SignalSpec::Sine { frequency_hz: 1000 }, peak_dbfs: -24, duration_secs: 3 }
    } else if i == 3 {
        SignalPreset { file_name: string_from("sine_1000_-18.wav"), group: SignalGroup::Sine, spec: SignalSpec::Sine { frequency_hz: 1000 }, peak_dbfs: -18, duration_secs: 3 }
    } else if i == 4 {
        SignalPreset { file_name: string_from("sine_1000_-12.wav"), group: SignalGroup::Sine, spec: SignalSpec::Sine { frequency_hz: 1000 }, peak_dbfs: -12, duration_secs: 3 }
    } else if i == 5 {
        SignalPreset { file_name: string_from("sine_1000_-6.wav"), group: SignalGroup::Sine, spec: SignalSpec::Sine { frequency_hz: 1000 }, peak_dbfs: -6, duration_secs: 3 }
    } else if i == 6 {
        SignalPreset { file_name: string_from("sine_100_-24.wav"), group: SignalGroup::Sine, spec: SignalSpec::Sine { frequency_hz: 100 }, peak_dbfs: -24, duration_secs: 3 }
    } else if i == 7 {
        SignalPreset { file_name: string_from("sine_100_-12.wav"), group: SignalGroup::Sine, spec: SignalSpec::Sine { frequency_hz: 100 }, peak_dbfs: -12, duration_secs: 3 }
    } else if i == 8 {
        SignalPreset { file_name: string_from("sine_5000_-24.wav"), group: SignalGroup::Sine, spec: SignalSpec::Sine { frequency_hz: 5000 }, peak_dbfs: -24, duration_secs: 3 }
    } else if i == 9 {
        SignalPreset { file_name: string_from("sweep_20_20k_-24.wav"), group: SignalGroup::Sweep, spec: SignalSpec::LogSweep { start_hz: 20, end_hz: 20_000 }, peak_dbfs: -24, duration_secs: 10 }
    } else if i == 10 {
        SignalPreset { file_name: string_from("sweep_20_20k_-6.wav"), group: SignalGroup::Sweep, spec: SignalSpec::LogSweep { start_hz: 20, end_hz: 20_000 }, peak_dbfs: -6, duration_secs: 10 }
    } else if i == 11 {
        SignalPreset { file_name: string_from("two_tone_700_1900.wav"), group: SignalGroup::TwoTone, spec: SignalSpec::TwoTone { first_hz: 700, second_hz: 1900 }, peak_dbfs: -24, duration_secs: 3 }
    } else if i == 12 {
        SignalPreset { file_name: string_from("pink_noise.wav"), group: SignalGroup::Noise, spec: SignalSpec::PinkNoise, peak_dbfs: -24, duration_secs: 3 }
    } else {
        SignalPreset { file_name: string_from("white_noise.wav"), group: SignalGroup::Noise, spec: SignalSpec::WhiteNoise, peak_dbfs: -24, duration_secs: 3 }
    }
}

/// Every preset of the table, in order.
pub fn presets() -> (r: Vec<SignalPreset>)
    ensures
        models(r@) == preset_table(),
{
    let mut r: Vec<SignalPreset> = Vec::new();
    let mut i: usize = 0;
    while i < PRESET_COUNT
        invariant
            i <= PRESET_COUNT,
            preset_table().len() == PRESET_COUNT,
            models(r@) == preset_table().take(i as int),
        decreases PRESET_COUNT - i,
    {
        let ghost before = r@;
        r.push(preset_at(i));
        assert(models(r@) =~= models(before).push(preset_table()[i as int]));
        assert(preset_table().take(i + 1) =~= preset_table().take(i as int).push(
            preset_table()[i as int],
        ));
        i = i + 1;
    }
    assert(preset_table().take(PRESET_COUNT as int) =~= preset_table());
    r
}

/// The name of a preset: its file name without the `.wav` extension.
pub fn preset_name(preset: &SignalPreset) -> (r: String)
    ensures
        r@ == preset_name_of(preset@),
{
    let v = chars_of(preset.file_name.as_str());
    let stem = strip_suffix_or_self_chars(&v, ".wav");
    string_of(&stem)
}

/// The presets of the table in group `g`, in order.
fn presets_in_group(g: SignalGroup) -> (r: Vec<SignalPreset>)
    ensures
        models(r@) == group_members(preset_table(), g),
{
    let mut r: Vec<SignalPreset> = Vec::new();
    let mut i: usize = 0;
    while i < PRESET_COUNT
        invariant
            i <= PRESET_COUNT,
            preset_table().len() == PRESET_COUNT,
            models(r@) == group_members(preset_table().take(i as int), g),
        decreases PRESET_COUNT - i,
    {
        let p = preset_at(i);
        let ghost t = preset_table().take(i + 1);
        assert(t.drop_last() =~= preset_table().take(i as int));
        if p.group == g {
            let ghost before = r@;
            r.push(p);
            assert(models(r@) =~= models(before).push(preset_table()[i as int]));
        }
        i = i + 1;
    }
    assert(preset_table().take(PRESET_COUNT as int) =~= preset_table());
    r
}

/// The first preset of the table named `n`, if any.
fn preset_named(n: &Vec<char>) -> (r: Option<SignalPreset>)
    ensures
        match r {
            Some(p) => find_named(preset_table(), n@) == Some(p@),
            None => find_named(preset_table(), n@) is None,
        },
{
    let mut i: usize = 0;
    assert(preset_table().skip(0) =~= preset_table());
    while i < PRESET_COUNT
        invariant
            i <= PRESET_COUNT,
            preset_table().len() == PRESET_COUNT,
            find_named(preset_table(), n@) == find_named(preset_table().skip(i as int), n@),
        decreases PRESET_COUNT - i,
    {
        let p = preset_at(i);
        let name = chars_of(preset_name(&p).as_str());
        let ghost rest = preset_table().skip(i as int);
        assert(rest[0] == preset_table()[i as int]);
        assert(rest.drop_first() =~= preset_table().skip(i + 1));
        if chars_eq(&name, n) {
            return Some(p);
        }
        i = i + 1;
    }
    assert(preset_table().skip(PRESET_COUNT as int) =~= Seq::<PresetModel>::empty());
    None
}

/// The presets that `target` selects: `all`, a group (`sine`, `sweep`,
/// `two-tone` or `two_tone`, `noise`) or one preset by name; trailing `.wav`
/// is ignored. A target that matches nothing gives `UnknownPreset`.
pub fn select_presets(target: &str) -> (r: Result<Vec<SignalPreset>, UnknownPreset>)
    ensures
        match r {
            Ok(v) => select(target@) == Ok::<Seq<PresetModel>, Seq<char>>(models(v@)),
            Err(e) => select(target@) == Err::<Seq<PresetModel>, Seq<char>>(e@),
        },
{
    proof {
        reveal_strlit(".wav");
    }
    let t = chars_of(target);
    let n = trim_suffixes_chars(&t, ".wav");
    if chars_eq_str(&n, "all") {
        Ok(presets())
    } else if chars_eq_str(&n, "sine") {
        Ok(presets_in_group(SignalGroup::Sine))
    } else if chars_eq_str(&n, "sweep") {
        Ok(presets_in_group(SignalGroup::Sweep))
    } else if chars_eq_str(&n, "two-tone") || chars_eq_str(&n, "two_tone") {
        Ok(presets_in_group(SignalGroup::TwoTone))
    } else if chars_eq_str(&n, "noise") {
        Ok(presets_in_group(SignalGroup::Noise))
    } else {
        match preset_named(&n) {
            Some(p) => {
                let mut v: Vec<SignalPreset> = Vec::new();
                v.push(p);
                assert(models(v@) =~= seq![p@]);
                Ok(v)
            },
            None => Err(UnknownPreset { target: string_of(&n) }),
        }
    }
}

// ---------------------------------------------------------------------------
// Laws
// ---------------------------------------------------------------------------
/// A target selects the same presets with or without a trailing `.wav`.
pub proof fn law_select_ignores_wav_extension(target: Seq<char>)
    ensures
        select(target + ".wav"@) == select(target),
{
    reveal_strlit(".wav");
    lemma_trim_suffixes_append(target, ".wav"@);
}

/// Every preset in `group_members(t, g)` belongs to group `g` and comes from `t`.
pub proof fn lemma_group_members(t: Seq<PresetModel>, g: SignalGroup)
    ensures
        forall|k: int|
            0 <= k < group_members(t, g).len() ==> (#[trigger] group_members(t, g)[k]).group == g
                && t.contains(group_members(t, g)[k]),
        group_members(t, g).len() <= t.len(),
    decreases t.len(),
{
    if t.len() > 0 {
        lemma_group_members(t.drop_last(), g);
        let r = group_members(t.drop_last(), g);
        assert forall|k: int| 0 <= k < r.len() implies t.contains(#[trigger] r[k]) by {
            let j = choose|j: int| 0 <= j < t.drop_last().len() && t.drop_last()[j] == r[k];
            assert(t[j] == r[k]);
        }
        assert(t[t.len() - 1] == t.last());
    }
}

/// A group target selects only presets of that group.
pub proof fn law_group_selection_stays_in_group(target: Seq<char>, g: SignalGroup)
    requires
        normalized_target(target) == "sine"@ && g == SignalGroup::Sine
            || normalized_target(target) == "sweep"@ && g == SignalGroup::Sweep
            || normalized_target(target) == "noise"@ && g == SignalGroup::Noise
            || normalized_target(target) == "two_tone"@ && g == SignalGroup::TwoTone,
    ensures
        select(target) matches Ok(v) && forall|k: int| 0 <= k < v.len() ==> (#[trigger] v[k]).group
            == g,
{
    reveal_strlit("all");
    reveal_strlit("sine");
    reveal_strlit("sweep");
    reveal_strlit("noise");
    reveal_strlit("two_tone");
    reveal_strlit("two-tone");
    lemma_group_members(preset_table(), g);
    let n = normalized_target(target);
    assert("sine"@.len() == 4 && "all"@.len() == 3 && "sweep"@.len() == 5 && "noise"@.len() == 5);
    assert("two_tone"@[3] != "two-tone"@[3]);
    assert("sweep"@[0] != "noise"@[0]);
    assert("all"@ != "sine"@ && "all"@ != "sweep"@ && "all"@ != "noise"@ && "all"@ != "two_tone"@);
    assert("sine"@ != "sweep"@ && "sine"@ != "noise"@ && "sine"@ != "two_tone"@);
    assert("sweep"@ != "noise"@ && "sweep"@ != "two_tone"@ && "noise"@ != "two_tone"@);
    assert("two_tone"@ != "two-tone"@);
    assert("sine"@ != "two-tone"@ && "sweep"@ != "two-tone"@ && "noise"@ != "two-tone"@);
}

/// `all` (with any number of trailing `.wav`) selects the whole preset
/// table: every preset exactly once, in table order.
pub proof fn law_all_selects_whole_table(target: Seq<char>)
    requires
        trim_suffixes(target, ".wav"@) == "all"@,
    ensures
        select(target) == Ok::<Seq<PresetModel>, Seq<char>>(preset_table()),
        select(target) matches Ok(v) && v.len() == PRESET_COUNT && forall|i: int|
            0 <= i < PRESET_COUNT ==> #[trigger] v[i] == preset_table()[i],
{
}

} // verus!

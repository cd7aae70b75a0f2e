//! What the library knows of audio devices: their description, the sample
//! formats they use, and which devices are noise to be left out.
use vstd::prelude::*;

verus! {

/// What is shown of an audio device.
#[derive(Debug, Clone)]
pub struct AudioDeviceInfo {
    pub id: String,
    pub name: String,
    pub bits_per_sample: u32,
}

/// Where a device sits between the hardware and the user.
#[derive(Debug, Clone)]
pub enum DeviceLevel {
    Hardware,
    System,
    Alias,
}

/// Marks a device, buffer or stream as one that records.
#[derive(Debug, Default, Clone)]
pub struct Input;

/// Marks a device, buffer or stream as one that plays.
#[derive(Debug, Default, Clone)]
pub struct Output;

/// The sample formats an audio backend reports. `Unknown` stands for a
/// format that this library does not name.
#[derive(Debug, Clone, Copy, PartialEq, Eq, Structural)]
pub enum SampleFormat {
    I8,
    I16,
    I24,
    I32,
    I64,
    U8,
    U16,
    U24,
    U32,
    U64,
    F32,
    F64,
    DsdU8,
    DsdU16,
    DsdU32,
    Unknown,
}

/// The number of bits a sample of the given format holds.
pub open spec fn format_bits(format: SampleFormat) -> u32 {
    match format {
        SampleFormat::I8 | SampleFormat::U8 | SampleFormat::DsdU8 => 8,
        SampleFormat::I16 | SampleFormat::U16 | SampleFormat::DsdU16 => 16,
        SampleFormat::I24 | SampleFormat::U24 => 24,
        SampleFormat::I64 | SampleFormat::U64 | SampleFormat::F64 => 64,
        _ => 32,
    }
}

/// The number of bits a sample of the given format holds; 32 for a format
/// this library does not name.
pub fn bits_per_sample(format: SampleFormat) -> (bits: u32)
    ensures
        bits == format_bits(format),
{
    match format {
        SampleFormat::I8 | SampleFormat::U8 => 8,
        SampleFormat::I16 | SampleFormat::U16 => 16,
        SampleFormat::I24 | SampleFormat::U24 => 24,
        SampleFormat::I32 | SampleFormat::U32 | SampleFormat::F32 => 32,
        SampleFormat::I64 | SampleFormat::U64 | SampleFormat::F64 => 64,
        SampleFormat::DsdU8 => 8,
        SampleFormat::DsdU16 => 16,
        SampleFormat::DsdU32 => 32,
        SampleFormat::Unknown => 32,
    }
}

/// Formats of the same width have the same number of bits whether signed,
/// unsigned, float or DSD; 24-bit formats have 24 bits although stored in
/// four bytes; every format has 8, 16, 24, 32 or 64 bits, and a format this
/// library does not name counts as 32 bits.
pub proof fn lemma_format_bits_by_width()
    ensures
        format_bits(SampleFormat::I8) == 8,
        format_bits(SampleFormat::U8) == format_bits(SampleFormat::I8),
        format_bits(SampleFormat::DsdU8) == format_bits(SampleFormat::U8),
        format_bits(SampleFormat::I16) == 2 * format_bits(SampleFormat::I8),
        format_bits(SampleFormat::U16) == format_bits(SampleFormat::I16),
        format_bits(SampleFormat::DsdU16) == format_bits(SampleFormat::U16),
        format_bits(SampleFormat::I24) == 3 * format_bits(SampleFormat::I8),
        format_bits(SampleFormat::U24) == format_bits(SampleFormat::I24),
        format_bits(SampleFormat::I32) == 4 * format_bits(SampleFormat::I8),
        format_bits(SampleFormat::U32) == format_bits(SampleFormat::I32),
        format_bits(SampleFormat::F32) == format_bits(SampleFormat::I32),
        format_bits(SampleFormat::DsdU32) == format_bits(SampleFormat::U32),
        format_bits(SampleFormat::I64) == 8 * format_bits(SampleFormat::I8),
        format_bits(SampleFormat::U64) == format_bits(SampleFormat::I64),
        format_bits(SampleFormat::F64) == format_bits(SampleFormat::I64),
        format_bits(SampleFormat::Unknown) == format_bits(SampleFormat::F32),
        forall|f: SampleFormat|
            #![trigger format_bits(f)]
            format_bits(f) == 8 || format_bits(f) == 16 || format_bits(f) == 24 || format_bits(f)
                == 32 || format_bits(f) == 64,
{
}

/// `p` is a prefix of `s`.
pub open spec fn has_prefix(s: Seq<char>, p: Seq<char>) -> bool {
    p.len() <= s.len() && s.take(p.len() as int) == p
}

/// `p` occurs in `s` as a run of consecutive characters.
pub open spec fn has_infix(s: Seq<char>, p: Seq<char>) -> bool {
    exists|i: int| 0 <= i && i + p.len() <= s.len() && #[trigger] s.subrange(i, i + p.len()) == p
}

/// Names of devices that only swallow audio.
pub open spec fn noise_names() -> Seq<Seq<char>> {
    seq!["Discard all samples"@]
}

/// Beginnings of the ids of raw or duplicate devices.
pub open spec fn noise_id_prefixes() -> Seq<Seq<char>> {
    seq!["hw:"@, "plughw:"@, "sysdefault:"@, "front:"@, "surround"@, "iec958"@]
}

/// A device is noise when its name contains one of `noise_names` or its id
/// starts with one of `noise_id_prefixes`.
pub open spec fn is_noise(name: Seq<char>, id: Seq<char>) -> bool {
    ||| exists|k: int| 0 <= k < noise_names().len() && has_infix(name, #[trigger] noise_names()[k])
    ||| exists|k: int|
        0 <= k < noise_id_prefixes().len() && has_prefix(id, #[trigger] noise_id_prefixes()[k])
}

/// A device is noise exactly when its name contains "Discard all samples" or
/// its id begins with one of "hw:", "plughw:", "sysdefault:", "front:",
/// "surround" and "iec958"; any other device, whatever its id or name, is not.
pub proof fn lemma_noise_devices_exactly(name: Seq<char>, id: Seq<char>)
    ensures
        is_noise(name, id) <==> {
            ||| exists|i: int|
                0 <= i && i + "Discard all samples"@.len() <= name.len() && #[trigger] name.subrange(
                    i,
                    i + "Discard all samples"@.len(),
                ) == "Discard all samples"@
            ||| "hw:"@.len() <= id.len() && id.subrange(0, "hw:"@.len() as int) == "hw:"@
            ||| "plughw:"@.len() <= id.len() && id.subrange(0, "plughw:"@.len() as int) == "plughw:"@
            ||| "sysdefault:"@.len() <= id.len() && id.subrange(0, "sysdefault:"@.len() as int) == "sysdefault:"@
            ||| "front:"@.len() <= id.len() && id.subrange(0, "front:"@.len() as int) == "front:"@
            ||| "surround"@.len() <= id.len() && id.subrange(0, "surround"@.len() as int) == "surround"@
            ||| "iec958"@.len() <= id.len() && id.subrange(0, "iec958"@.len() as int) == "iec958"@
        },
{
    let names = noise_names();
    let prefixes = noise_id_prefixes();
    assert(names[0] == "Discard all samples"@);
    assert(prefixes[0] == "hw:"@);
    assert(prefixes[1] == "plughw:"@);
    assert(prefixes[2] == "sysdefault:"@);
    assert(prefixes[3] == "front:"@);
    assert(prefixes[4] == "surround"@);
    assert(prefixes[5] == "iec958"@);
    assert forall|p: Seq<char>|
        has_prefix(id, p) <==> (p.len() <= id.len() && id.subrange(0, p.len() as int) == p) by {
        if p.len() <= id.len() {
            assert(id.take(p.len() as int) =~= id.subrange(0, p.len() as int));
        }
    }
    if exists|k: int| 0 <= k < names.len() && has_infix(name, #[trigger] names[k]) {
        let k = choose|k: int| 0 <= k < names.len() && has_infix(name, #[trigger] names[k]);
        assert(k == 0);
    }
    if exists|k: int| 0 <= k < prefixes.len() && has_prefix(id, #[trigger] prefixes[k]) {
        let k = choose|k: int| 0 <= k < prefixes.len() && has_prefix(id, #[trigger] prefixes[k]);
        assert(0 <= k < 6);
    }
}

/// `str::contains` with a string pattern: whether `pattern` occurs in `text`.
#[verifier::external_body]
fn str_contains(text: &str, pattern: &str) -> (r: bool)
    ensures
        r == has_infix(text@, pattern@),
{
    text.contains(pattern)
}

/// `str::starts_with` with a string pattern: whether `text` begins with
/// `prefix`.
#[verifier::external_body]
fn str_starts_with(text: &str, prefix: &str) -> (r: bool)
    ensures
        r == has_prefix(text@, prefix@),
{
    text.starts_with(prefix)
}

/// Whether a device, given by its name and id, is one that only swallows
/// audio or duplicates another device.
pub fn is_noise_device(name: &str, id: &str) -> (r: bool)
    ensures
        r == is_noise(name@, id@),
{
    let bad_prefixes: [&str; 6] = ["hw:", "plughw:", "sysdefault:", "front:", "surround", "iec958"];
    let bad_names: [&str; 1] = ["Discard all samples"];
    assert(bad_names@.map_values(|s: &str| s@) =~= noise_names());
    assert(bad_prefixes@.map_values(|s: &str| s@) =~= noise_id_prefixes());
    let mut found_name = false;
    let mut i: usize = 0;
    while i < 1
        invariant
            i <= 1,
            bad_names@.map_values(|s: &str| s@) == noise_names(),
            found_name == exists|k: int|
                0 <= k < i && has_infix(name@, #[trigger] noise_names()[k]),
        decreases 1 - i,
    {
        assert(bad_names@.map_values(|s: &str| s@)[i as int] == bad_names[i as int]@);
        if str_contains(name, bad_names[i]) {
            found_name = true;
        }
        i += 1;
    }
    let mut found_prefix = false;
    let mut j: usize = 0;
    while j < 6
        invariant
            j <= 6,
            bad_prefixes@.map_values(|s: &str| s@) == noise_id_prefixes(),
            found_prefix == exists|k: int|
                0 <= k < j && has_prefix(id@, #[trigger] noise_id_prefixes()[k]),
        decreases 6 - j,
    {
        assert(bad_prefixes@.map_values(|s: &str| s@)[j as int] == bad_prefixes[j as int]@);
        if str_starts_with(id, bad_prefixes[j]) {
            found_prefix = true;
        }
        j += 1;
    }
    found_name || found_prefix
}

} // verus!

//! The rules of audio streams that do not depend on the backend.
use crate::device::SampleFormat;
use vstd::prelude::*;

verus! {

/// The sample formats a stream can be opened with: every format that has a
/// slice variant of its own. Unsigned 8, 16 and 32 bit and 64-bit float
/// formats, and formats this library does not name, are refused.
pub open spec fn stream_format(format: SampleFormat) -> bool {
    match format {
        SampleFormat::U8 | SampleFormat::U16 | SampleFormat::U32 | SampleFormat::F64
        | SampleFormat::Unknown => false,
        _ => true,
    }
}

/// A stream can be opened with every signed integer format, with 32-bit
/// floats, with the 24 and 64-bit unsigned formats and with the DSD formats;
/// it is refused exactly for unsigned 8, 16 and 32-bit samples, 64-bit floats
/// and formats this library does not name.
pub proof fn lemma_stream_formats()
    ensures
        stream_format(SampleFormat::I8) && stream_format(SampleFormat::I16) && stream_format(
            SampleFormat::I24,
        ) && stream_format(SampleFormat::I32) && stream_format(SampleFormat::I64),
        stream_format(SampleFormat::F32),
        stream_format(SampleFormat::U24) && stream_format(SampleFormat::U64),
        stream_format(SampleFormat::DsdU8) && stream_format(SampleFormat::DsdU16)
            && stream_format(SampleFormat::DsdU32),
        forall|f: SampleFormat|
            !#[trigger] stream_format(f) <==> (f == SampleFormat::U8 || f == SampleFormat::U16
                || f == SampleFormat::U32 || f == SampleFormat::F64 || f == SampleFormat::Unknown),
{
}

/// Whether an input or output stream can be opened with samples of the given
/// format.
pub fn is_stream_format_supported(format: SampleFormat) -> (b: bool)
    ensures
        b == stream_format(format),
{
    match format {
        SampleFormat::I8 => true,
        SampleFormat::I16 => true,
        SampleFormat::I24 => true,
        SampleFormat::U24 => true,
        SampleFormat::I32 => true,
        SampleFormat::F32 => true,
        SampleFormat::I64 => true,
        SampleFormat::U64 => true,
        SampleFormat::DsdU8 => true,
        SampleFormat::DsdU16 => true,
        SampleFormat::DsdU32 => true,
        _ => false,
    }
}

} // verus!

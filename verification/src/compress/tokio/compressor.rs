//! What the asynchronous compressors are asked to do.
use vstd::prelude::*;

use crate::compress::common::spec_is_text;
use crate::compress::standard::compressor::{crc32, crc32_of, spec_first_read, CompressedPayload, FIRST_READ_SIZE};
use crate::compress::common::is_text_buf;
use crate::compression::{CompressionMethod, Level};
use crate::error::ArchiveError;

verus! {

/// The method that compresses an entry meant for `compressor` at `level`: storing when the
/// level asks for no compression; LZMA and unknown methods cannot compress.
pub open spec fn spec_method_for(compressor: CompressionMethod, level: Level) -> Result<
    CompressionMethod,
    ArchiveError,
> {
    if level is NoCompression {
        Ok(CompressionMethod::Store())
    } else {
        match compressor {
            CompressionMethod::Unknown(code) => Err(ArchiveError::UnsuportedCompressionMethodCode(code)),
            CompressionMethod::Lzma() => Err(ArchiveError::UnsuportedCompressionMethod(compressor)),
            _ => Ok(compressor),
        }
    }
}

/// The method that compresses an entry meant for `compressor` at `level`, or why none can.
pub fn compression_method_for(compressor: CompressionMethod, level: Level) -> (r: Result<
    CompressionMethod,
    ArchiveError,
>)
    ensures
        r == spec_method_for(compressor, level),
{
    if let Level::NoCompression = level {
        return Ok(CompressionMethod::Store());
    }
    match compressor {
        CompressionMethod::Unknown(compression_method_code) => Err(
            ArchiveError::UnsuportedCompressionMethodCode(compression_method_code),
        ),
        CompressionMethod::Lzma() => Err(ArchiveError::UnsuportedCompressionMethod(compressor)),
        _ => Ok(compressor),
    }
}

/// The quality that the asynchronous encoders get for `level`.
#[derive(Debug, Clone, Copy)]
pub enum Quality {
    Fastest,
    Best,
    Default,
    Precise(i32),
}

/// The encoder quality for `level`: no compression is precise quality 0.
pub fn quality_of(level: Level) -> (q: Quality)
    ensures
        q == match level {
            Level::Fastest => Quality::Fastest,
            Level::Best => Quality::Best,
            Level::Default => Quality::Default,
            Level::Precise(v) => Quality::Precise(v),
            Level::NoCompression => Quality::Precise(0),
        },
{
    match level {
        Level::Fastest => Quality::Fastest,
        Level::Best => Quality::Best,
        Level::Default => Quality::Default,
        Level::Precise(val) => Quality::Precise(val),
        Level::NoCompression => Quality::Precise(0),
    }
}

/// The compressed payload made of `payload` and the bytes `compressed` that an encoder gave
/// for it: CRC-32, size and text detection computed here.
pub fn payload_of(payload: &[u8], compressed: Vec<u8>) -> (p: CompressedPayload)
    ensures
        p.data@ == compressed@,
        p.crc32 == crc32_of(payload@),
        p.uncompressed_size == payload@.len(),
        p.is_text == spec_is_text(spec_first_read(payload@)),
{
    let first = if payload.len() < FIRST_READ_SIZE {
        payload.len()
    } else {
        FIRST_READ_SIZE
    };
    let head = vstd::slice::slice_subrange(payload, 0, first);
    assert(head@ =~= spec_first_read(payload@));
    let is_text = is_text_buf(head);
    CompressedPayload {
        data: compressed,
        crc32: crc32(payload),
        uncompressed_size: payload.len() as u64,
        is_text,
    }
}

} // verus!

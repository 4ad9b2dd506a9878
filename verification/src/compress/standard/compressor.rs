//! Compression of an entry's payload with the compressor crates.
use vstd::prelude::*;

use crate::compress::common::spec_is_text;
use crate::compress::common::is_text_buf;
use crate::compression::{CompressionMethod, Level};
use crate::error::ArchiveError;
#[allow(unused_imports)]
use std::io::Write;

verus! {

/// One bit step of the reflected CRC-32 (IEEE) register: shift right, and add the reversed
/// polynomial 0xEDB88320 when the bit shifted out is set.
pub open spec fn crc32_bit(c: u32) -> u32 {
    if c & 1 == 1 {
        (c >> 1u32) ^ 0xEDB8_8320u32
    } else {
        c >> 1u32
    }
}

/// The CRC-32 register after the byte `b`: the byte added in the low bits, then eight bit steps.
pub open spec fn crc32_byte(c: u32, b: u8) -> u32 {
    let x = c ^ (b as u32);
    crc32_bit(crc32_bit(crc32_bit(crc32_bit(crc32_bit(crc32_bit(crc32_bit(crc32_bit(x))))))))
}

/// The CRC-32 register after `data`, starting from all ones.
pub open spec fn crc32_register(data: Seq<u8>) -> u32
    decreases data.len(),
{
    if data.len() == 0 {
        0xFFFF_FFFF
    } else {
        crc32_byte(crc32_register(data.drop_last()), data.last())
    }
}

/// The CRC-32 (IEEE) of `data`: the final register, all bits inverted.
pub open spec fn crc32_of(data: Seq<u8>) -> u32 {
    crc32_register(data) ^ 0xFFFF_FFFFu32
}

/// The raw deflate stream that flate2 produces for `data` at `level`.
pub uninterp spec fn deflate_of(data: Seq<u8>, level: u32) -> Seq<u8>;

/// The bzip2 stream that the bzip2 crate produces for `data` at `level`.
pub uninterp spec fn bzip2_of(data: Seq<u8>, level: u32) -> Seq<u8>;

/// The zstd frame that the zstd crate produces for `data` at `level`.
pub uninterp spec fn zstd_of(data: Seq<u8>, level: i32) -> Seq<u8>;

/// The xz stream that the xz2 crate produces for `data` at `level`.
pub uninterp spec fn xz_of(data: Seq<u8>, level: u32) -> Seq<u8>;

/// The CRC-32 of `data`.
///
/// Calls `crc32fast::Hasher::new`, `update` and `finalize`; the contract claims the CRC-32 that
/// crc32fast documents: the IEEE polynomial, reflected, with an initial value and a final xor of
/// all ones.
#[verifier::external_body]
pub(crate) fn crc32(data: &[u8]) -> (c: u32)
    ensures
        c == crc32_of(data@),
{
    let mut hasher = crc32fast::Hasher::new();
    hasher.update(data);
    hasher.finalize()
}

/// `data` compressed by a raw deflate encoder at `level`.
///
/// Calls `flate2::write::DeflateEncoder` (`new`, `write_all`, `finish`) over a `Vec`. The output
/// is named, not stated. The contract claims success: the encoder's only errors are those of its
/// sink, which a `Vec` never gives, and a codec error, which miniz_oxide reports only when it is
/// driven out of order (after the stream ended), not in this one pass. The miniz_oxide backend
/// asserts, in debug builds, that the level is at most 10.
#[verifier::external_body]
fn deflate_bytes(data: &[u8], level: u32) -> (r: Result<Vec<u8>, std::io::Error>)
    requires
        level <= 10,
    ensures
        r is Ok,
        r matches Ok(v) ==> v@ == deflate_of(data@, level),
{
    let mut encoder = flate2::write::DeflateEncoder::new(Vec::new(), flate2::Compression::new(level));
    encoder.write_all(data)?;
    encoder.finish()
}

/// `data` compressed by a bzip2 encoder at `level`.
///
/// Calls `bzip2::write::BzEncoder` (`new`, `write_all`, `finish`) over a `Vec`. The output is
/// named, not stated. The contract claims success: the encoder's only errors are those of its
/// sink, which a `Vec` never gives (a codec error panics in the crate, and libbzip2 gives one only
/// when driven out of order). The encoder asserts that libbzip2 accepts the level, which it does
/// for 1 to 9.
#[verifier::external_body]
fn bzip2_bytes(data: &[u8], level: u32) -> (r: Result<Vec<u8>, std::io::Error>)
    requires
        1 <= level <= 9,
    ensures
        r is Ok,
        r matches Ok(v) ==> v@ == bzip2_of(data@, level),
{
    let mut encoder = bzip2::write::BzEncoder::new(Vec::new(), bzip2::Compression::new(level));
    encoder.write_all(data)?;
    encoder.finish()
}

/// `data` compressed by a zstd encoder at `level`.
///
/// Calls `zstd::stream::write::Encoder` (`new`, `write_all`, `finish`) over a `Vec`. The output
/// is named, not stated. The contract claims success: zstd clamps the level to its bounds, the
/// dictionary is empty, the sink is a `Vec`, and the library reports no other error for one pass
/// of compression but a failed allocation of its working memory, which is left out here as it is
/// for every allocation.
#[verifier::external_body]
fn zstd_bytes(data: &[u8], level: i32) -> (r: Result<Vec<u8>, std::io::Error>)
    ensures
        r is Ok,
        r matches Ok(v) ==> v@ == zstd_of(data@, level),
{
    let mut encoder = zstd::stream::write::Encoder::new(Vec::new(), level)?;
    encoder.write_all(data)?;
    encoder.finish()
}

/// `data` compressed by an xz encoder at `level`.
///
/// Calls `xz2::write::XzEncoder` (`new`, `write_all`, `finish`) over a `Vec`. The output is
/// named, not stated. The contract claims success: the sink is a `Vec`, and liblzma reports no
/// other error for one pass of compression with a valid preset but a failed allocation, which is
/// left out here as it is for every allocation. The encoder unwraps liblzma's preset encoder,
/// which accepts the presets 0 to 9, alone or with the extreme flag (bit 31).
#[verifier::external_body]
fn xz_bytes(data: &[u8], level: u32) -> (r: Result<Vec<u8>, std::io::Error>)
    requires
        spec_xz_preset_valid(level),
    ensures
        r is Ok,
        r matches Ok(v) ==> v@ == xz_of(data@, level),
{
    let mut encoder = xz2::write::XzEncoder::new(Vec::new(), level);
    encoder.write_all(data)?;
    encoder.finish()
}

/// zstd's default compression level.
///
/// Reads `zstd::DEFAULT_COMPRESSION_LEVEL`, which zstd-sys defines as 3.
#[verifier::external_body]
fn zstd_default_level() -> (l: i32)
    ensures
        l == 3,
{
    zstd::DEFAULT_COMPRESSION_LEVEL
}

/// Whether liblzma accepts `preset`: a level from 0 to 9, possibly with the extreme flag.
pub open spec fn spec_xz_preset_valid(preset: u32) -> bool {
    preset & 0x7FFF_FFE0 == 0 && preset & 0x1F <= 9
}

/// The numeric level of `level` for flate2, bzip2 and xz2.
pub open spec fn spec_numeric_level(level: Level) -> u32 {
    match level {
        Level::Fastest => 1,
        Level::Best => 9,
        Level::Default => 6,
        Level::Precise(v) => v as u32,
        Level::NoCompression => 0,
    }
}

/// The numeric level of `level` for zstd.
pub open spec fn spec_zstd_level(level: Level) -> i32 {
    match level {
        Level::Fastest => 1,
        Level::Best => 22,
        Level::Default => 3,
        Level::NoCompression => 0,
        Level::Precise(v) => v,
    }
}

/// The numeric level of `level` for flate2, bzip2 and xz2.
pub fn numeric_level(level: Level) -> (n: u32)
    ensures
        n == spec_numeric_level(level),
{
    match level {
        Level::Fastest => 1,
        Level::Best => 9,
        Level::Default => 6,
        Level::Precise(val) => val as u32,
        Level::NoCompression => 0,
    }
}

/// The numeric level of `level` for zstd.
pub fn zstd_level(level: Level) -> (n: i32)
    ensures
        n == spec_zstd_level(level),
{
    match level {
        Level::Fastest => 1,
        Level::Best => 22,
        Level::Default => zstd_default_level(),
        Level::NoCompression => 0,
        Level::Precise(val) => val,
    }
}

/// The size of the first read of a payload: the leading bytes that text detection looks at.
pub const FIRST_READ_SIZE: usize = 4096;

/// The leading bytes of `payload` that text detection looks at.
pub open spec fn spec_first_read(payload: Seq<u8>) -> Seq<u8> {
    payload.take(if payload.len() < FIRST_READ_SIZE { payload.len() as int } else { FIRST_READ_SIZE as int })
}

/// An entry's payload once compressed.
#[derive(Debug)]
pub struct CompressedPayload {
    /// The compressed bytes.
    pub data: Vec<u8>,
    /// The CRC-32 of the uncompressed bytes.
    pub crc32: u32,
    /// The number of uncompressed bytes.
    pub uncompressed_size: u64,
    /// Whether the leading bytes look like plain text.
    pub is_text: bool,
}

/// The method that actually compresses: storing when the level asks for no compression.
pub open spec fn spec_effective_method(compressor: CompressionMethod, level: Level) -> CompressionMethod {
    if level is NoCompression {
        CompressionMethod::Store()
    } else {
        compressor
    }
}

/// Whether `compressor` can compress an entry.
pub open spec fn spec_can_compress(compressor: CompressionMethod) -> bool {
    !(compressor is Lzma) && !(compressor is Unknown)
}

/// The compressed bytes of `payload` with method `m` at `level`.
pub open spec fn spec_compressed(m: CompressionMethod, payload: Seq<u8>, level: Level) -> Seq<u8> {
    match m {
        CompressionMethod::Deflate() => deflate_of(payload, spec_numeric_level(level)),
        CompressionMethod::BZip2() => bzip2_of(payload, spec_numeric_level(level)),
        CompressionMethod::Zstd() => zstd_of(payload, spec_zstd_level(level)),
        CompressionMethod::Xz() => xz_of(payload, spec_numeric_level(level)),
        _ => payload,
    }
}

/// Whether `r` is what compressing `payload` with `compressor` at `level` gives: the error
/// for a method that cannot compress, and otherwise the compressed bytes, CRC-32, size and text
/// detection.
pub open spec fn spec_compress_outcome(
    r: Result<CompressedPayload, ArchiveError>,
    compressor: CompressionMethod,
    payload: Seq<u8>,
    compression_level: Level,
) -> bool {
    let m = spec_effective_method(compressor, compression_level);
    if spec_can_compress(m) {
        r matches Ok(p) && {
            &&& p.data@ == spec_compressed(m, payload, compression_level)
            &&& p.crc32 == crc32_of(payload)
            &&& p.uncompressed_size == payload.len()
            &&& p.is_text == spec_is_text(spec_first_read(payload))
        }
    } else {
        r matches Err(ArchiveError::UnsuportedCompressionMethod(c)) && c == compressor
    }
}

/// Whether the compressor crates accept `level` for `compressor`: deflate up to 10, bzip2 from
/// 1 to 9, and xz the presets that liblzma takes.
pub open spec fn spec_level_accepted(compressor: CompressionMethod, level: Level) -> bool {
    let n = spec_numeric_level(level);
    match spec_effective_method(compressor, level) {
        CompressionMethod::Deflate() => n <= 10,
        CompressionMethod::BZip2() => 1 <= n <= 9,
        CompressionMethod::Xz() => spec_xz_preset_valid(n),
        _ => true,
    }
}

/// Compresses `payload` with `compressor` at `compression_level` (storing it when the level asks
/// for no compression), and computes its CRC-32, its size and whether it looks like text.
pub fn compress(
    compressor: CompressionMethod,
    payload: &[u8],
    compression_level: Level,
) -> (r: Result<CompressedPayload, ArchiveError>)
    requires
        spec_level_accepted(compressor, compression_level),
    ensures
        spec_compress_outcome(r, compressor, payload@, compression_level),
{
    let compression_method = if let Level::NoCompression = compression_level {
        CompressionMethod::Store()
    } else {
        compressor
    };
    let first = if payload.len() < FIRST_READ_SIZE {
        payload.len()
    } else {
        FIRST_READ_SIZE
    };
    let head = vstd::slice::slice_subrange(payload, 0, first);
    assert(head@ =~= spec_first_read(payload@));
    let is_text = is_text_buf(head);
    let crc = crc32(payload);
    let data = match compression_method {
        CompressionMethod::Store() => vstd::slice::slice_to_vec(payload),
        CompressionMethod::Deflate() => match deflate_bytes(payload, numeric_level(compression_level)) {
            Ok(v) => v,
            Err(e) => return Err(ArchiveError::IoError(e)),
        },
        CompressionMethod::BZip2() => match bzip2_bytes(payload, numeric_level(compression_level)) {
            Ok(v) => v,
            Err(e) => return Err(ArchiveError::IoError(e)),
        },
        CompressionMethod::Zstd() => match zstd_bytes(payload, zstd_level(compression_level)) {
            Ok(v) => v,
            Err(e) => return Err(ArchiveError::IoError(e)),
        },
        CompressionMethod::Xz() => match xz_bytes(payload, numeric_level(compression_level)) {
            Ok(v) => v,
            Err(e) => return Err(ArchiveError::IoError(e)),
        },
        _ => return Err(ArchiveError::UnsuportedCompressionMethod(compressor)),
    };
    Ok(CompressedPayload { data, crc32: crc, uncompressed_size: payload.len() as u64, is_text })
}

} // verus!

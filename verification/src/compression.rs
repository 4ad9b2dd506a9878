//! Compression methods and levels, and how they show in ZIP headers.
use vstd::prelude::*;

use crate::error::ArchiveError;

verus! {

pub const STORE: u16 = 0;
pub const DEFALTE: u16 = 8;
pub const BZIP2: u16 = 12;
pub const LZMA: u16 = 14;
pub const ZSTD: u16 = 93;
pub const XZ: u16 = 95;

/// A ZIP compression method.
#[derive(Debug, Clone, Copy)]
pub enum CompressionMethod {
    Store(),
    Deflate(),
    BZip2(),
    Lzma(),
    Zstd(),
    Xz(),
    Unknown(u16),
}

/// A compression level.
#[derive(Debug, Clone, Copy)]
pub enum Level {
    Fastest,
    Best,
    Default,
    NoCompression,
    Precise(i32),
}

/// The method code that ZIP headers store for `m`.
pub open spec fn spec_zip_code(m: CompressionMethod) -> u16 {
    match m {
        CompressionMethod::Store() => STORE,
        CompressionMethod::Deflate() => DEFALTE,
        CompressionMethod::BZip2() => BZIP2,
        CompressionMethod::Lzma() => LZMA,
        CompressionMethod::Zstd() => ZSTD,
        CompressionMethod::Xz() => XZ,
        CompressionMethod::Unknown(code) => code,
    }
}

/// The ZIP specification version that an extractor needs for `m`.
pub open spec fn spec_zip_version_needed(m: CompressionMethod) -> u16 {
    match m {
        CompressionMethod::Lzma() => 63,
        CompressionMethod::Zstd() => 63,
        CompressionMethod::BZip2() => 46,
        _ => 20,
    }
}

/// The method that a known method code names.
pub open spec fn spec_method_of_code(code: u16) -> Option<CompressionMethod> {
    if code == STORE {
        Some(CompressionMethod::Store())
    } else if code == DEFALTE {
        Some(CompressionMethod::Deflate())
    } else if code == BZIP2 {
        Some(CompressionMethod::BZip2())
    } else if code == LZMA {
        Some(CompressionMethod::Lzma())
    } else if code == ZSTD {
        Some(CompressionMethod::Zstd())
    } else if code == XZ {
        Some(CompressionMethod::Xz())
    } else {
        None
    }
}

/// The name of `m`.
pub open spec fn spec_label(m: CompressionMethod) -> Seq<char> {
    match m {
        CompressionMethod::Store() => "store"@,
        CompressionMethod::Deflate() => "deflate"@,
        CompressionMethod::BZip2() => "bzip2"@,
        CompressionMethod::Lzma() => "lzma"@,
        CompressionMethod::Zstd() => "zstd"@,
        CompressionMethod::Xz() => "xz"@,
        CompressionMethod::Unknown(_) => "unknown"@,
    }
}

/// Bit 2 of the general purpose flag: a super fast deflate compression was used.
pub const FAST_DEFLATE_BIT: u16 = 4;
/// Bit 1 of the general purpose flag: a maximum deflate compression was used.
pub const BEST_DEFLATE_BIT: u16 = 2;

/// The general purpose flag `flag` once the deflate option bits of `level` are set in it.
pub open spec fn spec_update_flag(m: CompressionMethod, flag: u16, level: Level) -> u16 {
    match m {
        CompressionMethod::Deflate() => match level {
            Level::Fastest => flag | FAST_DEFLATE_BIT,
            Level::Best => flag | BEST_DEFLATE_BIT,
            Level::Precise(v) => if 1 <= v <= 2 {
                flag | FAST_DEFLATE_BIT
            } else if v >= 8 {
                flag | BEST_DEFLATE_BIT
            } else {
                flag
            },
            _ => flag,
        },
        _ => flag,
    }
}

impl CompressionMethod {
    /// The method code stored in ZIP headers.
    pub fn zip_code(&self) -> (c: u16)
        ensures
            c == spec_zip_code(*self),
    {
        match self {
            CompressionMethod::Store() => STORE,
            CompressionMethod::Deflate() => DEFALTE,
            CompressionMethod::BZip2() => BZIP2,
            CompressionMethod::Lzma() => LZMA,
            CompressionMethod::Zstd() => ZSTD,
            CompressionMethod::Xz() => XZ,
            CompressionMethod::Unknown(comp_method_code) => *comp_method_code,
        }
    }

    /// The version needed to extract an entry compressed with this method.
    pub fn zip_version_needed(&self) -> (v: u16)
        ensures
            v == spec_zip_version_needed(*self),
    {
        match self {
            CompressionMethod::Lzma() => 63,
            CompressionMethod::Zstd() => 63,
            CompressionMethod::BZip2() => 46,
            _ => 20,
        }
    }

    /// The method that a method code names; an unknown code is an error.
    pub fn from_compression_method(compression_method: u16) -> (r: Result<
        CompressionMethod,
        ArchiveError,
    >)
        ensures
            match spec_method_of_code(compression_method) {
                Some(m) => r == Ok::<CompressionMethod, ArchiveError>(m),
                None => r matches Err(ArchiveError::UnsuportedCompressionMethodCode(c)) && c
                    == compression_method,
            },
    {
        if compression_method == STORE {
            Ok(CompressionMethod::Store())
        } else if compression_method == DEFALTE {
            Ok(CompressionMethod::Deflate())
        } else if compression_method == BZIP2 {
            Ok(CompressionMethod::BZip2())
        } else if compression_method == LZMA {
            Ok(CompressionMethod::Lzma())
        } else if compression_method == ZSTD {
            Ok(CompressionMethod::Zstd())
        } else if compression_method == XZ {
            Ok(CompressionMethod::Xz())
        } else {
            Err(ArchiveError::UnsuportedCompressionMethodCode(compression_method))
        }
    }

    /// The name of the method.
    pub fn label(&self) -> (l: &str)
        ensures
            l@ == spec_label(*self),
    {
        match self {
            CompressionMethod::Store() => "store",
            CompressionMethod::Deflate() => "deflate",
            CompressionMethod::BZip2() => "bzip2",
            CompressionMethod::Lzma() => "lzma",
            CompressionMethod::Zstd() => "zstd",
            CompressionMethod::Xz() => "xz",
            CompressionMethod::Unknown(_) => "unknown",
        }
    }

    /// Sets in `flag` the deflate option bits that `level` calls for.
    pub fn update_general_purpose_bit_flag(&self, flag: u16, level: Level) -> (r: u16)
        ensures
            r == spec_update_flag(*self, flag, level),
        decreases (if level is Precise { 1int } else { 0int }),
    {
        match self {
            CompressionMethod::Deflate() => match level {
                Level::Fastest => flag | FAST_DEFLATE_BIT,
                Level::Best => flag | BEST_DEFLATE_BIT,
                Level::Default => flag,
                Level::Precise(val) => {
                    if 1 <= val && val <= 2 {
                        self.update_general_purpose_bit_flag(flag, Level::Fastest)
                    } else if val == 6 {
                        self.update_general_purpose_bit_flag(flag, Level::Default)
                    } else if val >= 8 {
                        self.update_general_purpose_bit_flag(flag, Level::Best)
                    } else {
                        flag
                    }
                },
                Level::NoCompression => flag,
            },
            _ => flag,
        }
    }
}

/// The version needed to extract that headers record for a known method follows the method
/// code, as the ZIP specification's table of features (APPNOTE 4.4.3.2) sets it: 2.0 for
/// stored (0) and deflate (8), 4.6 for bzip2 (12), 6.3 for LZMA (14) and zstd (93); xz (95) is
/// given 2.0. No method needs less than 2.0 or more than 6.3.
pub proof fn lemma_version_needed_by_code(m: CompressionMethod)
    ensures
        20 <= spec_zip_version_needed(m) <= 63,
        !(m is Unknown) ==> {
            let code = spec_zip_code(m);
            &&& (code == 0 || code == 8) ==> spec_zip_version_needed(m) == 20
            &&& code == 12 ==> spec_zip_version_needed(m) == 46
            &&& (code == 14 || code == 93) ==> spec_zip_version_needed(m) == 63
            &&& code == 95 ==> spec_zip_version_needed(m) == 20
        },
{
}

/// A method code names the method that gives it back.
pub proof fn lemma_zip_code_roundtrip(m: CompressionMethod)
    requires
        !(m is Unknown),
    ensures
        spec_method_of_code(spec_zip_code(m)) == Some(m),
{
}

/// Every known method code is the code of the method that it names.
pub proof fn lemma_code_method_roundtrip(code: u16)
    requires
        spec_method_of_code(code).is_some(),
    ensures
        spec_zip_code(spec_method_of_code(code).unwrap()) == code,
{
}

} // verus!

//! The errors that archiving and reading archives report.
use vstd::prelude::*;

use crate::compression::{spec_label, CompressionMethod};
use crate::text::{decimal_string, decimal_text};
use vstd::string::*;

verus! {

/// `std::io::Error` carried through as an opaque value.
#[verifier::external_type_specification]
#[verifier::external_body]
pub struct ExIoError(std::io::Error);

/// What went wrong while writing or reading an archive.
#[derive(Debug)]
pub enum ArchiveError {
    /// The underlying reader or writer failed.
    IoError(std::io::Error),
    /// The compression level does not suit the compression method.
    UnsuportedCompressionLevel(CompressionMethod),
    /// The compression method cannot be used to write an entry.
    UnsuportedCompressionMethod(CompressionMethod),
    /// The compression method code read from an archive is not known.
    UnsuportedCompressionMethodCode(u16),
    /// The bytes do not form a well-structured archive.
    BadArchiveStructure(String),
}

impl From<std::io::Error> for ArchiveError {
    fn from(value: std::io::Error) -> (e: Self) {
        ArchiveError::IoError(value)
    }
}

impl vstd::std_specs::convert::FromSpecImpl<std::io::Error> for ArchiveError {
    open spec fn obeys_from_spec() -> bool {
        true
    }

    open spec fn from_spec(v: std::io::Error) -> Self {
        ArchiveError::IoError(v)
    }
}

/// The text of an I/O error.
///
/// Calls the `Display` of `std::io::Error`; nothing is promised of the text.
#[verifier::external_body]
fn io_error_text(e: &std::io::Error) -> (t: String) {
    e.to_string()
}

impl ArchiveError {
    /// The message of the error; that of an I/O error ends with the I/O error's own text.
    pub fn to_string(&self) -> (s: String)
        ensures
            match self {
                ArchiveError::IoError(_) => exists|t: Seq<char>| s@ == "Archive error "@ + t,
                ArchiveError::UnsuportedCompressionLevel(m) => s@ == "Archive level error for method "@
                    + spec_label(*m),
                ArchiveError::UnsuportedCompressionMethod(m) => s@ == "The compression method '"@
                    + spec_label(*m) + "' is not supported"@,
                ArchiveError::UnsuportedCompressionMethodCode(c) => s@
                    == "The compression method code '"@ + decimal_text(*c as nat) + "' is not supported"@,
                ArchiveError::BadArchiveStructure(m) => s@ == m@,
            },
    {
        match self {
            ArchiveError::IoError(e) => {
                let mut s = String::from_str("Archive error ");
                let t = io_error_text(e);
                s.append(t.as_str());
                s
            },
            ArchiveError::UnsuportedCompressionLevel(method) => {
                let mut s = String::from_str("Archive level error for method ");
                s.append(method.label());
                s
            },
            ArchiveError::UnsuportedCompressionMethod(method) => {
                let mut s = String::from_str("The compression method '");
                s.append(method.label());
                s.append("' is not supported");
                s
            },
            ArchiveError::UnsuportedCompressionMethodCode(val) => {
                let mut s = String::from_str("The compression method code '");
                let d = decimal_string(*val as u64);
                s.append(d.as_str());
                s.append("' is not supported");
                s
            },
            ArchiveError::BadArchiveStructure(message) => message.clone(),
        }
    }
}

} // verus!

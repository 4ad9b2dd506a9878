//! Writing ZIP archives: the options of each entry, the records built for it, and the
//! archive writers.
pub mod common;
pub mod standard;
pub mod tokio;

use vstd::prelude::*;

use crate::compression::{CompressionMethod, Level};
use crate::types::{FileCompatibilitySystem, FileDateTime};

verus! {

/// What to record, and how to compress, for one entry of an archive.
#[derive(Clone)]
pub struct FileOptions<'a> {
    /// The entry's compression method.
    pub compression_method: CompressionMethod,
    /// The compression level.
    pub compression_level: Level,
    /// The entry's modification time.
    pub last_modified_time: FileDateTime,
    /// The entry's creation time, as a Unix timestamp.
    pub last_creation_time: Option<i32>,
    /// The entry's access time, as a Unix timestamp.
    pub last_access_time: Option<i32>,
    /// The Unix permissions.
    pub unix_permissions: Option<u32>,
    /// The system of origin.
    pub system: FileCompatibilitySystem,
    /// The entry's comment.
    pub comment: Option<&'a str>,
    /// Whether the entry's sizes may exceed 4 GiB (0xFFFFFFFF bytes).
    pub large_file: bool,
    /// Whether the archiver detects whether the entry is text or binary.
    pub detect_file_type: bool,
}

impl<'a> FileOptions<'a> {
    /// Deflate at the default level, modified now, Unix, no comment, no ZIP64 reservation,
    /// file type detection on.
    pub fn default() -> (r: FileOptions<'a>)
        ensures
            r.compression_method == CompressionMethod::Deflate(),
            r.compression_level == Level::Default,
            r.last_modified_time == FileDateTime::Now,
            r.unix_permissions is None,
            r.system == FileCompatibilitySystem::Unix,
            r.comment is None,
            !r.large_file,
            r.detect_file_type,
            r.last_creation_time is None,
            r.last_access_time is None,
    {
        FileOptions {
            compression_method: CompressionMethod::Deflate(),
            compression_level: Level::Default,
            last_modified_time: FileDateTime::Now,
            unix_permissions: None,
            system: FileCompatibilitySystem::Unix,
            comment: None,
            large_file: false,
            detect_file_type: true,
            last_creation_time: None,
            last_access_time: None,
        }
    }

    /// Sets the compression method.
    pub fn compression_method(self, method: CompressionMethod) -> (r: FileOptions<'a>)
        ensures
            r == (FileOptions { compression_method: method, ..self }),
    {
        FileOptions { compression_method: method, ..self }
    }

    /// Sets the compression level.
    pub fn compression_level(self, level: Level) -> (r: FileOptions<'a>)
        ensures
            r == (FileOptions { compression_level: level, ..self }),
    {
        FileOptions { compression_level: level, ..self }
    }

    /// Sets the modification time.
    pub fn last_modified_time(self, mod_time: FileDateTime) -> (r: FileOptions<'a>)
        ensures
            r == (FileOptions { last_modified_time: mod_time, ..self }),
    {
        FileOptions { last_modified_time: mod_time, ..self }
    }

    /// Sets the Unix permissions, keeping only the permission bits (`mode & 0o777`).
    pub fn unix_permissions(self, mode: u32) -> (r: FileOptions<'a>)
        ensures
            r == (FileOptions { unix_permissions: Some(mode & 0o777), ..self }),
    {
        FileOptions { unix_permissions: Some(mode & 0o777), ..self }
    }

    /// Sets the entry's comment.
    pub fn set_file_comment(self, comment: &'a str) -> (r: FileOptions<'a>)
        ensures
            r == (FileOptions { comment: Some(comment), ..self }),
    {
        FileOptions { comment: Some(comment), ..self }
    }

    /// Sets whether the entry's sizes may exceed 4 GiB.
    pub fn large_file(self, large: bool) -> (r: FileOptions<'a>)
        ensures
            r == (FileOptions { large_file: large, ..self }),
    {
        FileOptions { large_file: large, ..self }
    }

    /// Sets whether the archiver detects whether the entry is text or binary.
    pub fn detect_file_type(self, detect_file_type: bool) -> (r: FileOptions<'a>)
        ensures
            r == (FileOptions { detect_file_type: detect_file_type, ..self }),
    {
        FileOptions { detect_file_type, ..self }
    }

    /// Sets the Unix modification, access and creation timestamps; without a modification
    /// timestamp the modification time is unset.
    pub fn time_stamp(
        self,
        last_modification_time: Option<i32>,
        last_access_time: Option<i32>,
        last_creation_time: Option<i32>,
    ) -> (r: FileOptions<'a>)
        ensures
            r == (FileOptions {
                last_modified_time: match last_modification_time {
                    Some(t) => FileDateTime::UnixCustom(t),
                    None => FileDateTime::Unset,
                },
                last_access_time: last_access_time,
                last_creation_time: last_creation_time,
                ..self
            }),
    {
        let last_modified_time = if let Some(t) = last_modification_time {
            FileDateTime::UnixCustom(t)
        } else {
            FileDateTime::Unset
        };
        FileOptions { last_modified_time, last_access_time, last_creation_time, ..self }
    }
}

} // verus!

//! Entry options in their compact form: compressor, level, modification time, permissions and
//! system of origin.
use vstd::prelude::*;

use crate::compression::{CompressionMethod, Level};
use crate::types::{FileCompatibilitySystem, FileDateTime};

verus! {

/// Metadata for a file to be written.
#[derive(Clone)]
pub struct FileOptions {
    pub compressor: CompressionMethod,
    pub compression_level: Level,
    pub last_modified_time: FileDateTime,
    pub permissions: Option<u32>,
    pub system: FileCompatibilitySystem,
}

impl FileOptions {
    /// Deflate at the default level, modified now, no permissions, Unix.
    pub fn default() -> (r: FileOptions)
        ensures
            r == (FileOptions {
                compressor: CompressionMethod::Deflate(),
                compression_level: Level::Default,
                last_modified_time: FileDateTime::Now,
                permissions: None,
                system: FileCompatibilitySystem::Unix,
            }),
    {
        FileOptions {
            compressor: CompressionMethod::Deflate(),
            compression_level: Level::Default,
            last_modified_time: FileDateTime::Now,
            permissions: None,
            system: FileCompatibilitySystem::Unix,
        }
    }

    /// Sets the compression method.
    pub fn compression_method(self, method: CompressionMethod) -> (r: FileOptions)
        ensures
            r == (FileOptions { compressor: method, ..self }),
    {
        FileOptions { compressor: method, ..self }
    }

    /// Sets the compression level.
    pub fn compression_level(self, level: Level) -> (r: FileOptions)
        ensures
            r == (FileOptions { compression_level: level, ..self }),
    {
        FileOptions { compression_level: level, ..self }
    }

    /// Sets the modification time.
    pub fn last_modified_time(self, mod_time: FileDateTime) -> (r: FileOptions)
        ensures
            r == (FileOptions { last_modified_time: mod_time, ..self }),
    {
        FileOptions { last_modified_time: mod_time, ..self }
    }

    /// Sets the Unix permissions, keeping only the permission bits (`mode & 0o777`).
    pub fn unix_permissions(self, mode: u32) -> (r: FileOptions)
        ensures
            r == (FileOptions { permissions: Some(mode & 0o777), ..self }),
    {
        FileOptions { permissions: Some(mode & 0o777), ..self }
    }
}

} // verus!

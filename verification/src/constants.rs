use vstd::prelude::*;

verus! {

/// Size of a local file header without the file name and extra field.
pub const FILE_HEADER_BASE_SIZE: u64 = 30;
/// Size of a data descriptor (signature, CRC, sizes as 32-bit values).
pub const DESCRIPTOR_SIZE: u64 = 16;
/// Size of a data descriptor whose sizes are 64-bit values.
pub const ZIP64_DESCRIPTOR_SIZE: u64 = 28;
/// Size of a central directory entry without its variable parts.
pub const CENTRAL_DIRECTORY_ENTRY_BASE_SIZE: u64 = 46;
/// Size of the end of central directory record without its comment.
pub const END_OF_CENTRAL_DIRECTORY_SIZE: u64 = 22;
/// Offset of the CRC-32 field inside a local file header.
pub const FILE_HEADER_CRC_OFFSET: u64 = 14;

pub const CENTRAL_DIRECTORY_END_SIGNATURE: u32 = 0x06054b50;
pub const ZIP64_CENTRAL_DIRECTORY_END_SIGNATURE: u32 = 0x06064b50;
pub const ZIP64_END_OF_CENTRAL_DIR_LOCATOR_SIGNATURE: u32 = 0x07064b50;
pub const CENTRAL_DIRECTORY_ENTRY_SIGNATURE: u32 = 0x02014b50;
pub const LOCAL_FILE_HEADER_SIGNATURE: u32 = 0x04034b50;
pub const DATA_DESCRIPTOR_SIGNATURE: u32 = 0x08074b50;

pub const DEFAULT_VERSION: u8 = 46;
pub const UNIX: u8 = 3;
/// Unix host (high byte) and specification version 4.6 (low byte).
pub const VERSION_MADE_BY: u16 = 0x032e;

pub const EXTENDED_LOCAL_HEADER_FLAG: u16 = 8;
pub const VERSION_USES_ZIP64_FORMAT_EXTENSIONS: u16 = 45;
pub const X5455_EXTENDEDTIMESTAMP: u16 = 0x5455;

/// Unix file type bits of a directory.
pub const S_IFDIR: u32 = 0o0040000;
/// Unix file type bits of a regular file.
pub const S_IFREG: u32 = 0o0100000;
/// Default permissions of a directory (`rwxr-xr-x`).
pub const DIR_DEFAULT: u32 = 0o755;
/// Default permissions of a file (`rw-r--r--`).
pub const FILE_DEFAULT: u32 = 0o644;
/// MS-DOS directory attribute.
pub const MS_DIR: u32 = 0x10;

} // verus!

//! One-pass ZIP archive construction with verified record layouts.
pub mod archive;
pub mod constants;
pub mod descriptor;
pub mod encoding;
pub mod archive_common;
pub mod async_write_wrapper;
pub mod compress;
pub mod compression;
pub mod error;
pub mod tokio;
pub mod tools;
pub mod types;
pub mod uncompress;
pub mod readback;
pub mod written;
pub mod text;
pub mod report;

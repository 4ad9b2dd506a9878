//! Archive writing whose compression runs in this library.
pub mod archive;
pub mod compressor;
pub mod write_wrapper;

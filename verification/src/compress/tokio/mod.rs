//! Archive writing whose compression runs in the caller (asynchronously), with the records
//! decided here.
pub mod archive;
pub mod async_wrapper;
pub mod compressor;

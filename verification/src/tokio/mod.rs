//! Byte-counting wrappers around asynchronous writers.
pub mod async_wrapper;

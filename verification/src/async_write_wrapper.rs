//! An asynchronous writer that counts the compressed bytes written through it.
use vstd::prelude::*;

verus! {

/// An asynchronous writer, and the number of compressed bytes written through it.
#[derive(Debug)]
pub struct AsyncWriteWrapper<W> {
    writer: W,
    compress_length: usize,
}

impl<W> AsyncWriteWrapper<W> {
    /// The wrapped writer.
    pub closed spec fn spec_writer(&self) -> W {
        self.writer
    }

    /// The number of bytes counted.
    pub closed spec fn spec_length(&self) -> usize {
        self.compress_length
    }

    /// Wraps `w`, nothing counted yet.
    pub fn new(w: W) -> (r: AsyncWriteWrapper<W>)
        ensures
            r.spec_writer() == w,
            r.spec_length() == 0,
    {
        Self { writer: w, compress_length: 0 }
    }

    /// The number of bytes written through the wrapper.
    pub fn get_compress_length(&self) -> (n: usize)
        ensures
            n == self.spec_length(),
    {
        self.compress_length
    }

    /// Gives the wrapped writer back.
    pub fn retrieve_writer(self) -> (w: W)
        ensures
            w == self.spec_writer(),
    {
        self.writer
    }

    /// The wrapped writer, to write through.
    pub fn writer_mut(&mut self) -> (w: &mut W)
        ensures
            *w == old(self).spec_writer(),
            final(self).spec_writer() == *final(w),
            final(self).spec_length() == old(self).spec_length(),
    {
        &mut self.writer
    }

    /// Counts `nb_byte_written` more bytes, those of a completed write.
    pub fn record_write(&mut self, nb_byte_written: usize)
        requires
            old(self).spec_length() + nb_byte_written <= usize::MAX,
        ensures
            final(self).spec_length() == old(self).spec_length() + nb_byte_written,
            final(self).spec_writer() == old(self).spec_writer(),
    {
        self.compress_length = self.compress_length + nb_byte_written;
    }
}

} // verus!

//! Byte counting, in `usize`, around asynchronous writers.
use vstd::prelude::*;

verus! {

/// What a counting asynchronous writer offers: the number of bytes that went through it.
pub trait BytesCounter {
    fn get_written_bytes_count(&self) -> usize;

    fn set_written_bytes_count(&mut self, count: usize);
}

/// An asynchronous writer, and the number of bytes written through it.
#[derive(Debug)]
pub struct AsyncWriteWrapper<W> {
    writer: W,
    written_bytes_count: usize,
}

impl<W> AsyncWriteWrapper<W> {
    /// The wrapped writer.
    pub closed spec fn spec_writer(&self) -> W {
        self.writer
    }

    /// The number of bytes counted.
    pub closed spec fn spec_count(&self) -> usize {
        self.written_bytes_count
    }

    /// Wraps `w`, nothing counted yet.
    pub fn new(w: W) -> (r: AsyncWriteWrapper<W>)
        ensures
            r.spec_writer() == w,
            r.spec_count() == 0,
    {
        Self { writer: w, written_bytes_count: 0 }
    }

    /// Gives the wrapped writer back.
    pub fn retrieve_writer(self) -> (w: W)
        ensures
            w == self.spec_writer(),
    {
        self.writer
    }

    /// The wrapped writer, to write through.
    pub fn writer_mut(&mut self) -> (w: &mut W)
        ensures
            *w == old(self).spec_writer(),
            final(self).spec_writer() == *final(w),
            final(self).spec_count() == old(self).spec_count(),
    {
        &mut self.writer
    }

    /// Counts `nb_byte_written` more bytes, those of a completed write.
    pub fn record_write(&mut self, nb_byte_written: usize)
        requires
            old(self).spec_count() + nb_byte_written <= usize::MAX,
        ensures
            final(self).spec_count() == old(self).spec_count() + nb_byte_written,
            final(self).spec_writer() == old(self).spec_writer(),
    {
        self.written_bytes_count = self.written_bytes_count + nb_byte_written;
    }
}

impl<W> BytesCounter for AsyncWriteWrapper<W> {
    fn get_written_bytes_count(&self) -> (n: usize)
        ensures
            n == self.spec_count(),
    {
        self.written_bytes_count
    }

    fn set_written_bytes_count(&mut self, count: usize)
        ensures
            final(self).spec_count() == count,
            final(self).spec_writer() == old(self).spec_writer(),
    {
        self.written_bytes_count = count;
    }
}

/// An asynchronous writer that can seek, and the number of bytes written through it.
#[derive(Debug)]
pub struct AsyncWriteSeekWrapper<W> {
    writer_seek: W,
    written_bytes_count: usize,
}

impl<W> AsyncWriteSeekWrapper<W> {
    /// The wrapped writer.
    pub closed spec fn spec_writer(&self) -> W {
        self.writer_seek
    }

    /// The byte count.
    pub closed spec fn spec_count(&self) -> usize {
        self.written_bytes_count
    }

    /// Wraps `w`, the count zero.
    pub fn new(w: W) -> (r: AsyncWriteSeekWrapper<W>)
        ensures
            r.spec_writer() == w,
            r.spec_count() == 0,
    {
        Self { writer_seek: w, written_bytes_count: 0 }
    }

    /// The byte count.
    pub fn get_written_bytes_count(&self) -> (n: usize)
        ensures
            n == self.spec_count(),
    {
        self.written_bytes_count
    }

    /// Gives the wrapped writer back.
    pub fn retrieve_writer(self) -> (w: W)
        ensures
            w == self.spec_writer(),
    {
        self.writer_seek
    }

    /// The wrapped writer, to write and seek through.
    pub fn writer_mut(&mut self) -> (w: &mut W)
        ensures
            *w == old(self).spec_writer(),
            final(self).spec_writer() == *final(w),
            final(self).spec_count() == old(self).spec_count(),
    {
        &mut self.writer_seek
    }

    /// Counts `nb_byte_written` more bytes, those of a completed write.
    pub fn record_write(&mut self, nb_byte_written: usize)
        requires
            old(self).spec_count() + nb_byte_written <= usize::MAX,
        ensures
            final(self).spec_count() == old(self).spec_count() + nb_byte_written,
            final(self).spec_writer() == old(self).spec_writer(),
    {
        self.written_bytes_count = self.written_bytes_count + nb_byte_written;
    }
}

impl<W> BytesCounter for AsyncWriteSeekWrapper<W> {
    fn get_written_bytes_count(&self) -> (n: usize)
        ensures
            n == self.spec_count(),
    {
        self.written_bytes_count
    }

    fn set_written_bytes_count(&mut self, count: usize)
        ensures
            final(self).spec_count() == count,
            final(self).spec_writer() == old(self).spec_writer(),
    {
        self.written_bytes_count = count;
    }
}

} // verus!

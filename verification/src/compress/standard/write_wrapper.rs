//! Byte counting around the writers that archives are written to.
use vstd::prelude::*;

verus! {

/// What a counting writer offers: the number of bytes that went through it.
pub trait BytesCounter {
    fn get_written_bytes_count(&self) -> u64;

    fn set_written_bytes_count(&mut self, count: u64);
}

/// A writer, and the number of bytes written through it.
#[derive(Debug)]
pub struct WriteWrapper<W> {
    writer: W,
    written_bytes_count: u64,
}

impl<W> WriteWrapper<W> {
    /// The wrapped writer.
    pub closed spec fn spec_writer(&self) -> W {
        self.writer
    }

    /// The number of bytes counted.
    pub closed spec fn spec_count(&self) -> u64 {
        self.written_bytes_count
    }

    /// Wraps `w`, nothing counted yet.
    pub fn new(w: W) -> (r: WriteWrapper<W>)
        ensures
            r.spec_writer() == w,
            r.spec_count() == 0,
    {
        Self { writer: w, written_bytes_count: 0 }
    }

    /// Gives the wrapped writer back.
    pub fn retrieve_writer(self) -> (w: W)
        ensures
            w == self.spec_writer(),
    {
        self.writer
    }

    /// The wrapped writer, to write through.
    pub fn writer_mut(&mut self) -> (w: &mut W)
        ensures
            *w == old(self).spec_writer(),
            final(self).spec_writer() == *final(w),
            final(self).spec_count() == old(self).spec_count(),
    {
        &mut self.writer
    }

    /// Counts `nb_byte_written` more bytes, those of a successful write.
    pub fn record_write(&mut self, nb_byte_written: usize)
        requires
            old(self).spec_count() + nb_byte_written <= u64::MAX,
        ensures
            final(self).spec_count() == old(self).spec_count() + nb_byte_written,
            final(self).spec_writer() == old(self).spec_writer(),
    {
        self.written_bytes_count = self.written_bytes_count + nb_byte_written as u64;
    }

    /// The position that seeking reports: the number of bytes written, since this writer cannot
    /// seek.
    pub fn seek(&self) -> (p: u64)
        ensures
            p == self.spec_count(),
    {
        self.written_bytes_count
    }
}

impl<W> BytesCounter for WriteWrapper<W> {
    fn get_written_bytes_count(&self) -> (n: u64)
        ensures
            n == self.spec_count(),
    {
        self.written_bytes_count
    }

    fn set_written_bytes_count(&mut self, count: u64)
        ensures
            final(self).spec_count() == count,
            final(self).spec_writer() == old(self).spec_writer(),
    {
        self.written_bytes_count = count;
    }
}

/// A writer that can seek, and the position that its last seek reported.
#[derive(Debug)]
pub struct WriteSeekWrapper<WS> {
    writer: WS,
    written_bytes_count: u64,
}

impl<WS> WriteSeekWrapper<WS> {
    /// The wrapped writer.
    pub closed spec fn spec_writer(&self) -> WS {
        self.writer
    }

    /// The position recorded.
    pub closed spec fn spec_count(&self) -> u64 {
        self.written_bytes_count
    }

    /// Wraps `w`, at position zero.
    pub fn new(w: WS) -> (r: WriteSeekWrapper<WS>)
        ensures
            r.spec_writer() == w,
            r.spec_count() == 0,
    {
        Self { writer: w, written_bytes_count: 0 }
    }

    /// Gives the wrapped writer back.
    pub fn retrieve_writer(self) -> (w: WS)
        ensures
            w == self.spec_writer(),
    {
        self.writer
    }

    /// The wrapped writer, to write and seek through.
    pub fn writer_mut(&mut self) -> (w: &mut WS)
        ensures
            *w == old(self).spec_writer(),
            final(self).spec_writer() == *final(w),
            final(self).spec_count() == old(self).spec_count(),
    {
        &mut self.writer
    }

    /// Records the position that a successful seek of the writer reported, and returns it.
    pub fn seek(&mut self, position_from_start: u64) -> (p: u64)
        ensures
            p == position_from_start,
            final(self).spec_count() == position_from_start,
            final(self).spec_writer() == old(self).spec_writer(),
    {
        self.written_bytes_count = position_from_start;
        position_from_start
    }
}

impl<WS> BytesCounter for WriteSeekWrapper<WS> {
    fn get_written_bytes_count(&self) -> (n: u64)
        ensures
            n == self.spec_count(),
    {
        self.written_bytes_count
    }

    fn set_written_bytes_count(&mut self, count: u64)
        ensures
            final(self).spec_count() == count,
            final(self).spec_writer() == old(self).spec_writer(),
    {
        self.written_bytes_count = count;
    }
}

} // verus!

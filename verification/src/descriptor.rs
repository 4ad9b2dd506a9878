//! A record buffer that reads local headers into the compact `types::ArchiveFileEntry`.
use vstd::prelude::*;
use vstd::string::*;

use crate::archive_common::{u16_at, u32_at, ArchiveDescriptorReader};
use crate::compression::CompressionMethod;
use crate::encoding::{le_u16, le_u32};
use crate::types::ArchiveFileEntry;

verus! {

/// A growable buffer into which records are serialised, little-endian.
pub struct ArchiveDescriptor {
    buffer: Vec<u8>,
}

impl View for ArchiveDescriptor {
    type V = Seq<u8>;

    open spec fn view(&self) -> Seq<u8> {
        self.spec_buffer()
    }
}

/// The compressor that the compact entry associates with a method code: the known methods, and
/// `Unknown` for the rest.
pub open spec fn spec_compressor_of_code(code: u16) -> CompressionMethod {
    match crate::compression::spec_method_of_code(code) {
        Some(m) => m,
        None => CompressionMethod::Unknown(code),
    }
}

impl ArchiveDescriptor {
    /// The bytes written so far.
    pub closed spec fn spec_buffer(&self) -> Seq<u8> {
        self.buffer@
    }

    /// An empty buffer that has room for `capacity` bytes.
    pub fn new(capacity: usize) -> (d: ArchiveDescriptor)
        ensures
            d@ == Seq::<u8>::empty(),
    {
        ArchiveDescriptor { buffer: Vec::with_capacity(capacity) }
    }

    /// Appends the little-endian form of `val`.
    pub fn write_u16(&mut self, val: u16)
        ensures
            final(self)@ == old(self)@ + le_u16(val),
    {
        self.buffer.push((val % 256) as u8);
        self.buffer.push((val / 256) as u8);
        assert(self.buffer@ =~= old(self)@ + le_u16(val));
    }

    /// Appends the little-endian form of `val`.
    pub fn write_u32(&mut self, val: u32)
        ensures
            final(self)@ == old(self)@ + le_u32(val),
    {
        self.buffer.push((val % 256) as u8);
        self.buffer.push(((val / 256) % 256) as u8);
        self.buffer.push(((val / 65536) % 256) as u8);
        self.buffer.push((val / 16777216) as u8);
        assert(self.buffer@ =~= old(self)@ + le_u32(val));
    }

    /// Appends the UTF-8 bytes of `val`.
    pub fn write_str(&mut self, val: &str)
        ensures
            final(self)@ == old(self)@ + val.spec_bytes(),
    {
        self.write_bytes(val.as_bytes());
    }

    /// Appends `val` as it is.
    pub fn write_bytes(&mut self, val: &[u8])
        ensures
            final(self)@ == old(self)@ + val@,
    {
        let mut i: usize = 0;
        while i < val.len()
            invariant
                i <= val@.len(),
                self@ == old(self)@ + val@.take(i as int),
            decreases val@.len() - i,
        {
            self.buffer.push(val[i]);
            i = i + 1;
            assert(self@ =~= old(self)@ + val@.take(i as int));
        }
        assert(val@.take(i as int) =~= val@);
    }

    /// Gives the buffer up.
    pub fn finish(self) -> (v: Vec<u8>)
        ensures
            v@ == self@,
    {
        self.buffer
    }

    /// The number of bytes written.
    pub fn len(&self) -> (n: usize)
        ensures
            n == self@.len(),
    {
        self.buffer.len()
    }

    /// Whether nothing has been written.
    pub fn is_empty(&self) -> (b: bool)
        ensures
            b == (self@.len() == 0),
    {
        self.len() == 0
    }

    /// The bytes written.
    pub fn buffer(&self) -> (b: &[u8])
        ensures
            b@ == self@,
    {
        self.buffer.as_slice()
    }

    /// Reads the local file header at the start of `stream` (its name must be valid UTF-8).
    pub fn read_file_descriptor(stream: &[u8]) -> (e: ArchiveFileEntry)
        requires
            crate::archive_common::spec_local_header_readable(stream@),
        ensures
            e.version_made_by == 0,
            e.version_needed == u16_at(stream@, 4),
            e.general_purpose_flags == u16_at(stream@, 6),
            e.compression_method == u16_at(stream@, 8),
            e.last_mod_file_time == u16_at(stream@, 10),
            e.last_mod_file_date == u16_at(stream@, 12),
            e.crc32 == u32_at(stream@, 14),
            e.compressed_size == u32_at(stream@, 18),
            e.uncompressed_size == u32_at(stream@, 22),
            e.file_name_len == u16_at(stream@, 26),
            e.extra_field_length == u16_at(stream@, 28),
            e.file_name_as_bytes@ == stream@.subrange(30, 30 + u16_at(stream@, 26)),
            e.offset == 0,
            e.compressor == spec_compressor_of_code(u16_at(stream@, 8)),
            e.file_disk_number == 0,
            e.internal_file_attributes == 0,
            e.external_file_attributes == 0,
            e.file_comment is None,
    {
        let mut indexer = ArchiveDescriptorReader::new();
        let ghost s = stream@;
        let _signature = indexer.read_u32(stream);
        let version_needed = indexer.read_u16(stream);
        let general_purpose_flags = indexer.read_u16(stream);
        let compression_method = indexer.read_u16(stream);
        let time = indexer.read_u16(stream);
        let date = indexer.read_u16(stream);
        let crc = indexer.read_u32(stream);
        let compressed_size = indexer.read_u32(stream);
        let uncompressed_size = indexer.read_u32(stream);
        let file_name_len = indexer.read_u16(stream);
        let extra_field_length = indexer.read_u16(stream);
        let file_name = indexer.read_utf8_string(stream, file_name_len as usize);
        proof {
            vstd::utf8::decode_utf8_encode_utf8(s.subrange(30, 30 + file_name_len));
        }
        let file_name_as_bytes = vstd::slice::slice_to_vec(file_name.as_str().as_bytes());
        let compressor = match CompressionMethod::from_compression_method(compression_method) {
            Ok(c) => c,
            Err(_) => CompressionMethod::Unknown(compression_method),
        };
        ArchiveFileEntry {
            version_made_by: 0,
            version_needed,
            general_purpose_flags,
            last_mod_file_time: time,
            last_mod_file_date: date,
            crc32: crc,
            compressed_size: compressed_size as u64,
            uncompressed_size: uncompressed_size as u64,
            file_name_len,
            extra_field_length,
            file_name_as_bytes,
            offset: 0,
            compression_method,
            compressor,
            file_disk_number: 0,
            internal_file_attributes: 0,
            external_file_attributes: 0,
            file_comment: None,
        }
    }
}

} // verus!

//! Byte buffers for ZIP records, the records themselves, and the per-entry bookkeeping.
use vstd::prelude::*;
use vstd::utf8::*;
use vstd::string::*;

use crate::constants::{
    CENTRAL_DIRECTORY_END_SIGNATURE, VERSION_USES_ZIP64_FORMAT_EXTENSIONS, X5455_EXTENDEDTIMESTAMP,
    ZIP64_CENTRAL_DIRECTORY_END_SIGNATURE, ZIP64_END_OF_CENTRAL_DIR_LOCATOR_SIGNATURE,
};
use crate::compression::CompressionMethod;
use crate::encoding::{from_le_i32, from_le_u16, from_le_u32, from_le_u64, le_i32, le_u16, le_u32, le_u64};

verus! {

/// A growable buffer into which ZIP records are serialised, little-endian.
#[derive(Debug)]
pub struct ArchiveDescriptor {
    buffer: Vec<u8>,
}

impl View for ArchiveDescriptor {
    type V = Seq<u8>;

    open spec fn view(&self) -> Seq<u8> {
        self.spec_buffer()
    }
}

impl ArchiveDescriptor {
    /// The bytes written so far.
    pub closed spec fn spec_buffer(&self) -> Seq<u8> {
        self.buffer@
    }

    /// An empty buffer that has room for `capacity` bytes.
    pub fn new(capacity: u64) -> (d: ArchiveDescriptor)
        ensures
            d@ == Seq::<u8>::empty(),
    {
        ArchiveDescriptor { buffer: Vec::with_capacity(capacity as usize) }
    }

    /// Appends one byte.
    pub fn write_u8(&mut self, val: u8)
        ensures
            final(self)@ == old(self)@.push(val),
    {
        self.buffer.push(val);
    }

    /// Appends the little-endian form of `val`.
    pub fn write_u16(&mut self, val: u16)
        ensures
            final(self)@ == old(self)@ + le_u16(val),
    {
        self.buffer.push((val % 256) as u8);
        self.buffer.push((val / 256) as u8);
        assert(self.buffer@ =~= old(self)@ + le_u16(val));
    }

    /// Appends the little-endian form of `val`.
    pub fn write_u32(&mut self, val: u32)
        ensures
            final(self)@ == old(self)@ + le_u32(val),
    {
        self.buffer.push((val % 256) as u8);
        self.buffer.push(((val / 256) % 256) as u8);
        self.buffer.push(((val / 65536) % 256) as u8);
        self.buffer.push((val / 16777216) as u8);
        assert(self.buffer@ =~= old(self)@ + le_u32(val));
    }

    /// Appends the little-endian two's complement form of `val`.
    pub fn write_i32(&mut self, val: i32)
        ensures
            final(self)@ == old(self)@ + le_i32(val),
    {
        self.write_u32(val as u32);
    }

    /// Appends the little-endian form of `val`.
    pub fn write_u64(&mut self, val: u64)
        ensures
            final(self)@ == old(self)@ + le_u64(val),
    {
        self.write_u32((val % 0x1_0000_0000) as u32);
        self.write_u32((val / 0x1_0000_0000) as u32);
        assert(final(self)@ =~= old(self)@ + le_u64(val));
    }

    /// Appends `val` as it is.
    pub fn write_bytes(&mut self, val: &[u8])
        ensures
            final(self)@ == old(self)@ + val@,
    {
        let mut i: usize = 0;
        while i < val.len()
            invariant
                i <= val@.len(),
                self@ == old(self)@ + val@.subrange(0, i as int),
            decreases val@.len() - i,
        {
            self.buffer.push(val[i]);
            i = i + 1;
            assert(self@ =~= old(self)@ + val@.subrange(0, i as int));
        }
        assert(val@.subrange(0, i as int) =~= val@);
    }

    /// Appends `len` zero bytes.
    pub fn write_zeros(&mut self, len: usize)
        ensures
            final(self)@ == old(self)@ + Seq::new(len as nat, |i: int| 0u8),
    {
        let mut i: usize = 0;
        while i < len
            invariant
                i <= len,
                self@ == old(self)@ + Seq::new(i as nat, |k: int| 0u8),
            decreases len - i,
        {
            self.buffer.push(0u8);
            i = i + 1;
            assert(self@ =~= old(self)@ + Seq::new(i as nat, |k: int| 0u8));
        }
    }

    /// Gives the buffer up.
    pub fn finish(self) -> (v: Vec<u8>)
        ensures
            v@ == self@,
    {
        self.buffer
    }

    /// The number of bytes written.
    pub fn len(&self) -> (n: usize)
        ensures
            n == self@.len(),
    {
        self.buffer.len()
    }

    /// Whether nothing has been written.
    pub fn is_empty(&self) -> (b: bool)
        ensures
            b == (self@.len() == 0),
    {
        self.len() == 0
    }

    /// The bytes written.
    pub fn buffer(&self) -> (b: &[u8])
        ensures
            b@ == self@,
    {
        self.buffer.as_slice()
    }

    /// Forgets every byte written.
    pub fn clear(&mut self)
        ensures
            final(self)@ == Seq::<u8>::empty(),
    {
        self.buffer.clear();
    }

    /// The bytes written.
    pub fn bytes(&self) -> (b: &[u8])
        ensures
            b@ == self@,
    {
        self.buffer.as_slice()
    }
}

/// A cursor that decodes little-endian values from a byte stream.
#[derive(Debug, Default)]
pub struct ArchiveDescriptorReader {
    index: usize,
}

/// The UTF-8 text that `bytes` encode, or `None` when they are not valid UTF-8.
///
/// Calls `std::str::from_utf8` and copies the result; the contract claims what its
/// documentation states: success exactly on valid UTF-8, with the decoded characters.
#[verifier::external_body]
fn utf8_to_string(bytes: &[u8]) -> (r: Option<String>)
    ensures
        r.is_some() == valid_utf8(bytes@),
        r matches Some(s) ==> s@ == decode_utf8(bytes@),
{
    match std::str::from_utf8(bytes) {
        Ok(s) => Some(s.to_owned()),
        Err(_) => None,
    }
}

/// The text that `String::from_utf8_lossy` makes of `bytes`.
pub uninterp spec fn utf8_lossy_text(bytes: Seq<u8>) -> Seq<char>;

/// The text that `bytes` encode, each invalid UTF-8 sequence replaced.
///
/// Calls `String::from_utf8_lossy`; the text is named, and the contract also claims the
/// decoded characters where the bytes are valid UTF-8, as its documentation says.
#[verifier::external_body]
pub(crate) fn lossy_utf8(bytes: &[u8]) -> (s: String)
    ensures
        s@ == utf8_lossy_text(bytes@),
        valid_utf8(bytes@) ==> s@ == decode_utf8(bytes@),
{
    String::from_utf8_lossy(bytes).to_string()
}

impl ArchiveDescriptorReader {
    /// The position of the next byte to decode.
    pub closed spec fn spec_index(&self) -> int {
        self.index as int
    }

    /// A cursor at the start of the stream.
    pub fn new() -> (r: ArchiveDescriptorReader)
        ensures
            r.spec_index() == 0,
    {
        ArchiveDescriptorReader { index: 0 }
    }

    /// A cursor at `index`.
    pub fn at(index: usize) -> (r: ArchiveDescriptorReader)
        ensures
            r.spec_index() == index,
    {
        ArchiveDescriptorReader { index }
    }

    /// The position of the next byte to decode.
    pub fn get_index(&self) -> (i: usize)
        ensures
            i == self.spec_index(),
    {
        self.index
    }

    /// Decodes a little-endian 32-bit integer and moves past it.
    pub fn read_u32(&mut self, stream: &[u8]) -> (v: u32)
        requires
            old(self).spec_index() + 4 <= stream@.len(),
        ensures
            v == from_le_u32(stream@.subrange(old(self).spec_index(), old(self).spec_index() + 4)),
            final(self).spec_index() == old(self).spec_index() + 4,
    {
        let i = self.index;
        let v = stream[i] as u32 + stream[i + 1] as u32 * 256 + stream[i + 2] as u32 * 65536
            + stream[i + 3] as u32 * 16777216;
        self.index = i + 4;
        v
    }

    /// Decodes a little-endian two's complement 32-bit integer and moves past it.
    pub fn read_i32(&mut self, stream: &[u8]) -> (v: i32)
        requires
            old(self).spec_index() + 4 <= stream@.len(),
        ensures
            v == from_le_i32(stream@.subrange(old(self).spec_index(), old(self).spec_index() + 4)),
            final(self).spec_index() == old(self).spec_index() + 4,
    {
        self.read_u32(stream) as i32
    }

    /// Decodes a little-endian 16-bit integer and moves past it.
    pub fn read_u16(&mut self, stream: &[u8]) -> (v: u16)
        requires
            old(self).spec_index() + 2 <= stream@.len(),
        ensures
            v == from_le_u16(stream@.subrange(old(self).spec_index(), old(self).spec_index() + 2)),
            final(self).spec_index() == old(self).spec_index() + 2,
    {
        let i = self.index;
        let v = stream[i] as u16 + stream[i + 1] as u16 * 256;
        self.index = i + 2;
        v
    }

    /// Reads one byte and moves past it.
    pub fn read_u8(&mut self, stream: &[u8]) -> (v: u8)
        requires
            old(self).spec_index() + 1 <= stream@.len(),
        ensures
            v == stream@[old(self).spec_index()],
            final(self).spec_index() == old(self).spec_index() + 1,
    {
        let v = stream[self.index];
        self.index = self.index + 1;
        v
    }

    /// Decodes a little-endian 64-bit integer and moves past it.
    pub fn read_u64(&mut self, stream: &[u8]) -> (v: u64)
        requires
            old(self).spec_index() + 8 <= stream@.len(),
        ensures
            v == from_le_u64(stream@.subrange(old(self).spec_index(), old(self).spec_index() + 8)),
            final(self).spec_index() == old(self).spec_index() + 8,
    {
        let start = self.index;
        let lo = self.read_u32(stream);
        let hi = self.read_u32(stream);
        let ghost s = stream@.subrange(start as int, start + 8);
        assert(s.subrange(4, 8) =~= stream@.subrange(start + 4, start + 8));
        assert(from_le_u32(s) == lo);
        lo as u64 + hi as u64 * 0x1_0000_0000
    }

    /// Decodes `string_len` bytes of UTF-8 text and moves past them.
    pub fn read_utf8_string(&mut self, stream: &[u8], string_len: usize) -> (s: String)
        requires
            old(self).spec_index() + string_len <= stream@.len(),
            valid_utf8(stream@.subrange(old(self).spec_index(), old(self).spec_index() + string_len)),
        ensures
            s@ == decode_utf8(stream@.subrange(old(self).spec_index(), old(self).spec_index() + string_len)),
            final(self).spec_index() == old(self).spec_index() + string_len,
    {
        let n = stream.len();
        let upper_bound = self.index + string_len;
        let value = utf8_to_string(&stream[self.index..upper_bound]);
        self.index = upper_bound;
        value.unwrap()
    }

    /// Copies `len` bytes and moves past them.
    pub fn read_bytes(&mut self, stream: &[u8], len: usize) -> (v: Vec<u8>)
        requires
            old(self).spec_index() + len <= stream@.len(),
        ensures
            v@ == stream@.subrange(old(self).spec_index(), old(self).spec_index() + len),
            final(self).spec_index() == old(self).spec_index() + len,
    {
        let n = stream.len();
        let upper_bound = self.index + len;
        let value = vstd::slice::slice_to_vec(vstd::slice::slice_subrange(stream, self.index, upper_bound));
        self.index = upper_bound;
        value
    }
}

} // verus!

verus! {

/// `v` capped at `u16::MAX`.
pub open spec fn sat_u16(v: int) -> u16 {
    if v >= 0xFFFF {
        0xFFFF
    } else {
        v as u16
    }
}

/// `v` capped at `u32::MAX`.
pub open spec fn sat_u32(v: int) -> u32 {
    if v >= 0xFFFF_FFFF {
        0xFFFF_FFFF
    } else {
        v as u32
    }
}

/// The fields of the end of central directory records, classic and ZIP64.
#[derive(Debug)]
pub struct CentralDirectoryEnd {
    pub number_of_this_disk: u32,
    pub number_of_the_disk_with_central_directory: u32,
    pub total_number_of_entries_on_this_disk: u64,
    pub total_number_of_entries_in_the_central_directory: u64,
    pub central_directory_size: u64,
    pub offset_of_start_of_central_directory: u64,
    pub z64ecdl_number_of_the_disk_with_the_start_of_the_zip64_end_of_central_directory: u32,
    pub z64ecdl_relative_offset_of_the_zip64_end_of_central_directory_record: u64,
    pub z64ecdl_total_number_of_disks: u32,
    pub archive_comment: Option<Vec<u8>>,
}

/// The bytes that the classic record stores for the archive comment: its length, then the comment.
pub open spec fn spec_comment_field(comment: Option<Vec<u8>>) -> Seq<u8> {
    match comment {
        Some(c) => le_u16(c@.len() as u16) + c@,
        None => le_u16(0),
    }
}

/// The ZIP64 end of central directory record of `e`.
pub open spec fn spec_zip64_end_record(e: CentralDirectoryEnd) -> Seq<u8> {
    le_u32(ZIP64_CENTRAL_DIRECTORY_END_SIGNATURE) + le_u64(44) + le_u16(46) + le_u16(46) + le_u32(
        e.number_of_this_disk,
    ) + le_u32(e.number_of_the_disk_with_central_directory) + le_u64(
        e.total_number_of_entries_on_this_disk,
    ) + le_u64(e.total_number_of_entries_in_the_central_directory) + le_u64(
        e.central_directory_size,
    ) + le_u64(e.offset_of_start_of_central_directory)
}

/// The ZIP64 end of central directory locator of `e`.
pub open spec fn spec_zip64_locator(e: CentralDirectoryEnd) -> Seq<u8> {
    le_u32(ZIP64_END_OF_CENTRAL_DIR_LOCATOR_SIGNATURE) + le_u32(
        e.z64ecdl_number_of_the_disk_with_the_start_of_the_zip64_end_of_central_directory,
    ) + le_u64(e.z64ecdl_relative_offset_of_the_zip64_end_of_central_directory_record) + le_u32(
        e.z64ecdl_total_number_of_disks,
    )
}

/// The classic end of central directory record of `e`, each count or size capped at the
/// largest value that its field holds.
pub open spec fn spec_end_record(e: CentralDirectoryEnd) -> Seq<u8> {
    le_u32(CENTRAL_DIRECTORY_END_SIGNATURE) + le_u16(sat_u16(e.number_of_this_disk as int)) + le_u16(
        sat_u16(e.number_of_the_disk_with_central_directory as int),
    ) + le_u16(sat_u16(e.total_number_of_entries_on_this_disk as int)) + le_u16(
        sat_u16(e.total_number_of_entries_in_the_central_directory as int),
    ) + le_u32(sat_u32(e.central_directory_size as int)) + le_u32(
        sat_u32(e.offset_of_start_of_central_directory as int),
    ) + spec_comment_field(e.archive_comment)
}

/// Whether some field of the classic record cannot hold the value of `e`.
pub open spec fn spec_needs_zip64(e: CentralDirectoryEnd) -> bool {
    ||| e.number_of_this_disk >= 0xFFFF
    ||| e.number_of_the_disk_with_central_directory >= 0xFFFF
    ||| e.total_number_of_entries_on_this_disk >= 0xFFFF
    ||| e.total_number_of_entries_in_the_central_directory >= 0xFFFF
    ||| e.central_directory_size >= 0xFFFF_FFFF
    ||| e.offset_of_start_of_central_directory >= 0xFFFF_FFFF
}

/// Writes `v` capped at `u16::MAX`.
fn write_capped_u16(d: &mut ArchiveDescriptor, v: u64)
    ensures
        final(d)@ == old(d)@ + le_u16(sat_u16(v as int)),
{
    if v >= 0xFFFF {
        d.write_u16(0xFFFF);
    } else {
        d.write_u16(v as u16);
    }
}

/// Writes `v` capped at `u32::MAX`.
fn write_capped_u32(d: &mut ArchiveDescriptor, v: u64)
    ensures
        final(d)@ == old(d)@ + le_u32(sat_u32(v as int)),
{
    if v >= 0xFFFF_FFFF {
        d.write_u32(0xFFFF_FFFF);
    } else {
        d.write_u32(v as u32);
    }
}

/// The end records of an archive with nothing in it yet: all counts, sizes and offsets zero,
/// and no comment.
pub open spec fn spec_empty_end(e: CentralDirectoryEnd) -> bool {
    &&& e.number_of_this_disk == 0
    &&& e.number_of_the_disk_with_central_directory == 0
    &&& e.total_number_of_entries_on_this_disk == 0
    &&& e.total_number_of_entries_in_the_central_directory == 0
    &&& e.central_directory_size == 0
    &&& e.offset_of_start_of_central_directory == 0
    &&& e.z64ecdl_number_of_the_disk_with_the_start_of_the_zip64_end_of_central_directory == 0
    &&& e.z64ecdl_relative_offset_of_the_zip64_end_of_central_directory_record == 0
    &&& e.z64ecdl_total_number_of_disks == 0
    &&& e.archive_comment is None
}

impl CentralDirectoryEnd {
    /// All counts, sizes and offsets zero, and no comment.
    pub fn default() -> (r: Self)
        ensures
            r.number_of_this_disk == 0,
            r.number_of_the_disk_with_central_directory == 0,
            r.total_number_of_entries_on_this_disk == 0,
            r.total_number_of_entries_in_the_central_directory == 0,
            r.central_directory_size == 0,
            r.offset_of_start_of_central_directory == 0,
            r.z64ecdl_number_of_the_disk_with_the_start_of_the_zip64_end_of_central_directory == 0,
            r.z64ecdl_relative_offset_of_the_zip64_end_of_central_directory_record == 0,
            r.z64ecdl_total_number_of_disks == 0,
            r.archive_comment is None,
    {
        CentralDirectoryEnd {
            number_of_this_disk: 0,
            number_of_the_disk_with_central_directory: 0,
            total_number_of_entries_on_this_disk: 0,
            total_number_of_entries_in_the_central_directory: 0,
            central_directory_size: 0,
            offset_of_start_of_central_directory: 0,
            z64ecdl_number_of_the_disk_with_the_start_of_the_zip64_end_of_central_directory: 0,
            z64ecdl_relative_offset_of_the_zip64_end_of_central_directory_record: 0,
            z64ecdl_total_number_of_disks: 0,
            archive_comment: None,
        }
    }

    /// The length of the archive comment, cut to 16 bits.
    pub fn zip_file_comment_length(&self) -> (n: u16)
        ensures
            n == (match self.archive_comment {
                Some(c) => c@.len() as u16,
                None => 0u16,
            }),
    {
        match &self.archive_comment {
            Some(comment) => comment.len() as u16,
            None => 0,
        }
    }

    /// Sets the archive comment to the UTF-8 bytes of `comment`, truncated to 0xFFFF bytes.
    pub fn set_archive_comment(&mut self, comment: &str)
        ensures
            final(self).archive_comment matches Some(c) && c@ == comment.spec_bytes().take(
                if comment.spec_bytes().len() < 0xFFFF {
                    comment.spec_bytes().len() as int
                } else {
                    0xFFFF
                },
            ),
            final(self).number_of_this_disk == old(self).number_of_this_disk,
            final(self).number_of_the_disk_with_central_directory
                == old(self).number_of_the_disk_with_central_directory,
            final(self).total_number_of_entries_on_this_disk
                == old(self).total_number_of_entries_on_this_disk,
            final(self).total_number_of_entries_in_the_central_directory
                == old(self).total_number_of_entries_in_the_central_directory,
            final(self).central_directory_size == old(self).central_directory_size,
            final(self).offset_of_start_of_central_directory
                == old(self).offset_of_start_of_central_directory,
            final(self).z64ecdl_number_of_the_disk_with_the_start_of_the_zip64_end_of_central_directory
                == old(self).z64ecdl_number_of_the_disk_with_the_start_of_the_zip64_end_of_central_directory,
            final(self).z64ecdl_relative_offset_of_the_zip64_end_of_central_directory_record
                == old(self).z64ecdl_relative_offset_of_the_zip64_end_of_central_directory_record,
            final(self).z64ecdl_total_number_of_disks == old(self).z64ecdl_total_number_of_disks,
    {
        let bytes = comment.as_bytes();
        let len = if bytes.len() < 0xFFFF {
            bytes.len()
        } else {
            0xFFFF
        };
        let kept = vstd::slice::slice_to_vec(vstd::slice::slice_subrange(bytes, 0, len));
        assert(kept@ =~= comment.spec_bytes().take(len as int));
        self.archive_comment = Some(kept);
    }

    /// Whether some field of the classic record cannot hold its value, so that the archive
    /// needs the ZIP64 records.
    pub fn needs_zip64_format_extensions(&self) -> (b: bool)
        ensures
            b == spec_needs_zip64(*self),
    {
        self.number_of_this_disk >= 0xFFFF || self.number_of_the_disk_with_central_directory
            >= 0xFFFF || self.total_number_of_entries_on_this_disk >= 0xFFFF
            || self.total_number_of_entries_in_the_central_directory >= 0xFFFF
            || self.central_directory_size >= 0xFFFF_FFFF
            || self.offset_of_start_of_central_directory >= 0xFFFF_FFFF
    }

    /// Appends the ZIP64 end of central directory record.
    pub fn create_zip64_end_of_central_directory_record(
        &self,
        end_of_central_directory: &mut ArchiveDescriptor,
    )
        ensures
            final(end_of_central_directory)@ == old(end_of_central_directory)@
                + spec_zip64_end_record(*self),
    {
        let ghost start = end_of_central_directory@;
        end_of_central_directory.write_u32(ZIP64_CENTRAL_DIRECTORY_END_SIGNATURE);
        end_of_central_directory.write_u64(44);
        end_of_central_directory.write_u16(46);
        end_of_central_directory.write_u16(46);
        end_of_central_directory.write_u32(self.number_of_this_disk);
        end_of_central_directory.write_u32(self.number_of_the_disk_with_central_directory);
        end_of_central_directory.write_u64(self.total_number_of_entries_on_this_disk);
        end_of_central_directory.write_u64(self.total_number_of_entries_in_the_central_directory);
        end_of_central_directory.write_u64(self.central_directory_size);
        end_of_central_directory.write_u64(self.offset_of_start_of_central_directory);
        assert(end_of_central_directory@ =~= start + spec_zip64_end_record(*self));
    }

    /// Records where the ZIP64 end record lies (right after the central directory) and appends
    /// the ZIP64 end of central directory locator.
    pub fn create_end_of_central_directory_locator(
        &mut self,
        end_of_central_directory: &mut ArchiveDescriptor,
    )
        requires
            old(self).offset_of_start_of_central_directory + old(self).central_directory_size
                <= u64::MAX,
        ensures
            final(self).z64ecdl_relative_offset_of_the_zip64_end_of_central_directory_record
                == old(self).offset_of_start_of_central_directory + old(
                self,
            ).central_directory_size,
            final(self).number_of_this_disk == old(self).number_of_this_disk,
            final(self).number_of_the_disk_with_central_directory
                == old(self).number_of_the_disk_with_central_directory,
            final(self).total_number_of_entries_on_this_disk
                == old(self).total_number_of_entries_on_this_disk,
            final(self).total_number_of_entries_in_the_central_directory
                == old(self).total_number_of_entries_in_the_central_directory,
            final(self).central_directory_size == old(self).central_directory_size,
            final(self).offset_of_start_of_central_directory
                == old(self).offset_of_start_of_central_directory,
            final(self).z64ecdl_number_of_the_disk_with_the_start_of_the_zip64_end_of_central_directory
                == old(self).z64ecdl_number_of_the_disk_with_the_start_of_the_zip64_end_of_central_directory,
            final(self).z64ecdl_total_number_of_disks == old(self).z64ecdl_total_number_of_disks,
            final(self).archive_comment == old(self).archive_comment,
            final(end_of_central_directory)@ == old(end_of_central_directory)@ + spec_zip64_locator(
                *final(self),
            ),
    {
        let ghost start = end_of_central_directory@;
        self.z64ecdl_relative_offset_of_the_zip64_end_of_central_directory_record =
        self.offset_of_start_of_central_directory + self.central_directory_size;
        end_of_central_directory.write_u32(ZIP64_END_OF_CENTRAL_DIR_LOCATOR_SIGNATURE);
        end_of_central_directory.write_u32(
            self.z64ecdl_number_of_the_disk_with_the_start_of_the_zip64_end_of_central_directory,
        );
        end_of_central_directory.write_u64(
            self.z64ecdl_relative_offset_of_the_zip64_end_of_central_directory_record,
        );
        end_of_central_directory.write_u32(self.z64ecdl_total_number_of_disks);
        assert(end_of_central_directory@ =~= start + spec_zip64_locator(*self));
    }

    /// Appends the classic end of central directory record, each count or size capped at the
    /// largest value that its field holds, then the archive comment.
    pub fn create_end_of_central_directory(&self, end_of_central_directory: &mut ArchiveDescriptor)
        ensures
            final(end_of_central_directory)@ == old(end_of_central_directory)@ + spec_end_record(
                *self,
            ),
    {
        let ghost start = end_of_central_directory@;
        end_of_central_directory.write_u32(CENTRAL_DIRECTORY_END_SIGNATURE);
        write_capped_u16(end_of_central_directory, self.number_of_this_disk as u64);
        write_capped_u16(
            end_of_central_directory,
            self.number_of_the_disk_with_central_directory as u64,
        );
        write_capped_u16(end_of_central_directory, self.total_number_of_entries_on_this_disk);
        write_capped_u16(
            end_of_central_directory,
            self.total_number_of_entries_in_the_central_directory,
        );
        write_capped_u32(end_of_central_directory, self.central_directory_size);
        write_capped_u32(end_of_central_directory, self.offset_of_start_of_central_directory);
        let ghost before_comment = end_of_central_directory@;
        match &self.archive_comment {
            Some(comment) => {
                end_of_central_directory.write_u16(comment.len() as u16);
                end_of_central_directory.write_bytes(comment.as_slice());
            },
            None => {
                end_of_central_directory.write_u16(0);
            },
        }
        assert(end_of_central_directory@ =~= before_comment + spec_comment_field(
            self.archive_comment,
        ));
        assert(end_of_central_directory@ =~= start + spec_end_record(*self));
    }
}

} // verus!

verus! {

/// The number of one bits of `x`.
pub open spec fn popcount(x: nat) -> nat
    decreases x,
{
    if x == 0 {
        0
    } else {
        x % 2 + popcount(x / 2)
    }
}

proof fn lemma_popcount_u8_bound(x: nat)
    requires
        x < 256,
    ensures
        popcount(x) <= 8,
{
    reveal_with_fuel(popcount, 9);
}

/// The number of one bits of `x`.
fn count_ones_u8(x: u8) -> (n: u32)
    ensures
        n == popcount(x as nat),
        n <= 8,
{
    proof {
        lemma_popcount_u8_bound(x as nat);
    }
    let mut v: u8 = x;
    let mut n: u32 = 0;
    while v != 0
        invariant
            n + popcount(v as nat) == popcount(x as nat),
            popcount(x as nat) <= 8,
        decreases v,
    {
        n = n + (v % 2) as u32;
        v = v / 2;
    }
    n
}

/// The bytes of an optional 32-bit time: four when present, none otherwise.
pub open spec fn spec_opt_time(t: Option<i32>) -> Seq<u8> {
    match t {
        Some(v) => le_i32(v),
        None => Seq::empty(),
    }
}

/// The Info-ZIP extended timestamp extra field (ID 0x5455): Unix modification, access and
/// creation times, each present when its flag bit is set.
#[derive(Debug)]
pub struct ExtraFieldExtendedTimestamp {
    pub flags: u8,
    pub modify_time: Option<i32>,
    pub access_time: Option<i32>,
    pub create_time: Option<i32>,
}

/// The flags that record which of the three times are present.
pub open spec fn spec_timestamp_flags(
    modify_time: Option<i32>,
    access_time: Option<i32>,
    create_time: Option<i32>,
) -> u8 {
    ((if modify_time is Some { 1u8 } else { 0u8 }) | (if access_time is Some { 2u8 } else { 0u8 })
        | (if create_time is Some { 4u8 } else { 0u8 }))
}

/// The data size of the field in a local header: the flags byte and four bytes per flag set.
pub open spec fn spec_ts_local_data_size(t: ExtraFieldExtendedTimestamp) -> u16 {
    (1 + 4 * popcount(t.flags as nat)) as u16
}

/// The data size of the field in a central header: the flags byte, and four bytes when the
/// modification time flag is set.
pub open spec fn spec_ts_central_data_size(t: ExtraFieldExtendedTimestamp) -> u16 {
    (1 + 4 * popcount((t.flags & 1) as nat)) as u16
}

/// The header, the flags and the modification time of the field, declaring `size` data bytes;
/// nothing when no flag is set.
pub open spec fn spec_ts_common_bytes(t: ExtraFieldExtendedTimestamp, size: u16) -> Seq<u8> {
    if t.flags == 0 {
        Seq::empty()
    } else {
        le_u16(X5455_EXTENDEDTIMESTAMP) + le_u16(size) + seq![t.flags] + spec_opt_time(t.modify_time)
    }
}

/// The field as a local header holds it; nothing when no flag is set.
pub open spec fn spec_ts_local_bytes(t: ExtraFieldExtendedTimestamp) -> Seq<u8> {
    if t.flags == 0 {
        Seq::empty()
    } else {
        spec_ts_common_bytes(t, spec_ts_local_data_size(t)) + spec_opt_time(t.access_time)
            + spec_opt_time(t.create_time)
    }
}

/// The field as a central header holds it; nothing when no flag is set.
pub open spec fn spec_ts_central_bytes(t: ExtraFieldExtendedTimestamp) -> Seq<u8> {
    spec_ts_common_bytes(t, spec_ts_central_data_size(t))
}

proof fn lemma_timestamp_flags(m: bool, a: bool, c: bool, f1: u8, f2: u8, f3: u8)
    requires
        f1 == if m { 0u8 | 1u8 } else { 0u8 & !1u8 },
        f2 == if a { f1 | 2u8 } else { f1 & !2u8 },
        f3 == if c { f2 | 4u8 } else { f2 & !4u8 },
    ensures
        f3 == ((if m { 1u8 } else { 0u8 }) | (if a { 2u8 } else { 0u8 }) | (if c { 4u8 } else { 0u8 })),
{
    assert(f3 == ((if m { 1u8 } else { 0u8 }) | (if a { 2u8 } else { 0u8 }) | (if c { 4u8 } else { 0u8 }))) by (bit_vector)
        requires
            f1 == if m { 0u8 | 1u8 } else { 0u8 & !1u8 },
            f2 == if a { f1 | 2u8 } else { f1 & !2u8 },
            f3 == if c { f2 | 4u8 } else { f2 & !4u8 },
    ;
}

/// The number of bytes that parsing a timestamp field of `size` data bytes consumes.
pub open spec fn spec_ts_parsed_len(size: u16) -> int {
    if size == 0 {
        0
    } else if size <= 4 {
        1
    } else if size <= 8 {
        5
    } else if size <= 12 {
        9
    } else {
        13
    }
}

/// The timestamp field parsed from `b`, whose declared data size is `size`.
pub open spec fn spec_ts_parse(b: Seq<u8>, size: u16) -> ExtraFieldExtendedTimestamp {
    let n = spec_ts_parsed_len(size);
    ExtraFieldExtendedTimestamp {
        flags: if n >= 1 { b[0] } else { 0 },
        modify_time: if n >= 5 { Some(from_le_i32(b.subrange(1, 5))) } else { None },
        access_time: if n >= 9 { Some(from_le_i32(b.subrange(5, 9))) } else { None },
        create_time: if n >= 13 { Some(from_le_i32(b.subrange(9, 13))) } else { None },
    }
}

/// The timestamp field that records the given times, its flags set exactly for those present.
pub open spec fn spec_timestamp_field(
    modify_time: Option<i32>,
    access_time: Option<i32>,
    create_time: Option<i32>,
) -> ExtraFieldExtendedTimestamp {
    ExtraFieldExtendedTimestamp {
        flags: spec_timestamp_flags(modify_time, access_time, create_time),
        modify_time,
        access_time,
        create_time,
    }
}

proof fn lemma_timestamp_flag_values(m: bool, a: bool, c: bool)
    ensures
        ({
            let f = ((if m { 1u8 } else { 0u8 }) | (if a { 2u8 } else { 0u8 }) | (if c { 4u8 } else { 0u8 }));
            &&& f as nat == (if m { 1nat } else { 0nat }) + (if a { 2nat } else { 0nat }) + (if c { 4nat } else { 0nat })
            &&& (f & 1) as nat == (if m { 1nat } else { 0nat })
        }),
{
    let x = if m { 1u8 } else { 0u8 };
    let y = if a { 2u8 } else { 0u8 };
    let z = if c { 4u8 } else { 0u8 };
    assert((x | y | z) as nat == x as nat + y as nat + z as nat && ((x | y | z) & 1) == x) by (bit_vector)
        requires
            x == 0 || x == 1,
            y == 0 || y == 2,
            z == 0 || z == 4,
    ;
}

/// A timestamp field that records at least one time takes, in a local header and in a central
/// header, exactly four bytes more than the data size it declares there; with no time it takes
/// no byte.
pub proof fn lemma_timestamp_field_sizes(
    modify_time: Option<i32>,
    access_time: Option<i32>,
    create_time: Option<i32>,
)
    ensures
        ({
            let t = spec_timestamp_field(modify_time, access_time, create_time);
            if modify_time is Some || access_time is Some || create_time is Some {
                &&& spec_ts_local_bytes(t).len() == 4 + spec_ts_local_data_size(t)
                &&& spec_ts_central_bytes(t).len() == 4 + spec_ts_central_data_size(t)
            } else {
                &&& spec_ts_local_bytes(t).len() == 0
                &&& spec_ts_central_bytes(t).len() == 0
            }
        }),
{
    let t = spec_timestamp_field(modify_time, access_time, create_time);
    lemma_timestamp_flag_values(modify_time is Some, access_time is Some, create_time is Some);
    reveal_with_fuel(popcount, 4);
}

/// Parsing the data of the central form of a timestamp field gives back its flags and its
/// modification time; the access and creation times are not in that form.
pub proof fn lemma_timestamp_central_roundtrip(
    modify_time: Option<i32>,
    access_time: Option<i32>,
    create_time: Option<i32>,
)
    requires
        modify_time is Some || access_time is Some || create_time is Some,
    ensures
        ({
            let t = spec_timestamp_field(modify_time, access_time, create_time);
            spec_ts_parse(spec_ts_central_bytes(t).skip(4), spec_ts_central_data_size(t))
                == ExtraFieldExtendedTimestamp {
                flags: t.flags,
                modify_time,
                access_time: None,
                create_time: None,
            }
        }),
{
    let t = spec_timestamp_field(modify_time, access_time, create_time);
    lemma_timestamp_flag_values(modify_time is Some, access_time is Some, create_time is Some);
    reveal_with_fuel(popcount, 4);
    let d = spec_ts_central_bytes(t).skip(4);
    if let Some(m) = modify_time {
        crate::encoding::lemma_le_i32_roundtrip(m);
        assert(d.subrange(1, 5) =~= le_i32(m));
    }
}

/// Parsing the data of the local form of a timestamp field gives the field back when it records
/// a modification time, and an access time wherever it records a creation time.
pub proof fn lemma_timestamp_local_roundtrip(
    modify_time: Option<i32>,
    access_time: Option<i32>,
    create_time: Option<i32>,
)
    requires
        modify_time is Some,
        create_time is Some ==> access_time is Some,
    ensures
        ({
            let t = spec_timestamp_field(modify_time, access_time, create_time);
            spec_ts_parse(spec_ts_local_bytes(t).skip(4), spec_ts_local_data_size(t)) == t
        }),
{
    let t = spec_timestamp_field(modify_time, access_time, create_time);
    lemma_timestamp_flag_values(modify_time is Some, access_time is Some, create_time is Some);
    reveal_with_fuel(popcount, 4);
    let d = spec_ts_local_bytes(t).skip(4);
    let m = modify_time->0;
    crate::encoding::lemma_le_i32_roundtrip(m);
    assert(d.subrange(1, 5) =~= le_i32(m));
    if let Some(a) = access_time {
        crate::encoding::lemma_le_i32_roundtrip(a);
        assert(d.subrange(5, 9) =~= le_i32(a));
    }
    if let Some(c) = create_time {
        crate::encoding::lemma_le_i32_roundtrip(c);
        assert(d.subrange(9, 13) =~= le_i32(c));
    }
}

impl ExtraFieldExtendedTimestamp {
    pub const HEADER_ID: u16 = 0x5455;

    /// The bit set in the flags when the last modification time is present.
    pub const MODIFY_TIME_BIT: u8 = 1;

    /// The bit set in the flags when the last access time is present.
    pub const ACCESS_TIME_BIT: u8 = 2;

    /// The bit set in the flags when the creation time is present.
    pub const CREATE_TIME_BIT: u8 = 4;

    /// No time and no flag.
    pub fn default() -> (r: Self)
        ensures
            r.flags == 0,
            r.modify_time is None,
            r.access_time is None,
            r.create_time is None,
    {
        ExtraFieldExtendedTimestamp {
            flags: 0,
            modify_time: None,
            access_time: None,
            create_time: None,
        }
    }

    /// The field with the given times, each flag set exactly when its time is present.
    pub fn new(modify_time: Option<i32>, access_time: Option<i32>, create_time: Option<i32>) -> (r:
        Self)
        ensures
            r.modify_time == modify_time,
            r.access_time == access_time,
            r.create_time == create_time,
            r.flags == spec_timestamp_flags(modify_time, access_time, create_time),
    {
        let mut default = Self::default();
        default.set_modify_time(modify_time);
        let ghost f1 = default.flags;
        default.set_access_time(access_time);
        let ghost f2 = default.flags;
        default.set_create_time(create_time);
        proof {
            lemma_timestamp_flags(
                modify_time is Some,
                access_time is Some,
                create_time is Some,
                f1,
                f2,
                default.flags,
            );
        }
        default
    }

    fn set_modify_time(&mut self, modify_time: Option<i32>)
        ensures
            final(self).modify_time == modify_time,
            final(self).access_time == old(self).access_time,
            final(self).create_time == old(self).create_time,
            final(self).flags == if modify_time is Some {
                old(self).flags | 1
            } else {
                old(self).flags & !1u8
            },
    {
        self.modify_time = modify_time;
        if modify_time.is_some() {
            self.flags = self.flags | 1;
        } else {
            self.flags = self.flags & !1u8;
        }
    }

    fn set_access_time(&mut self, access_time: Option<i32>)
        ensures
            final(self).access_time == access_time,
            final(self).modify_time == old(self).modify_time,
            final(self).create_time == old(self).create_time,
            final(self).flags == if access_time is Some {
                old(self).flags | 2
            } else {
                old(self).flags & !2u8
            },
    {
        self.access_time = access_time;
        if access_time.is_some() {
            self.flags = self.flags | 2;
        } else {
            self.flags = self.flags & !2u8;
        }
    }

    fn set_create_time(&mut self, create_time: Option<i32>)
        ensures
            final(self).create_time == create_time,
            final(self).modify_time == old(self).modify_time,
            final(self).access_time == old(self).access_time,
            final(self).flags == if create_time is Some {
                old(self).flags | 4
            } else {
                old(self).flags & !4u8
            },
    {
        self.create_time = create_time;
        if create_time.is_some() {
            self.flags = self.flags | 4;
        } else {
            self.flags = self.flags & !4u8;
        }
    }

    /// The flags.
    pub fn flags(&self) -> (f: u8)
        ensures
            f == self.flags,
    {
        self.flags
    }

    /// The data size of the field in a local header.
    pub fn file_header_extra_field_data_size(&self) -> (n: u16)
        ensures
            n == spec_ts_local_data_size(*self),
            n <= 33,
    {
        let mut size: u16 = 1;
        size = size + (count_ones_u8(self.flags) * 4) as u16;
        size
    }

    /// The data size of the field in a central header.
    pub fn central_header_extra_field_data_size(&self) -> (n: u16)
        ensures
            n == spec_ts_central_data_size(*self),
            n <= 33,
    {
        let mut size: u16 = 1;
        size = size + (count_ones_u8(self.flags & 1) * 4) as u16;
        size
    }

    /// Parses a timestamp field of `extra_field_data_size` data bytes at the reader's position.
    pub fn parse_extra_field(
        indexer: &mut ArchiveDescriptorReader,
        extra_field_as_bytes: &[u8],
        extra_field_data_size: u16,
    ) -> (r: Self)
        requires
            old(indexer).spec_index() + spec_ts_parsed_len(extra_field_data_size)
                <= extra_field_as_bytes@.len(),
        ensures
            r == spec_ts_parse(
                extra_field_as_bytes@.subrange(
                    old(indexer).spec_index(),
                    old(indexer).spec_index() + spec_ts_parsed_len(extra_field_data_size),
                ),
                extra_field_data_size,
            ),
            final(indexer).spec_index() == old(indexer).spec_index() + spec_ts_parsed_len(
                extra_field_data_size,
            ),
    {
        let ghost start = indexer.spec_index();
        let ghost b = extra_field_as_bytes@.subrange(
            start,
            start + spec_ts_parsed_len(extra_field_data_size),
        );
        let mut flags: u8 = 0;
        let mut modify_time: Option<i32> = None;
        let mut access_time: Option<i32> = None;
        let mut create_time: Option<i32> = None;
        if extra_field_data_size == 0 {
        } else if extra_field_data_size <= 4 {
            flags = indexer.read_u8(extra_field_as_bytes);
        } else if extra_field_data_size <= 8 {
            flags = indexer.read_u8(extra_field_as_bytes);
            modify_time = Some(indexer.read_i32(extra_field_as_bytes));
            assert(b.subrange(1, 5) =~= extra_field_as_bytes@.subrange(start + 1, start + 5));
        } else if extra_field_data_size <= 12 {
            flags = indexer.read_u8(extra_field_as_bytes);
            modify_time = Some(indexer.read_i32(extra_field_as_bytes));
            access_time = Some(indexer.read_i32(extra_field_as_bytes));
            assert(b.subrange(1, 5) =~= extra_field_as_bytes@.subrange(start + 1, start + 5));
            assert(b.subrange(5, 9) =~= extra_field_as_bytes@.subrange(start + 5, start + 9));
        } else {
            flags = indexer.read_u8(extra_field_as_bytes);
            modify_time = Some(indexer.read_i32(extra_field_as_bytes));
            access_time = Some(indexer.read_i32(extra_field_as_bytes));
            create_time = Some(indexer.read_i32(extra_field_as_bytes));
            assert(b.subrange(1, 5) =~= extra_field_as_bytes@.subrange(start + 1, start + 5));
            assert(b.subrange(5, 9) =~= extra_field_as_bytes@.subrange(start + 5, start + 9));
            assert(b.subrange(9, 13) =~= extra_field_as_bytes@.subrange(start + 9, start + 13));
        }
        Self { create_time, access_time, modify_time, flags }
    }

    fn central_header_extra_write_data_common(
        &self,
        archive_descriptor: &mut ArchiveDescriptor,
        extra_field_data_size: u16,
    )
        ensures
            final(archive_descriptor)@ == old(archive_descriptor)@ + spec_ts_common_bytes(
                *self,
                extra_field_data_size,
            ),
    {
        if self.flags == 0 {
            assert(old(archive_descriptor)@ =~= old(archive_descriptor)@ + Seq::<u8>::empty());
            return ;
        }
        let ghost start = archive_descriptor@;
        archive_descriptor.write_u16(X5455_EXTENDEDTIMESTAMP);
        archive_descriptor.write_u16(extra_field_data_size);
        archive_descriptor.write_u8(self.flags);
        if let Some(modify_time) = self.modify_time {
            archive_descriptor.write_i32(modify_time);
        }
        assert(archive_descriptor@ =~= start + spec_ts_common_bytes(*self, extra_field_data_size));
    }

    /// The last modification time.
    pub fn modify_time(&self) -> (t: Option<i32>)
        ensures
            t == self.modify_time,
    {
        self.modify_time
    }
}

} // verus!

verus! {

/// The ZIP64 extended information extra field (ID 0x0001): the 64-bit sizes, offset and disk
/// number of an entry whose classic fields cannot hold them.
#[derive(Debug)]
pub struct ExtraFieldZIP64ExtendedInformation {
    pub parsed_sized: u16,
}

/// The data size that the ZIP64 field has in the central header of `e`: the fields up to the
/// last one that the classic record cannot hold.
pub open spec fn spec_zip64_central_size(e: ArchiveFileEntry) -> u16 {
    if e.file_disk_number >= 0xFFFF {
        28
    } else if e.offset >= 0xFFFF_FFFF {
        24
    } else if e.compressed_size >= 0xFFFF_FFFF {
        16
    } else if e.uncompressed_size >= 0xFFFF_FFFF {
        8
    } else {
        0
    }
}

/// The ZIP64 field as the central header of `e` holds it; nothing when no field overflows.
pub open spec fn spec_zip64_central_bytes(e: ArchiveFileEntry) -> Seq<u8> {
    let size = spec_zip64_central_size(e);
    if size == 0 {
        Seq::empty()
    } else {
        le_u16(1) + le_u16(size) + le_u64(e.uncompressed_size) + (if size >= 16 {
            le_u64(e.compressed_size)
        } else {
            Seq::empty()
        }) + (if size >= 24 {
            le_u64(e.offset)
        } else {
            Seq::empty()
        }) + (if size >= 28 {
            le_u32(e.file_disk_number)
        } else {
            Seq::empty()
        })
    }
}

/// The ZIP64 field as the local header of `e` holds it: its ID, a data size of 16, then the
/// uncompressed and the compressed size (20 bytes, all but the ID and size zero while both sizes
/// are zero).
pub open spec fn spec_zip64_local_bytes(e: ArchiveFileEntry) -> Seq<u8> {
    le_u16(1) + le_u16(16) + le_u64(e.uncompressed_size) + le_u64(e.compressed_size)
}

/// The number of bytes that parsing a ZIP64 field of `size` data bytes consumes.
pub open spec fn spec_zip64_parsed_len(size: u16) -> int {
    if size <= 7 {
        0
    } else if size <= 15 {
        8
    } else if size <= 23 {
        16
    } else if size <= 31 {
        24
    } else {
        28
    }
}

/// `e` with the values of a ZIP64 field of `size` data bytes, read from `b`, put in place.
pub open spec fn spec_zip64_apply(e: ArchiveFileEntry, b: Seq<u8>, size: u16) -> ArchiveFileEntry {
    let n = spec_zip64_parsed_len(size);
    ArchiveFileEntry {
        uncompressed_size: if n >= 8 { from_le_u64(b.subrange(0, 8)) } else { e.uncompressed_size },
        compressed_size: if n >= 16 { from_le_u64(b.subrange(8, 16)) } else { e.compressed_size },
        offset: if n >= 24 { from_le_u64(b.subrange(16, 24)) } else { e.offset },
        file_disk_number: if n >= 28 { from_le_u32(b.subrange(24, 28)) } else { e.file_disk_number },
        ..e
    }
}

impl ExtraFieldZIP64ExtendedInformation {
    pub const HEADER_ID: u16 = 0x0001;

    const ZIP64_EXTRA_FIELD_SIZE: u16 = 28;

    /// The data size of the field in a local header: the two 64-bit sizes.
    const ZIP64_LOCAL_DATA_SIZE: u16 = 16;

    /// The field, with no data size recorded.
    pub fn default() -> (r: Self)
        ensures
            r.parsed_sized == 0,
    {
        ExtraFieldZIP64ExtendedInformation { parsed_sized: 0 }
    }

    /// The field as parsed, recording its declared data size.
    pub fn new(parsed_sized: u16) -> (r: Self)
        ensures
            r.parsed_sized == parsed_sized,
    {
        Self { parsed_sized }
    }

    /// Parses a ZIP64 field of `extra_field_data_size` data bytes at the reader's position and
    /// puts the 64-bit values it holds into `archive_file_entry`.
    pub fn parse_extra_field(
        indexer: &mut ArchiveDescriptorReader,
        extra_field_as_bytes: &[u8],
        extra_field_data_size: u16,
        archive_file_entry: &mut ArchiveFileEntry,
    ) -> (r: Self)
        requires
            old(indexer).spec_index() + spec_zip64_parsed_len(extra_field_data_size)
                <= extra_field_as_bytes@.len(),
        ensures
            r.parsed_sized == extra_field_data_size,
            *final(archive_file_entry) == spec_zip64_apply(
                *old(archive_file_entry),
                extra_field_as_bytes@.subrange(
                    old(indexer).spec_index(),
                    old(indexer).spec_index() + spec_zip64_parsed_len(extra_field_data_size),
                ),
                extra_field_data_size,
            ),
            final(indexer).spec_index() == old(indexer).spec_index() + spec_zip64_parsed_len(
                extra_field_data_size,
            ),
    {
        let ghost start = indexer.spec_index();
        let ghost b = extra_field_as_bytes@.subrange(
            start,
            start + spec_zip64_parsed_len(extra_field_data_size),
        );
        if extra_field_data_size <= 7 {
        } else if extra_field_data_size <= 15 {
            archive_file_entry.uncompressed_size = indexer.read_u64(extra_field_as_bytes);
            assert(b.subrange(0, 8) =~= extra_field_as_bytes@.subrange(start, start + 8));
        } else if extra_field_data_size <= 23 {
            archive_file_entry.uncompressed_size = indexer.read_u64(extra_field_as_bytes);
            archive_file_entry.compressed_size = indexer.read_u64(extra_field_as_bytes);
            assert(b.subrange(0, 8) =~= extra_field_as_bytes@.subrange(start, start + 8));
            assert(b.subrange(8, 16) =~= extra_field_as_bytes@.subrange(start + 8, start + 16));
        } else if extra_field_data_size <= 31 {
            archive_file_entry.uncompressed_size = indexer.read_u64(extra_field_as_bytes);
            archive_file_entry.compressed_size = indexer.read_u64(extra_field_as_bytes);
            archive_file_entry.offset = indexer.read_u64(extra_field_as_bytes);
            assert(b.subrange(0, 8) =~= extra_field_as_bytes@.subrange(start, start + 8));
            assert(b.subrange(8, 16) =~= extra_field_as_bytes@.subrange(start + 8, start + 16));
            assert(b.subrange(16, 24) =~= extra_field_as_bytes@.subrange(start + 16, start + 24));
        } else {
            archive_file_entry.uncompressed_size = indexer.read_u64(extra_field_as_bytes);
            archive_file_entry.compressed_size = indexer.read_u64(extra_field_as_bytes);
            archive_file_entry.offset = indexer.read_u64(extra_field_as_bytes);
            archive_file_entry.file_disk_number = indexer.read_u32(extra_field_as_bytes);
            assert(b.subrange(0, 8) =~= extra_field_as_bytes@.subrange(start, start + 8));
            assert(b.subrange(8, 16) =~= extra_field_as_bytes@.subrange(start + 8, start + 16));
            assert(b.subrange(16, 24) =~= extra_field_as_bytes@.subrange(start + 16, start + 24));
            assert(b.subrange(24, 28) =~= extra_field_as_bytes@.subrange(start + 24, start + 28));
        }
        Self::new(extra_field_data_size)
    }
}

/// An extra field of a kind that is kept as raw data.
#[derive(Debug)]
pub struct ExtraFieldUnknown {
    pub header_id: u16,
    pub data: Vec<u8>,
}

/// The unknown field as a header holds it: its ID, its data size cut to 16 bits, its data.
pub open spec fn spec_unknown_bytes(u: ExtraFieldUnknown) -> Seq<u8> {
    le_u16(u.header_id) + le_u16(u.data@.len() as u16) + u.data@
}

impl ExtraFieldUnknown {
    /// Keeps the `extra_field_data_size` data bytes at the reader's position.
    pub fn parse_extra_field(
        indexer: &mut ArchiveDescriptorReader,
        extra_field_as_bytes: &[u8],
        extra_field_data_size: u16,
        header_id: u16,
    ) -> (r: Self)
        requires
            old(indexer).spec_index() + extra_field_data_size <= extra_field_as_bytes@.len(),
        ensures
            r.header_id == header_id,
            r.data@ == extra_field_as_bytes@.subrange(
                old(indexer).spec_index(),
                old(indexer).spec_index() + extra_field_data_size,
            ),
            final(indexer).spec_index() == old(indexer).spec_index() + extra_field_data_size,
    {
        let data = indexer.read_bytes(extra_field_as_bytes, extra_field_data_size as usize);
        Self { header_id, data }
    }
}

/// The behaviour that each kind of extra field has: its size and its bytes in local and
/// central headers.
pub trait ExtraField {
    fn local_header_extra_field_size(&self, archive_file_entry: &ArchiveFileEntry) -> u16;

    fn central_header_extra_field_size(&self, archive_file_entry: &ArchiveFileEntry) -> u16;

    fn local_header_write_data(
        &self,
        archive_descriptor: &mut ArchiveDescriptor,
        archive_file_entry: &ArchiveFileEntry,
    );

    fn central_header_extra_write_data(
        &self,
        archive_descriptor: &mut ArchiveDescriptor,
        archive_file_entry: &ArchiveFileEntry,
    );
}

impl ExtraField for ExtraFieldExtendedTimestamp {
    fn local_header_extra_field_size(&self, _archive_file_entry: &ArchiveFileEntry) -> (n: u16)
        ensures
            n == 4 + spec_ts_local_data_size(*self),
    {
        4 + self.file_header_extra_field_data_size()
    }

    fn central_header_extra_field_size(&self, _archive_file_entry: &ArchiveFileEntry) -> (n: u16)
        ensures
            n == 4 + spec_ts_central_data_size(*self),
    {
        4 + self.central_header_extra_field_data_size()
    }

    fn local_header_write_data(
        &self,
        archive_descriptor: &mut ArchiveDescriptor,
        _archive_file_entry: &ArchiveFileEntry,
    )
        ensures
            final(archive_descriptor)@ == old(archive_descriptor)@ + spec_ts_local_bytes(*self),
    {
        if self.flags == 0 {
            assert(old(archive_descriptor)@ =~= old(archive_descriptor)@ + Seq::<u8>::empty());
            return ;
        }
        let ghost start = archive_descriptor@;
        self.central_header_extra_write_data_common(
            archive_descriptor,
            self.file_header_extra_field_data_size(),
        );
        if let Some(access_time) = self.access_time {
            archive_descriptor.write_i32(access_time);
        }
        if let Some(create_time) = self.create_time {
            archive_descriptor.write_i32(create_time);
        }
        assert(archive_descriptor@ =~= start + spec_ts_local_bytes(*self));
    }

    fn central_header_extra_write_data(
        &self,
        archive_descriptor: &mut ArchiveDescriptor,
        _archive_file_entry: &ArchiveFileEntry,
    )
        ensures
            final(archive_descriptor)@ == old(archive_descriptor)@ + spec_ts_central_bytes(*self),
    {
        if self.flags == 0 {
            assert(old(archive_descriptor)@ =~= old(archive_descriptor)@ + Seq::<u8>::empty());
            return ;
        }
        self.central_header_extra_write_data_common(
            archive_descriptor,
            self.central_header_extra_field_data_size(),
        );
    }
}

impl ExtraField for ExtraFieldZIP64ExtendedInformation {
    fn local_header_extra_field_size(&self, _archive_file_entry: &ArchiveFileEntry) -> (n: u16)
        ensures
            n == 20,
    {
        20
    }

    fn central_header_extra_field_size(&self, archive_file_entry: &ArchiveFileEntry) -> (n: u16)
        ensures
            n == spec_zip64_central_size(*archive_file_entry),
    {
        if archive_file_entry.file_disk_number >= 0xFFFF {
            28
        } else if archive_file_entry.offset >= 0xFFFF_FFFF {
            24
        } else if archive_file_entry.compressed_size >= 0xFFFF_FFFF {
            16
        } else if archive_file_entry.uncompressed_size >= 0xFFFF_FFFF {
            8
        } else {
            0
        }
    }

    fn local_header_write_data(
        &self,
        archive_descriptor: &mut ArchiveDescriptor,
        archive_file_entry: &ArchiveFileEntry,
    )
        ensures
            final(archive_descriptor)@ == old(archive_descriptor)@ + spec_zip64_local_bytes(
                *archive_file_entry,
            ),
    {
        let ghost start = archive_descriptor@;
        archive_descriptor.write_u16(ExtraFieldZIP64ExtendedInformation::HEADER_ID);
        archive_descriptor.write_u16(ExtraFieldZIP64ExtendedInformation::ZIP64_LOCAL_DATA_SIZE);
        archive_descriptor.write_u64(archive_file_entry.uncompressed_size);
        archive_descriptor.write_u64(archive_file_entry.compressed_size);
        assert(archive_descriptor@ =~= start + spec_zip64_local_bytes(*archive_file_entry));
    }

    fn central_header_extra_write_data(
        &self,
        archive_descriptor: &mut ArchiveDescriptor,
        archive_file_entry: &ArchiveFileEntry,
    )
        ensures
            final(archive_descriptor)@ == old(archive_descriptor)@ + spec_zip64_central_bytes(
                *archive_file_entry,
            ),
    {
        let size = self.central_header_extra_field_size(archive_file_entry);
        if size == 0 {
            assert(old(archive_descriptor)@ =~= old(archive_descriptor)@ + Seq::<u8>::empty());
            return ;
        }
        let ghost start = archive_descriptor@;
        archive_descriptor.write_u16(ExtraFieldZIP64ExtendedInformation::HEADER_ID);
        let declared = if Self::ZIP64_EXTRA_FIELD_SIZE < size {
            Self::ZIP64_EXTRA_FIELD_SIZE
        } else {
            size
        };
        archive_descriptor.write_u16(declared);
        archive_descriptor.write_u64(archive_file_entry.uncompressed_size);
        let ghost after_uncompressed = archive_descriptor@;
        if size >= 16 {
            archive_descriptor.write_u64(archive_file_entry.compressed_size);
            if size >= 24 {
                archive_descriptor.write_u64(archive_file_entry.offset);
                if size >= 28 {
                    archive_descriptor.write_u32(archive_file_entry.file_disk_number);
                }
            }
        }
        assert(archive_descriptor@ =~= start + spec_zip64_central_bytes(*archive_file_entry));
    }
}

impl ExtraField for ExtraFieldUnknown {
    fn local_header_extra_field_size(&self, archive_file_entry: &ArchiveFileEntry) -> (n: u16)
        ensures
            n == self.data@.len() as u16,
    {
        self.central_header_extra_field_size(archive_file_entry)
    }

    fn central_header_extra_field_size(&self, _archive_file_entry: &ArchiveFileEntry) -> (n: u16)
        ensures
            n == self.data@.len() as u16,
    {
        self.data.len() as u16
    }

    fn local_header_write_data(
        &self,
        archive_descriptor: &mut ArchiveDescriptor,
        archive_file_entry: &ArchiveFileEntry,
    )
        ensures
            final(archive_descriptor)@ == old(archive_descriptor)@ + spec_unknown_bytes(*self),
    {
        self.central_header_extra_write_data(archive_descriptor, archive_file_entry)
    }

    fn central_header_extra_write_data(
        &self,
        archive_descriptor: &mut ArchiveDescriptor,
        archive_file_entry: &ArchiveFileEntry,
    )
        ensures
            final(archive_descriptor)@ == old(archive_descriptor)@ + spec_unknown_bytes(*self),
    {
        let ghost start = archive_descriptor@;
        archive_descriptor.write_u16(self.header_id);
        archive_descriptor.write_u16(self.central_header_extra_field_size(archive_file_entry));
        archive_descriptor.write_bytes(self.data.as_slice());
        assert(archive_descriptor@ =~= start + spec_unknown_bytes(*self));
    }
}

/// An extra field of one of the kinds that archives carry.
#[derive(Debug)]
pub enum ExtraFieldRecord {
    ExtendedTimestamp(ExtraFieldExtendedTimestamp),
    Zip64(ExtraFieldZIP64ExtendedInformation),
    Unknown(ExtraFieldUnknown),
}

/// The bytes of `f` in the central header of `e`.
pub open spec fn spec_record_central_bytes(f: ExtraFieldRecord, e: ArchiveFileEntry) -> Seq<u8> {
    match f {
        ExtraFieldRecord::ExtendedTimestamp(t) => spec_ts_central_bytes(t),
        ExtraFieldRecord::Zip64(_) => spec_zip64_central_bytes(e),
        ExtraFieldRecord::Unknown(u) => spec_unknown_bytes(u),
    }
}

/// The bytes of the fields `fs` in the central header of `e`, one after another.
pub open spec fn spec_records_central_bytes(fs: Seq<ExtraFieldRecord>, e: ArchiveFileEntry) -> Seq<
    u8,
>
    decreases fs.len(),
{
    if fs.len() == 0 {
        Seq::empty()
    } else {
        spec_records_central_bytes(fs.drop_last(), e) + spec_record_central_bytes(fs.last(), e)
    }
}

impl ExtraFieldRecord {
    /// Appends the field as the central header of `archive_file_entry` holds it.
    pub fn central_header_extra_write_data(
        &self,
        archive_descriptor: &mut ArchiveDescriptor,
        archive_file_entry: &ArchiveFileEntry,
    )
        ensures
            final(archive_descriptor)@ == old(archive_descriptor)@ + spec_record_central_bytes(
                *self,
                *archive_file_entry,
            ),
    {
        match self {
            ExtraFieldRecord::ExtendedTimestamp(t) => t.central_header_extra_write_data(
                archive_descriptor,
                archive_file_entry,
            ),
            ExtraFieldRecord::Zip64(z) => z.central_header_extra_write_data(
                archive_descriptor,
                archive_file_entry,
            ),
            ExtraFieldRecord::Unknown(u) => u.central_header_extra_write_data(
                archive_descriptor,
                archive_file_entry,
            ),
        }
    }
}

} // verus!

verus! {

/// Everything an archive records of one entry: most of it lies in the central directory, and
/// part of it is repeated in the entry's local header.
#[derive(Debug)]
pub struct ArchiveFileEntry {
    pub version_made_by: u16,
    pub minimum_version_needed_to_extract: u16,
    pub general_purpose_flags: u16,
    pub compression_method: u16,
    pub last_mod_file_time: u16,
    pub last_mod_file_date: u16,
    pub crc32: u32,
    pub compressed_size: u64,
    pub uncompressed_size: u64,
    pub file_name_len: u16,
    pub extra_field_length: u16,
    pub file_name_as_bytes: Vec<u8>,
    pub offset: u64,
    pub compressor: CompressionMethod,
    pub file_disk_number: u32,
    pub internal_file_attributes: u16,
    pub external_file_attributes: u32,
    pub file_comment: Option<Vec<u8>>,
    pub extra_fields: Vec<ExtraFieldRecord>,
}

/// Whether a size or offset of `e` does not fit 32 bits.
pub open spec fn spec_is_zip64(e: ArchiveFileEntry) -> bool {
    e.uncompressed_size >= 0xFFFF_FFFF || e.offset >= 0xFFFF_FFFF || e.compressed_size
        >= 0xFFFF_FFFF
}

/// The version needed to extract `e`: at least 4.5 when `e` needs the ZIP64 format.
pub open spec fn spec_version_needed_to_extract(e: ArchiveFileEntry) -> u16 {
    if spec_is_zip64(e) && e.minimum_version_needed_to_extract < VERSION_USES_ZIP64_FORMAT_EXTENSIONS {
        VERSION_USES_ZIP64_FORMAT_EXTENSIONS
    } else {
        e.minimum_version_needed_to_extract
    }
}

/// The length of the file comment of `e`, cut to 16 bits.
pub open spec fn spec_file_comment_length(e: ArchiveFileEntry) -> u16 {
    match e.file_comment {
        Some(c) => c@.len() as u16,
        None => 0,
    }
}

/// Bit 0 of the internal attributes: the entry is apparently a text file.
pub const TEXT_INDICATOR: u16 = 1;

/// The position of the first extended timestamp field among `fs`, if any.
pub open spec fn spec_first_timestamp(fs: Seq<ExtraFieldRecord>) -> Option<int> {
    if exists|i: int| 0 <= i < fs.len() && fs[i] is ExtendedTimestamp {
        Some(
            choose|i: int|
                0 <= i < fs.len() && fs[i] is ExtendedTimestamp && forall|j: int|
                    0 <= j < i ==> !(fs[j] is ExtendedTimestamp),
        )
    } else {
        None
    }
}

/// Whether some field among `fs` is a ZIP64 field.
pub open spec fn spec_has_zip64(fs: Seq<ExtraFieldRecord>) -> bool {
    exists|i: int| 0 <= i < fs.len() && fs[i] is Zip64
}

impl ArchiveFileEntry {
    /// An entry whose numbers are all zero, with an empty name, no comment and no extra field.
    pub fn default() -> (r: Self)
        ensures
            r.version_made_by == 0,
            r.minimum_version_needed_to_extract == 0,
            r.general_purpose_flags == 0,
            r.compression_method == 0,
            r.last_mod_file_time == 0,
            r.last_mod_file_date == 0,
            r.crc32 == 0,
            r.compressed_size == 0,
            r.uncompressed_size == 0,
            r.file_name_len == 0,
            r.extra_field_length == 0,
            r.file_name_as_bytes@ == Seq::<u8>::empty(),
            r.offset == 0,
            r.compressor == CompressionMethod::Store(),
            r.file_disk_number == 0,
            r.internal_file_attributes == 0,
            r.external_file_attributes == 0,
            r.file_comment is None,
            r.extra_fields@ == Seq::<ExtraFieldRecord>::empty(),
    {
        ArchiveFileEntry {
            version_made_by: 0,
            minimum_version_needed_to_extract: 0,
            general_purpose_flags: 0,
            compression_method: 0,
            last_mod_file_time: 0,
            last_mod_file_date: 0,
            crc32: 0,
            compressed_size: 0,
            uncompressed_size: 0,
            file_name_len: 0,
            extra_field_length: 0,
            file_name_as_bytes: Vec::new(),
            offset: 0,
            compressor: CompressionMethod::Store(),
            file_disk_number: 0,
            internal_file_attributes: 0,
            external_file_attributes: 0,
            file_comment: None,
            extra_fields: Vec::new(),
        }
    }

    /// The version needed to extract the entry, raised to 4.5 when it needs the ZIP64 format.
    pub fn version_needed_to_extract(&self) -> (v: u16)
        ensures
            v == spec_version_needed_to_extract(*self),
    {
        if self.is_zip64() {
            if self.minimum_version_needed_to_extract < VERSION_USES_ZIP64_FORMAT_EXTENSIONS {
                VERSION_USES_ZIP64_FORMAT_EXTENSIONS
            } else {
                self.minimum_version_needed_to_extract
            }
        } else {
            self.minimum_version_needed_to_extract
        }
    }

    /// Whether bit 3 of the flags (sizes in a data descriptor) is set.
    pub fn extended_local_header(&self) -> (b: bool)
        ensures
            b == (self.general_purpose_flags & 8 != 0),
    {
        self.general_purpose_flags & 8 != 0
    }

    /// Whether bit 0 of the flags (encryption) is set.
    pub fn is_encrypted(&self) -> (b: bool)
        ensures
            b == (self.general_purpose_flags & 1 != 0),
    {
        self.general_purpose_flags & 1 != 0
    }

    /// The version that made the entry, as (major, minor).
    pub fn version_made_by_pretty(&self) -> (r: (u8, u8))
        ensures
            r == ((self.version_made_by % 256) as u8 / 10, (self.version_made_by % 256) as u8 % 10),
    {
        ArchiveFileEntry::pretty_version(self.version_made_by)
    }

    /// The version needed to extract the entry, as (major, minor).
    pub fn minimum_version_needed_to_extract_pretty(&self) -> (r: (u8, u8))
        ensures
            r == ((self.minimum_version_needed_to_extract % 256) as u8 / 10, (
            self.minimum_version_needed_to_extract % 256) as u8 % 10),
    {
        ArchiveFileEntry::pretty_version(self.minimum_version_needed_to_extract)
    }

    /// The low byte of a version word as (major, minor): 46 is 4.6.
    pub fn pretty_version(zip_version: u16) -> (r: (u8, u8))
        ensures
            r == ((zip_version % 256) as u8 / 10, (zip_version % 256) as u8 % 10),
    {
        let version_part = (zip_version % 256) as u8;
        let major = version_part / 10;
        let minor = version_part % 10;
        (major, minor)
    }

    /// The length of the file comment, cut to 16 bits.
    pub fn file_comment_length(&self) -> (n: u16)
        ensures
            n == spec_file_comment_length(*self),
    {
        match &self.file_comment {
            Some(comment) => comment.len() as u16,
            None => 0,
        }
    }

    /// The host system that made the entry: the high byte of the version made by.
    pub fn system_origin_code(&self) -> (c: u8)
        ensures
            c == self.version_made_by / 256,
    {
        (self.version_made_by / 256) as u8
    }

    /// The file name, invalid UTF-8 replaced.
    pub fn get_file_name(&self) -> (s: String)
        ensures
            s@ == utf8_lossy_text(self.file_name_as_bytes@),
            valid_utf8(self.file_name_as_bytes@) ==> s@ == decode_utf8(self.file_name_as_bytes@),
    {
        lossy_utf8(self.file_name_as_bytes.as_slice())
    }

    /// Whether a size or the offset does not fit 32 bits.
    pub fn is_zip64(&self) -> (b: bool)
        ensures
            b == spec_is_zip64(*self),
    {
        self.uncompressed_size >= 0xFFFF_FFFF || self.offset >= 0xFFFF_FFFF
            || self.compressed_size >= 0xFFFF_FFFF
    }

    /// The compressed size as the 32-bit field holds it: capped at `u32::MAX`.
    pub fn zip64_compressed_size(&self) -> (n: u32)
        ensures
            n == sat_u32(self.compressed_size as int),
    {
        if self.compressed_size >= 0xFFFF_FFFF {
            0xFFFF_FFFF
        } else {
            self.compressed_size as u32
        }
    }

    /// The uncompressed size as the 32-bit field holds it: capped at `u32::MAX`.
    pub fn zip64_uncompressed_size(&self) -> (n: u32)
        ensures
            n == sat_u32(self.uncompressed_size as int),
    {
        if self.uncompressed_size >= 0xFFFF_FFFF {
            0xFFFF_FFFF
        } else {
            self.uncompressed_size as u32
        }
    }

    /// The offset as the 32-bit field holds it: capped at `u32::MAX`.
    pub fn zip64_offset(&self) -> (n: u32)
        ensures
            n == sat_u32(self.offset as int),
    {
        if self.offset >= 0xFFFF_FFFF {
            0xFFFF_FFFF
        } else {
            self.offset as u32
        }
    }

    /// Sets or clears the text indicator of the internal attributes.
    pub fn apparently_text_file(&mut self, is_text: bool)
        ensures
            final(self).internal_file_attributes == if is_text {
                old(self).internal_file_attributes | TEXT_INDICATOR
            } else {
                old(self).internal_file_attributes & !TEXT_INDICATOR
            },
            final(self).version_made_by == old(self).version_made_by,
            final(self).minimum_version_needed_to_extract == old(self).minimum_version_needed_to_extract,
            final(self).general_purpose_flags == old(self).general_purpose_flags,
            final(self).compression_method == old(self).compression_method,
            final(self).last_mod_file_time == old(self).last_mod_file_time,
            final(self).last_mod_file_date == old(self).last_mod_file_date,
            final(self).crc32 == old(self).crc32,
            final(self).compressed_size == old(self).compressed_size,
            final(self).uncompressed_size == old(self).uncompressed_size,
            final(self).file_name_len == old(self).file_name_len,
            final(self).extra_field_length == old(self).extra_field_length,
            final(self).file_name_as_bytes == old(self).file_name_as_bytes,
            final(self).offset == old(self).offset,
            final(self).compressor == old(self).compressor,
            final(self).file_disk_number == old(self).file_disk_number,
            final(self).external_file_attributes == old(self).external_file_attributes,
            final(self).file_comment == old(self).file_comment,
            final(self).extra_fields == old(self).extra_fields,
    {
        if is_text {
            self.internal_file_attributes = self.internal_file_attributes | TEXT_INDICATOR;
        } else {
            self.internal_file_attributes = self.internal_file_attributes & !TEXT_INDICATOR;
        }
    }

    /// Clears the text indicator of the internal attributes.
    pub fn is_dir(&mut self)
        ensures
            final(self).internal_file_attributes == old(self).internal_file_attributes & !TEXT_INDICATOR,
    {
        self.internal_file_attributes = self.internal_file_attributes & !TEXT_INDICATOR;
    }

    /// Whether the text indicator of the internal attributes is set.
    pub fn is_apparently_text_file(&self) -> (b: bool)
        ensures
            b == (self.internal_file_attributes & TEXT_INDICATOR != 0),
    {
        self.internal_file_attributes & TEXT_INDICATOR != 0
    }

    /// The first extended timestamp field of the entry, if any.
    pub fn get_extra_field_time_stamp(&self) -> (r: Option<&ExtraFieldExtendedTimestamp>)
        ensures
            match spec_first_timestamp(self.extra_fields@) {
                Some(i) => r matches Some(t) && self.extra_fields@[i] == ExtraFieldRecord::ExtendedTimestamp(*t),
                None => r is None,
            },
    {
        let mut i: usize = 0;
        while i < self.extra_fields.len()
            invariant
                i <= self.extra_fields@.len(),
                forall|j: int| 0 <= j < i ==> !(self.extra_fields@[j] is ExtendedTimestamp),
            decreases self.extra_fields@.len() - i,
        {
            match &self.extra_fields[i] {
                ExtraFieldRecord::ExtendedTimestamp(t) => {
                    proof {
                        let fs = self.extra_fields@;
                        assert(0 <= i < fs.len() && fs[i as int] is ExtendedTimestamp);
                        let k = spec_first_timestamp(fs).unwrap();
                        if k < i {
                        } else if k > i {
                        }
                    }
                    return Some(t);
                },
                _ => {},
            }
            i = i + 1;
        }
        None
    }

    /// Whether the entry has a ZIP64 field.
    pub fn has_zip64_extra_field(&self) -> (b: bool)
        ensures
            b == spec_has_zip64(self.extra_fields@),
    {
        let mut i: usize = 0;
        while i < self.extra_fields.len()
            invariant
                i <= self.extra_fields@.len(),
                forall|j: int| 0 <= j < i ==> !(self.extra_fields@[j] is Zip64),
            decreases self.extra_fields@.len() - i,
        {
            if let ExtraFieldRecord::Zip64(_) = &self.extra_fields[i] {
                return true;
            }
            i = i + 1;
        }
        false
    }

    /// Adds a ZIP64 field when the entry needs the ZIP64 format and has none.
    pub fn need_to_add_zip64_extra_field(&mut self)
        ensures
            final(self).extra_fields@ == if !spec_has_zip64(old(self).extra_fields@) && spec_is_zip64(
                *old(self),
            ) {
                old(self).extra_fields@.push(
                    ExtraFieldRecord::Zip64(ExtraFieldZIP64ExtendedInformation { parsed_sized: 0 }),
                )
            } else {
                old(self).extra_fields@
            },
            final(self).version_made_by == old(self).version_made_by,
            final(self).minimum_version_needed_to_extract == old(self).minimum_version_needed_to_extract,
            final(self).general_purpose_flags == old(self).general_purpose_flags,
            final(self).compression_method == old(self).compression_method,
            final(self).last_mod_file_time == old(self).last_mod_file_time,
            final(self).last_mod_file_date == old(self).last_mod_file_date,
            final(self).crc32 == old(self).crc32,
            final(self).compressed_size == old(self).compressed_size,
            final(self).uncompressed_size == old(self).uncompressed_size,
            final(self).file_name_len == old(self).file_name_len,
            final(self).extra_field_length == old(self).extra_field_length,
            final(self).file_name_as_bytes == old(self).file_name_as_bytes,
            final(self).offset == old(self).offset,
            final(self).compressor == old(self).compressor,
            final(self).file_disk_number == old(self).file_disk_number,
            final(self).internal_file_attributes == old(self).internal_file_attributes,
            final(self).external_file_attributes == old(self).external_file_attributes,
            final(self).file_comment == old(self).file_comment,
    {
        if !self.has_zip64_extra_field() && self.is_zip64() {
            let zip_extra_field = ExtraFieldZIP64ExtendedInformation::default();
            self.extra_fields.push(ExtraFieldRecord::Zip64(zip_extra_field));
        }
    }
}

} // verus!

verus! {

/// The 16-bit little-endian value at `at` in `s`.
pub open spec fn u16_at(s: Seq<u8>, at: int) -> u16 {
    from_le_u16(s.subrange(at, at + 2))
}

/// The 32-bit little-endian value at `at` in `s`.
pub open spec fn u32_at(s: Seq<u8>, at: int) -> u32 {
    from_le_u32(s.subrange(at, at + 4))
}

/// Whether `s` starts with a local file header whose name is valid UTF-8.
pub open spec fn spec_local_header_readable(s: Seq<u8>) -> bool {
    &&& 30 <= s.len()
    &&& 30 + u16_at(s, 26) <= s.len()
    &&& valid_utf8(s.subrange(30, 30 + u16_at(s, 26)))
}

/// Whether `e` holds the fields of the local file header at the start of `s`.
pub open spec fn spec_local_header_entry(s: Seq<u8>, e: ArchiveFileEntry) -> bool {
    &&& e.version_made_by == 0
    &&& e.minimum_version_needed_to_extract == u16_at(s, 4) & 0xFF
    &&& e.general_purpose_flags == u16_at(s, 6)
    &&& e.compression_method == u16_at(s, 8)
    &&& e.last_mod_file_time == u16_at(s, 10)
    &&& e.last_mod_file_date == u16_at(s, 12)
    &&& e.crc32 == u32_at(s, 14)
    &&& e.compressed_size == u32_at(s, 18)
    &&& e.uncompressed_size == u32_at(s, 22)
    &&& e.file_name_len == u16_at(s, 26)
    &&& e.extra_field_length == u16_at(s, 28)
    &&& e.file_name_as_bytes@ == s.subrange(30, 30 + u16_at(s, 26))
    &&& e.offset == 0
    &&& crate::compression::spec_method_of_code(u16_at(s, 8)) == Some(e.compressor)
    &&& e.file_disk_number == 0
    &&& e.internal_file_attributes == 0
    &&& e.external_file_attributes == 0
    &&& e.file_comment is None
    &&& e.extra_fields@.len() == 0
}

impl ArchiveDescriptor {
    /// Reads the local file header at the start of `stream`; an unknown compression method code
    /// is an error.
    pub fn read_file_descriptor(stream: &[u8]) -> (r: Result<ArchiveFileEntry, crate::error::ArchiveError>)
        requires
            spec_local_header_readable(stream@),
        ensures
            match crate::compression::spec_method_of_code(u16_at(stream@, 8)) {
                Some(_) => r matches Ok(e) && spec_local_header_entry(stream@, e),
                None => r matches Err(crate::error::ArchiveError::UnsuportedCompressionMethodCode(c))
                    && c == u16_at(stream@, 8),
            },
    {
        let mut indexer = ArchiveDescriptorReader::new();
        let ghost s = stream@;
        let _signature = indexer.read_u32(stream);
        let version_needed = indexer.read_u16(stream) & 0xFF;
        let general_purpose_flags = indexer.read_u16(stream);
        let compression_method = indexer.read_u16(stream);
        let time = indexer.read_u16(stream);
        let date = indexer.read_u16(stream);
        let crc = indexer.read_u32(stream);
        let compressed_size = indexer.read_u32(stream) as u64;
        let uncompressed_size = indexer.read_u32(stream) as u64;
        let file_name_len = indexer.read_u16(stream);
        let extra_field_length = indexer.read_u16(stream);
        let file_name = indexer.read_utf8_string(stream, file_name_len as usize);
        proof {
            vstd::utf8::decode_utf8_encode_utf8(s.subrange(30, 30 + file_name_len));
        }
        let file_name_as_bytes = vstd::slice::slice_to_vec(file_name.as_str().as_bytes());
        let compressor = match crate::compression::CompressionMethod::from_compression_method(
            compression_method,
        ) {
            Ok(c) => c,
            Err(e) => return Err(e),
        };
        Ok(
            ArchiveFileEntry {
                version_made_by: 0,
                minimum_version_needed_to_extract: version_needed,
                general_purpose_flags,
                last_mod_file_time: time,
                last_mod_file_date: date,
                crc32: crc,
                compressed_size,
                uncompressed_size,
                file_name_len,
                extra_field_length,
                file_name_as_bytes,
                offset: 0,
                internal_file_attributes: 0,
                external_file_attributes: 0,
                file_disk_number: 0,
                compression_method,
                compressor,
                file_comment: None,
                extra_fields: Vec::new(),
            },
        )
    }
}

} // verus!

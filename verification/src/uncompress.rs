//! Reading the central directory of a ZIP archive held in memory.
use vstd::prelude::*;
use vstd::string::*;

use crate::archive_common::{
    spec_ts_parse, spec_ts_parsed_len, spec_zip64_apply, spec_zip64_parsed_len, u16_at, u32_at,
    ArchiveDescriptorReader, ArchiveFileEntry, CentralDirectoryEnd, ExtraFieldExtendedTimestamp,
    ExtraFieldRecord, ExtraFieldUnknown, ExtraFieldZIP64ExtendedInformation,
};
use crate::compression::{spec_method_of_code, CompressionMethod};
use crate::constants::{
    CENTRAL_DIRECTORY_END_SIGNATURE, CENTRAL_DIRECTORY_ENTRY_BASE_SIZE,
    CENTRAL_DIRECTORY_ENTRY_SIGNATURE, END_OF_CENTRAL_DIRECTORY_SIZE,
};
use crate::error::ArchiveError;

verus! {

/// The number of data bytes that parsing an extra field with ID `id` and declared data size
/// `size` consumes.
pub open spec fn spec_field_consumed(id: u16, size: u16) -> int {
    if id == ExtraFieldZIP64ExtendedInformation::HEADER_ID {
        spec_zip64_parsed_len(size)
    } else if id == ExtraFieldExtendedTimestamp::HEADER_ID {
        spec_ts_parsed_len(size)
    } else {
        size as int
    }
}

/// Whether parsing the extra fields of `x` from `i` on reads past its end.
pub open spec fn spec_extra_overruns(x: Seq<u8>, i: int) -> bool
    decreases x.len() - i,
{
    if i < 0 || i + 4 > x.len() {
        false
    } else {
        let n = spec_field_consumed(u16_at(x, i), u16_at(x, i + 2));
        if i + 4 + n > x.len() {
            true
        } else {
            spec_extra_overruns(x, i + 4 + n)
        }
    }
}

/// Whether `fs` are the fields parsed from `x` from `i` on.
pub open spec fn spec_extra_records(x: Seq<u8>, i: int, fs: Seq<ExtraFieldRecord>) -> bool
    decreases x.len() - i,
{
    if i < 0 || i + 4 > x.len() {
        fs.len() == 0
    } else {
        let id = u16_at(x, i);
        let size = u16_at(x, i + 2);
        let n = spec_field_consumed(id, size);
        let d = x.subrange(i + 4, i + 4 + n);
        &&& fs.len() > 0
        &&& if id == ExtraFieldZIP64ExtendedInformation::HEADER_ID {
            fs[0] == ExtraFieldRecord::Zip64(ExtraFieldZIP64ExtendedInformation { parsed_sized: size })
        } else if id == ExtraFieldExtendedTimestamp::HEADER_ID {
            fs[0] == ExtraFieldRecord::ExtendedTimestamp(spec_ts_parse(d, size))
        } else {
            fs[0] matches ExtraFieldRecord::Unknown(u) && u.header_id == id && u.data@ == d
        }
        &&& if i + 4 + n > x.len() {
            true
        } else {
            spec_extra_records(x, i + 4 + n, fs.drop_first())
        }
    }
}

/// `e` with the sizes, offset and disk number that the ZIP64 fields of `x` from `i` on give.
pub open spec fn spec_extra_apply(x: Seq<u8>, i: int, e: ArchiveFileEntry) -> ArchiveFileEntry
    decreases x.len() - i,
{
    if i < 0 || i + 4 > x.len() {
        e
    } else {
        let id = u16_at(x, i);
        let size = u16_at(x, i + 2);
        let n = spec_field_consumed(id, size);
        if i + 4 + n > x.len() {
            e
        } else {
            let e2 = if id == ExtraFieldZIP64ExtendedInformation::HEADER_ID {
                spec_zip64_apply(e, x.subrange(i + 4, i + 4 + n), size)
            } else {
                e
            };
            spec_extra_apply(x, i + 4 + n, e2)
        }
    }
}

/// The sizes, offset and disk number that the ZIP64 fields give depend on the entry only
/// through its own sizes, offset and disk number.
proof fn lemma_extra_apply_fields(x: Seq<u8>, i: int, e1: ArchiveFileEntry, e2: ArchiveFileEntry)
    requires
        e1.uncompressed_size == e2.uncompressed_size,
        e1.compressed_size == e2.compressed_size,
        e1.offset == e2.offset,
        e1.file_disk_number == e2.file_disk_number,
    ensures
        spec_extra_apply(x, i, e1).uncompressed_size == spec_extra_apply(x, i, e2).uncompressed_size,
        spec_extra_apply(x, i, e1).compressed_size == spec_extra_apply(x, i, e2).compressed_size,
        spec_extra_apply(x, i, e1).offset == spec_extra_apply(x, i, e2).offset,
        spec_extra_apply(x, i, e1).file_disk_number == spec_extra_apply(x, i, e2).file_disk_number,
    decreases x.len() - i,
{
    if i < 0 || i + 4 > x.len() {
    } else {
        let id = u16_at(x, i);
        let size = u16_at(x, i + 2);
        let n = spec_field_consumed(id, size);
        if i + 4 + n > x.len() {
        } else {
            let d = x.subrange(i + 4, i + 4 + n);
            if id == ExtraFieldZIP64ExtendedInformation::HEADER_ID {
                lemma_extra_apply_fields(
                    x,
                    i + 4 + n,
                    spec_zip64_apply(e1, d, size),
                    spec_zip64_apply(e2, d, size),
                );
            } else {
                lemma_extra_apply_fields(x, i + 4 + n, e1, e2);
            }
        }
    }
}

/// The ZIP64 fields change nothing of an entry but its sizes, offset and disk number.
proof fn lemma_extra_apply_shape(x: Seq<u8>, i: int, e: ArchiveFileEntry)
    ensures
        spec_extra_apply(x, i, e) == (ArchiveFileEntry {
            uncompressed_size: spec_extra_apply(x, i, e).uncompressed_size,
            compressed_size: spec_extra_apply(x, i, e).compressed_size,
            offset: spec_extra_apply(x, i, e).offset,
            file_disk_number: spec_extra_apply(x, i, e).file_disk_number,
            ..e
        }),
    decreases x.len() - i,
{
    if i < 0 || i + 4 > x.len() {
    } else {
        let id = u16_at(x, i);
        let size = u16_at(x, i + 2);
        let n = spec_field_consumed(id, size);
        if i + 4 + n > x.len() {
        } else {
            let d = x.subrange(i + 4, i + 4 + n);
            if id == ExtraFieldZIP64ExtendedInformation::HEADER_ID {
                lemma_extra_apply_shape(x, i + 4 + n, spec_zip64_apply(e, d, size));
            } else {
                lemma_extra_apply_shape(x, i + 4 + n, e);
            }
        }
    }
}

/// Parses the extra fields of `extra_field_as_bytes` into `archive_file_entry`: each is added to
/// its extra fields, and a ZIP64 field puts its 64-bit values in place.
pub fn parse_extra_fields(extra_field_as_bytes: &[u8], archive_file_entry: &mut ArchiveFileEntry)
    requires
        !spec_extra_overruns(extra_field_as_bytes@, 0),
    ensures
        *final(archive_file_entry) == (ArchiveFileEntry {
            extra_fields: final(archive_file_entry).extra_fields,
            ..spec_extra_apply(extra_field_as_bytes@, 0, *old(archive_file_entry))
        }),
        final(archive_file_entry).extra_fields@.take(old(archive_file_entry).extra_fields@.len() as int)
            == old(archive_file_entry).extra_fields@,
        final(archive_file_entry).extra_fields@.len() >= old(archive_file_entry).extra_fields@.len(),
        spec_extra_records(
            extra_field_as_bytes@,
            0,
            final(archive_file_entry).extra_fields@.skip(old(archive_file_entry).extra_fields@.len() as int),
        ),
{
    let ghost x = extra_field_as_bytes@;
    let ghost n0 = archive_file_entry.extra_fields@.len();
    let mut indexer = ArchiveDescriptorReader::new();
    while extra_field_as_bytes.len() >= 4 && indexer.get_index() <= extra_field_as_bytes.len() - 4
        invariant
            0 <= indexer.spec_index() <= x.len(),
            x == extra_field_as_bytes@,
            !spec_extra_overruns(x, indexer.spec_index()),
            spec_extra_apply(x, 0, *old(archive_file_entry)) == spec_extra_apply(
                x,
                indexer.spec_index(),
                ArchiveFileEntry { extra_fields: old(archive_file_entry).extra_fields, ..*archive_file_entry },
            ),
            *archive_file_entry == (ArchiveFileEntry {
                extra_fields: archive_file_entry.extra_fields,
                ..*archive_file_entry
            }),
            archive_file_entry.extra_fields@.len() >= n0,
            n0 == old(archive_file_entry).extra_fields@.len(),
            archive_file_entry.extra_fields@.take(n0 as int) == old(archive_file_entry).extra_fields@,
            forall|fs: Seq<ExtraFieldRecord>|
                spec_extra_records(x, indexer.spec_index(), fs) ==> spec_extra_records(
                    x,
                    0,
                    archive_file_entry.extra_fields@.skip(n0 as int) + fs,
                ),
        decreases x.len() - indexer.spec_index(),
    {
        let ghost i = indexer.spec_index();
        let ghost before = archive_file_entry.extra_fields@;
        let extra_field_header_id = indexer.read_u16(extra_field_as_bytes);
        let extra_field_data_size = indexer.read_u16(extra_field_as_bytes);
        let ghost n = spec_field_consumed(extra_field_header_id, extra_field_data_size);
        let ghost e_before = ArchiveFileEntry {
            extra_fields: old(archive_file_entry).extra_fields,
            ..*archive_file_entry
        };
        let extra_field = if extra_field_header_id == ExtraFieldZIP64ExtendedInformation::HEADER_ID {
            let ef = ExtraFieldZIP64ExtendedInformation::parse_extra_field(
                &mut indexer,
                extra_field_as_bytes,
                extra_field_data_size,
                archive_file_entry,
            );
            ExtraFieldRecord::Zip64(ef)
        } else if extra_field_header_id == ExtraFieldExtendedTimestamp::HEADER_ID {
            let ef = ExtraFieldExtendedTimestamp::parse_extra_field(
                &mut indexer,
                extra_field_as_bytes,
                extra_field_data_size,
            );
            ExtraFieldRecord::ExtendedTimestamp(ef)
        } else {
            let ef = ExtraFieldUnknown::parse_extra_field(
                &mut indexer,
                extra_field_as_bytes,
                extra_field_data_size,
                extra_field_header_id,
            );
            ExtraFieldRecord::Unknown(ef)
        };
        archive_file_entry.extra_fields.push(extra_field);
        proof {
            assert(archive_file_entry.extra_fields@.take(n0 as int) =~= before.take(n0 as int));
            assert forall|fs: Seq<ExtraFieldRecord>|
                spec_extra_records(x, indexer.spec_index(), fs) implies spec_extra_records(
                    x,
                    0,
                    archive_file_entry.extra_fields@.skip(n0 as int) + fs,
                ) by {
                let fs2 = seq![extra_field] + fs;
                assert(fs2.drop_first() =~= fs);
                assert(spec_extra_records(x, i, fs2));
                assert(before.skip(n0 as int) + fs2 =~= archive_file_entry.extra_fields@.skip(n0 as int) + fs);
            }
        }
    }
    proof {
        let rest = Seq::<ExtraFieldRecord>::empty();
        assert(spec_extra_records(x, indexer.spec_index(), rest));
        assert(archive_file_entry.extra_fields@.skip(n0 as int) + rest =~= archive_file_entry.extra_fields@.skip(n0 as int));
    }
}

} // verus!

verus! {

/// What reading one central directory entry of `buf` at `idx` meets.
pub enum EntryStatus {
    /// The entry ends at the given offset.
    Read(int),
    /// No central directory signature at `idx`.
    BadSignature,
    /// The entry names a compression method code that is not known.
    UnknownMethod(u16),
    /// Reading the entry would go past the end of the buffer.
    Overrun,
}

/// The bytes of the extra field of the entry of `buf` at `idx`.
pub open spec fn spec_entry_extra(buf: Seq<u8>, idx: int) -> Seq<u8> {
    let nl = u16_at(buf, idx + 28);
    let el = u16_at(buf, idx + 30);
    buf.subrange(idx + 46 + nl, idx + 46 + nl + el)
}

/// What reading the central directory entry of `buf` at `idx` meets.
#[verifier::opaque]
pub open spec fn spec_entry_status(buf: Seq<u8>, idx: int) -> EntryStatus {
    if idx < 0 || idx + 4 > buf.len() {
        EntryStatus::Overrun
    } else if u32_at(buf, idx) != CENTRAL_DIRECTORY_ENTRY_SIGNATURE {
        EntryStatus::BadSignature
    } else if idx + 46 > buf.len() {
        EntryStatus::Overrun
    } else {
        let nl = u16_at(buf, idx + 28);
        let el = u16_at(buf, idx + 30);
        let cl = u16_at(buf, idx + 32);
        let code = u16_at(buf, idx + 10);
        if idx + 46 + nl > buf.len() {
            EntryStatus::Overrun
        } else if spec_method_of_code(code) is None {
            EntryStatus::UnknownMethod(code)
        } else if idx + 46 + nl + el > buf.len() {
            EntryStatus::Overrun
        } else if spec_extra_overruns(spec_entry_extra(buf, idx), 0) {
            EntryStatus::Overrun
        } else if idx + 46 + nl + el + cl > buf.len() {
            EntryStatus::Overrun
        } else {
            EntryStatus::Read(idx + 46 + nl + el + cl)
        }
    }
}

/// Whether `e` is the entry that the central directory header of `buf` at `idx` describes.
#[verifier::opaque]
pub open spec fn spec_entry_parsed(buf: Seq<u8>, idx: int, e: ArchiveFileEntry) -> bool {
    let nl = u16_at(buf, idx + 28);
    let el = u16_at(buf, idx + 30);
    let cl = u16_at(buf, idx + 32);
    let x = spec_entry_extra(buf, idx);
    let base = ArchiveFileEntry {
        uncompressed_size: u32_at(buf, idx + 24) as u64,
        compressed_size: u32_at(buf, idx + 20) as u64,
        offset: u32_at(buf, idx + 42) as u64,
        file_disk_number: u16_at(buf, idx + 34) as u32,
        ..e
    };
    let applied = spec_extra_apply(x, 0, base);
    &&& e.version_made_by == u16_at(buf, idx + 4)
    &&& e.minimum_version_needed_to_extract == u16_at(buf, idx + 6)
    &&& e.general_purpose_flags == u16_at(buf, idx + 8)
    &&& e.compression_method == u16_at(buf, idx + 10)
    &&& e.last_mod_file_time == u16_at(buf, idx + 12)
    &&& e.last_mod_file_date == u16_at(buf, idx + 14)
    &&& e.crc32 == u32_at(buf, idx + 16)
    &&& e.compressed_size == applied.compressed_size
    &&& e.uncompressed_size == applied.uncompressed_size
    &&& e.offset == applied.offset
    &&& e.file_disk_number == applied.file_disk_number
    &&& e.file_name_len == nl
    &&& e.extra_field_length == el
    &&& e.file_name_as_bytes@ == buf.subrange(idx + 46, idx + 46 + nl)
    &&& spec_method_of_code(e.compression_method) == Some(e.compressor)
    &&& e.internal_file_attributes == u16_at(buf, idx + 36)
    &&& e.external_file_attributes == u32_at(buf, idx + 38)
    &&& spec_extra_records(x, 0, e.extra_fields@)
    &&& if cl == 0 {
        e.file_comment is None
    } else {
        e.file_comment matches Some(c) && c@ == buf.subrange(idx + 46 + nl + el, idx + 46 + nl + el + cl)
    }
}

/// Reads the central directory entry of `buf` at `idx`; returns it and where it ends.
fn read_central_entry(buf: &[u8], idx: usize) -> (r: Result<(ArchiveFileEntry, usize), ArchiveError>)
    requires
        !(spec_entry_status(buf@, idx as int) is Overrun),
    ensures
        match spec_entry_status(buf@, idx as int) {
            EntryStatus::Read(end) => r matches Ok((e, n)) && n == end && idx < n <= buf@.len()
                && spec_entry_parsed(buf@, idx as int, e),
            EntryStatus::BadSignature => r matches Err(e) && e is BadArchiveStructure,
            EntryStatus::UnknownMethod(c) => r matches Err(ArchiveError::UnsuportedCompressionMethodCode(c2)) && c2 == c,
            EntryStatus::Overrun => false,
        },
{
    reveal(spec_entry_status);
    reveal(spec_entry_parsed);
    let ghost b = buf@;
    let mut indexer = ArchiveDescriptorReader::at(idx);
    let signature = indexer.read_u32(buf);
    if signature != CENTRAL_DIRECTORY_ENTRY_SIGNATURE {
        return Err(ArchiveError::BadArchiveStructure(String::from_str("Central directory signature not found!")));
    }
    let version_made_by = indexer.read_u16(buf);
    let version_needed = indexer.read_u16(buf);
    let general_purpose_flags = indexer.read_u16(buf);
    let compression_method = indexer.read_u16(buf);
    let last_mod_file_time = indexer.read_u16(buf);
    let last_mod_file_date = indexer.read_u16(buf);
    let crc32 = indexer.read_u32(buf);
    let compressed_size = indexer.read_u32(buf) as u64;
    let uncompressed_size = indexer.read_u32(buf) as u64;
    let file_name_len = indexer.read_u16(buf);
    let extra_field_length = indexer.read_u16(buf);
    let file_comment_length = indexer.read_u16(buf);
    let file_disk_number = indexer.read_u16(buf);
    let internal_file_attributes = indexer.read_u16(buf);
    let external_file_attributes = indexer.read_u32(buf);
    let file_info_offset = indexer.read_u32(buf) as u64;
    let file_name_as_bytes = indexer.read_bytes(buf, file_name_len as usize);
    let compressor = match CompressionMethod::from_compression_method(compression_method) {
        Ok(c) => c,
        Err(e) => return Err(e),
    };
    let mut archive_file_entry = ArchiveFileEntry {
        version_made_by,
        minimum_version_needed_to_extract: version_needed,
        general_purpose_flags,
        compression_method,
        last_mod_file_time,
        last_mod_file_date,
        crc32,
        compressed_size,
        uncompressed_size,
        file_name_len,
        extra_field_length,
        file_name_as_bytes,
        offset: file_info_offset,
        compressor,
        internal_file_attributes,
        external_file_attributes,
        file_disk_number: file_disk_number as u32,
        extra_fields: Vec::new(),
        file_comment: None,
    };
    let ghost base = archive_file_entry;
    let ghost x = spec_entry_extra(b, idx as int);
    if extra_field_length != 0 {
        let extra_field_as_bytes = indexer.read_bytes(buf, extra_field_length as usize);
        assert(extra_field_as_bytes@ =~= x);
        parse_extra_fields(extra_field_as_bytes.as_slice(), &mut archive_file_entry);
        assert(archive_file_entry.extra_fields@.skip(0) =~= archive_file_entry.extra_fields@);
    } else {
        assert(x =~= Seq::<u8>::empty());
        assert(spec_extra_records(x, 0, archive_file_entry.extra_fields@));
    }
    if file_comment_length != 0 {
        let file_comment_as_bytes = indexer.read_bytes(buf, file_comment_length as usize);
        archive_file_entry.file_comment = Some(file_comment_as_bytes);
    }
    proof {
        let e = archive_file_entry;
        let sbase = ArchiveFileEntry {
            uncompressed_size: u32_at(b, idx + 24) as u64,
            compressed_size: u32_at(b, idx + 20) as u64,
            offset: u32_at(b, idx + 42) as u64,
            file_disk_number: u16_at(b, idx + 34) as u32,
            ..e
        };
        lemma_extra_apply_fields(x, 0, sbase, base);
        lemma_extra_apply_shape(x, 0, base);
        if extra_field_length == 0 {
            assert(spec_extra_apply(x, 0, base) == base);
        }
    }
    Ok((archive_file_entry, indexer.get_index()))
}

} // verus!

verus! {

/// What reading the central directory entries of `buf` from `idx` on meets.
pub enum ScanOutcome {
    /// Entries start at the given offsets, and the last one ends less than one header before the
    /// end of the buffer.
    Entries(Seq<int>),
    /// Some entry lacks the central directory signature.
    BadSignature,
    /// Some entry names a compression method code that is not known.
    UnknownMethod(u16),
    /// Reading would go past the end of the buffer.
    Overrun,
}

/// `s` followed by the entries of `o`, or what else `o` met.
pub open spec fn spec_prepend(s: Seq<int>, o: ScanOutcome) -> ScanOutcome {
    match o {
        ScanOutcome::Entries(t) => ScanOutcome::Entries(s + t),
        _ => o,
    }
}

/// What reading the central directory entries of `buf` from `idx` on meets: entries are read one
/// after another as long as another base header fits after the last one.
pub open spec fn spec_scan(buf: Seq<u8>, idx: int) -> ScanOutcome
    decreases buf.len() - idx,
{
    match spec_entry_status(buf, idx) {
        EntryStatus::Read(end) => {
            if end + CENTRAL_DIRECTORY_ENTRY_BASE_SIZE >= buf.len() || end <= idx {
                ScanOutcome::Entries(seq![idx])
            } else {
                spec_prepend(seq![idx], spec_scan(buf, end))
            }
        },
        EntryStatus::BadSignature => ScanOutcome::BadSignature,
        EntryStatus::UnknownMethod(c) => ScanOutcome::UnknownMethod(c),
        EntryStatus::Overrun => ScanOutcome::Overrun,
    }
}

/// Reads the central directory entries of `buf`.
fn read_entries(buf: &[u8]) -> (r: Result<Vec<ArchiveFileEntry>, ArchiveError>)
    requires
        !(spec_scan(buf@, 0) is Overrun),
    ensures
        match spec_scan(buf@, 0) {
            ScanOutcome::Entries(starts) => r matches Ok(v) && v@.len() == starts.len() && forall|k: int|
                0 <= k < starts.len() ==> spec_entry_parsed(buf@, starts[k], #[trigger] v@[k]),
            ScanOutcome::BadSignature => r matches Err(e) && e is BadArchiveStructure,
            ScanOutcome::UnknownMethod(c) => r matches Err(ArchiveError::UnsuportedCompressionMethodCode(c2)) && c2 == c,
            ScanOutcome::Overrun => false,
        },
{
    let mut entries: Vec<ArchiveFileEntry> = Vec::new();
    let ghost mut starts: Seq<int> = Seq::empty();
    let mut idx: usize = 0;
    proof {
        assert(spec_prepend(starts, spec_scan(buf@, 0)) == spec_scan(buf@, 0)) by {
            if let ScanOutcome::Entries(t) = spec_scan(buf@, 0) {
                assert(starts + t =~= t);
            }
        }
    }
    loop
        invariant
            idx <= buf@.len(),
            spec_prepend(starts, spec_scan(buf@, idx as int)) == spec_scan(buf@, 0),
            !(spec_scan(buf@, 0) is Overrun),
            entries@.len() == starts.len(),
            forall|k: int| 0 <= k < starts.len() ==> spec_entry_parsed(buf@, starts[k], #[trigger] entries@[k]),
        decreases buf@.len() - idx,
    {
        let ghost o = spec_scan(buf@, idx as int);
        let (entry, end) = match read_central_entry(buf, idx) {
            Ok(v) => v,
            Err(e) => return Err(e),
        };
        let ghost old_starts = starts;
        entries.push(entry);
        proof {
            starts = starts.push(idx as int);
        }
        if buf.len() - end <= CENTRAL_DIRECTORY_ENTRY_BASE_SIZE as usize {
            proof {
                assert(old_starts + seq![idx as int] =~= starts);
            }
            return Ok(entries);
        }
        proof {
            let rest = spec_scan(buf@, end as int);
            if let ScanOutcome::Entries(t) = rest {
                assert(old_starts + (seq![idx as int] + t) =~= starts + t);
            }
        }
        idx = end;
    }
}

/// The end of central directory fields that the bytes `b` following its signature hold.
pub open spec fn spec_end_parsed(b: Seq<u8>, e: CentralDirectoryEnd) -> bool {
    &&& e.number_of_this_disk == u16_at(b, 0) as u32
    &&& e.number_of_the_disk_with_central_directory == u16_at(b, 2) as u32
    &&& e.total_number_of_entries_on_this_disk == u16_at(b, 4) as u64
    &&& e.total_number_of_entries_in_the_central_directory == u16_at(b, 6) as u64
    &&& e.central_directory_size == u32_at(b, 8) as u64
    &&& e.offset_of_start_of_central_directory == u32_at(b, 12) as u64
    &&& e.archive_comment matches Some(c) && c@ == b.subrange(18, 18 + u16_at(b, 16))
    &&& e.z64ecdl_relative_offset_of_the_zip64_end_of_central_directory_record == 0
    &&& e.z64ecdl_total_number_of_disks == 1
    &&& e.z64ecdl_number_of_the_disk_with_the_start_of_the_zip64_end_of_central_directory == 0
}

/// The position of the end of central directory signature: the last one at most 22 bytes before
/// the end, searched down to where a maximal comment would begin.
pub open spec fn spec_eocd_search(a: Seq<u8>, p: int, bound: int) -> Option<int>
    decreases p,
{
    if p < bound || p < 0 {
        None
    } else if u32_at(a, p) == CENTRAL_DIRECTORY_END_SIGNATURE {
        Some(p)
    } else if p == 0 {
        None
    } else {
        spec_eocd_search(a, p - 1, bound)
    }
}

/// Where the search for the end record stops.
pub open spec fn spec_search_bound(len: int) -> int {
    if len >= END_OF_CENTRAL_DIRECTORY_SIZE + 0xFFFF {
        len - (END_OF_CENTRAL_DIRECTORY_SIZE + 0xFFFF)
    } else {
        0
    }
}

/// What reading an archive whose bytes are `a` meets.
pub enum ReadOutcome {
    /// The archive is shorter than an end record.
    TooSmall,
    /// No end of central directory signature where one may stand.
    NoEndRecord,
    /// The end record's comment runs past the end of the archive.
    EndOverrun,
    /// The central directory lies past the end of the archive.
    DirectoryOutOfRange,
    /// The central directory, found at the given offset and size, was read with the given outcome.
    Directory(int, int, int, ScanOutcome),
}

/// What reading the archive `a` meets: the end record, then the central directory it points to.
pub open spec fn spec_read_archive(a: Seq<u8>) -> ReadOutcome {
    if a.len() < END_OF_CENTRAL_DIRECTORY_SIZE {
        ReadOutcome::TooSmall
    } else {
        match spec_eocd_search(a, a.len() - END_OF_CENTRAL_DIRECTORY_SIZE, spec_search_bound(a.len() as int)) {
            None => ReadOutcome::NoEndRecord,
            Some(p) => {
                let b = a.subrange(p + 4, a.len() as int);
                if 18 + u16_at(b, 16) > b.len() {
                    ReadOutcome::EndOverrun
                } else {
                    let off = u32_at(b, 12) as int;
                    let size = u32_at(b, 8) as int;
                    if off + size > a.len() {
                        ReadOutcome::DirectoryOutOfRange
                    } else {
                        ReadOutcome::Directory(p, off, size, spec_scan(a.subrange(off, off + size), 0))
                    }
                }
            },
        }
    }
}

/// Whether reading the archive `a` would read past the end of a buffer it has read.
pub open spec fn spec_read_overruns(a: Seq<u8>) -> bool {
    match spec_read_archive(a) {
        ReadOutcome::EndOverrun => true,
        ReadOutcome::Directory(_, _, _, o) => o is Overrun,
        _ => false,
    }
}

/// The little-endian 32-bit value at `at` in `bytes`.
///
/// Calls `byteorder::LittleEndian::read_u32` on the four bytes; its documentation states that it
/// reads them as a little-endian integer.
#[verifier::external_body]
fn read_u32_le(bytes: &[u8], at: usize) -> (v: u32)
    requires
        at + 4 <= bytes@.len(),
    ensures
        v == u32_at(bytes@, at as int),
{
    <byteorder::LittleEndian as byteorder::ByteOrder>::read_u32(&bytes[at..at + 4])
}

/// The error that reading past the end of the archive gives.
///
/// Builds `std::io::Error::from(std::io::ErrorKind::UnexpectedEof)`, the error that
/// `read_exact` reports; nothing is promised of the value.
#[verifier::external_body]
fn unexpected_eof() -> (e: std::io::Error) {
    std::io::Error::from(std::io::ErrorKind::UnexpectedEof)
}

/// The archive comment and the fields of an archive's end of central directory record, read
/// from `stream`, the bytes that follow the record's signature.
fn read_cental_directory_end(stream: &[u8]) -> (r: CentralDirectoryEnd)
    requires
        18 <= stream@.len(),
        18 + u16_at(stream@, 16) <= stream@.len(),
    ensures
        spec_end_parsed(stream@, r),
{
    let mut indexer = ArchiveDescriptorReader::new();
    let disk_number = indexer.read_u16(stream) as u32;
    let disk_with_central_directory = indexer.read_u16(stream) as u32;
    let total_number_of_entries_on_this_disk = indexer.read_u16(stream) as u64;
    let total_number_of_entries_in_the_central_directory = indexer.read_u16(stream);
    let central_directory_size = indexer.read_u32(stream);
    let offset_of_start_of_central_directory = indexer.read_u32(stream);
    let zip_file_comment_length = indexer.read_u16(stream);
    let archive_comment = indexer.read_bytes(stream, zip_file_comment_length as usize);
    CentralDirectoryEnd {
        number_of_this_disk: disk_number,
        number_of_the_disk_with_central_directory: disk_with_central_directory,
        total_number_of_entries_on_this_disk,
        total_number_of_entries_in_the_central_directory:
            total_number_of_entries_in_the_central_directory as u64,
        central_directory_size: central_directory_size as u64,
        offset_of_start_of_central_directory: offset_of_start_of_central_directory as u64,
        archive_comment: Some(archive_comment),
        z64ecdl_relative_offset_of_the_zip64_end_of_central_directory_record: 0,
        z64ecdl_total_number_of_disks: 1,
        z64ecdl_number_of_the_disk_with_the_start_of_the_zip64_end_of_central_directory: 0,
    }
}

/// The little-endian 16-bit value at `at` in `bytes`.
fn u16_le(bytes: &[u8], at: usize) -> (v: u16)
    requires
        at + 2 <= bytes@.len(),
    ensures
        v == u16_at(bytes@, at as int),
{
    let mut indexer = ArchiveDescriptorReader::at(at);
    indexer.read_u16(bytes)
}

/// The number of data bytes that parsing an extra field with ID `id` and declared data size
/// `size` consumes.
fn field_consumed(id: u16, size: u16) -> (n: usize)
    ensures
        n == spec_field_consumed(id, size),
{
    if id == ExtraFieldZIP64ExtendedInformation::HEADER_ID {
        if size <= 7 {
            0
        } else if size <= 15 {
            8
        } else if size <= 23 {
            16
        } else if size <= 31 {
            24
        } else {
            28
        }
    } else if id == ExtraFieldExtendedTimestamp::HEADER_ID {
        if size == 0 {
            0
        } else if size <= 4 {
            1
        } else if size <= 8 {
            5
        } else if size <= 12 {
            9
        } else {
            13
        }
    } else {
        size as usize
    }
}

/// Whether parsing the extra fields of `x` reads past its end.
fn extra_overruns(x: &[u8]) -> (b: bool)
    ensures
        b == spec_extra_overruns(x@, 0),
{
    let mut i: usize = 0;
    loop
        invariant
            i <= x@.len() + 4,
            spec_extra_overruns(x@, 0) == spec_extra_overruns(x@, i as int),
        decreases x@.len() + 4 - i,
    {
        if x.len() < 4 || i > x.len() - 4 {
            return false;
        }
        let id = u16_le(x, i);
        let size = u16_le(x, i + 2);
        let n = field_consumed(id, size);
        if n > x.len() - i - 4 {
            return true;
        }
        i = i + 4 + n;
    }
}

/// What reading one central directory entry meets, as the scan of a central directory needs it.
enum ScanStep {
    /// The entry ends at the given offset.
    Next(usize),
    /// The scan stops with an error that reads nothing past the buffer.
    Stop,
    /// Reading the entry would go past the end of the buffer.
    Overrun,
}

/// What reading the central directory entry of `buf` at `idx` meets.
fn scan_step(buf: &[u8], idx: usize) -> (r: ScanStep)
    ensures
        match spec_entry_status(buf@, idx as int) {
            EntryStatus::Read(end) => r == ScanStep::Next(end as usize) && idx < end <= buf@.len(),
            EntryStatus::BadSignature => r is Stop,
            EntryStatus::UnknownMethod(_) => r is Stop,
            EntryStatus::Overrun => r is Overrun,
        },
{
    reveal(spec_entry_status);
    let len = buf.len();
    if len < 4 || idx > len - 4 {
        return ScanStep::Overrun;
    }
    if read_u32_le(buf, idx) != CENTRAL_DIRECTORY_ENTRY_SIGNATURE {
        return ScanStep::Stop;
    }
    if len < 46 || idx > len - 46 {
        return ScanStep::Overrun;
    }
    let nl = u16_le(buf, idx + 28) as usize;
    let el = u16_le(buf, idx + 30) as usize;
    let cl = u16_le(buf, idx + 32) as usize;
    let code = u16_le(buf, idx + 10);
    if nl > len - idx - 46 {
        return ScanStep::Overrun;
    }
    if CompressionMethod::from_compression_method(code).is_err() {
        return ScanStep::Stop;
    }
    if el > len - idx - 46 - nl {
        return ScanStep::Overrun;
    }
    let extra = vstd::slice::slice_subrange(buf, idx + 46 + nl, idx + 46 + nl + el);
    assert(extra@ =~= spec_entry_extra(buf@, idx as int));
    if extra_overruns(extra) {
        return ScanStep::Overrun;
    }
    if cl > len - idx - 46 - nl - el {
        return ScanStep::Overrun;
    }
    ScanStep::Next(idx + 46 + nl + el + cl)
}

/// Whether reading the central directory entries of `buf` reads past its end.
fn scan_overruns(buf: &[u8]) -> (b: bool)
    ensures
        b == (spec_scan(buf@, 0) is Overrun),
{
    let mut idx: usize = 0;
    loop
        invariant
            idx <= buf@.len(),
            (spec_scan(buf@, 0) is Overrun) == (spec_scan(buf@, idx as int) is Overrun),
        decreases buf@.len() - idx,
    {
        match scan_step(buf, idx) {
            ScanStep::Next(end) => {
                if buf.len() - end <= CENTRAL_DIRECTORY_ENTRY_BASE_SIZE as usize {
                    return false;
                }
                idx = end;
            },
            ScanStep::Stop => {
                return false;
            },
            ScanStep::Overrun => {
                return true;
            },
        }
    }
}

/// Where the end of central directory signature stands, searched as reading does.
fn find_end_record(archive: &[u8]) -> (r: Option<usize>)
    requires
        archive@.len() >= END_OF_CENTRAL_DIRECTORY_SIZE,
    ensures
        r is None <==> spec_eocd_search(
            archive@,
            archive@.len() - END_OF_CENTRAL_DIRECTORY_SIZE,
            spec_search_bound(archive@.len() as int),
        ) is None,
        r matches Some(p) ==> spec_eocd_search(
            archive@,
            archive@.len() - END_OF_CENTRAL_DIRECTORY_SIZE,
            spec_search_bound(archive@.len() as int),
        ) == Some(p as int) && p + END_OF_CENTRAL_DIRECTORY_SIZE <= archive@.len(),
{
    let file_length = archive.len();
    let mut position: usize = file_length - END_OF_CENTRAL_DIRECTORY_SIZE as usize;
    let search_upper_bound: usize = if file_length >= (END_OF_CENTRAL_DIRECTORY_SIZE + 0xFFFF) as usize {
        file_length - (END_OF_CENTRAL_DIRECTORY_SIZE + 0xFFFF) as usize
    } else {
        0
    };
    loop
        invariant
            position + END_OF_CENTRAL_DIRECTORY_SIZE <= archive@.len(),
            file_length == archive@.len(),
            search_upper_bound == spec_search_bound(file_length as int),
            spec_eocd_search(archive@, position as int, search_upper_bound as int)
                == spec_eocd_search(
                archive@,
                archive@.len() - END_OF_CENTRAL_DIRECTORY_SIZE,
                spec_search_bound(archive@.len() as int),
            ),
        decreases position,
    {
        if position < search_upper_bound {
            return None;
        }
        if read_u32_le(archive, position) == CENTRAL_DIRECTORY_END_SIGNATURE {
            return Some(position);
        }
        if position == 0 {
            return None;
        }
        position = position - 1;
    }
}

/// Whether reading the archive `archive` would read past the end of a buffer it has read: the
/// end record's comment, or an entry of the central directory, runs past its end.
pub fn read_overruns(archive: &[u8]) -> (b: bool)
    ensures
        b == spec_read_overruns(archive@),
{
    let file_length = archive.len();
    if file_length < END_OF_CENTRAL_DIRECTORY_SIZE as usize {
        return false;
    }
    let position = match find_end_record(archive) {
        Some(p) => p,
        None => return false,
    };
    let end = vstd::slice::slice_subrange(archive, position + 4, file_length);
    let ghost b = archive@.subrange(position + 4, archive@.len() as int);
    assert(end@ == b);
    let comment_length = u16_le(end, 16) as usize;
    if comment_length > end.len() - 18 {
        assert(spec_read_archive(archive@) == ReadOutcome::EndOverrun);
        return true;
    }
    let offset = read_u32_le(end, 12) as usize;
    let size = read_u32_le(end, 8) as usize;
    if offset > file_length || size > file_length - offset {
        assert(spec_read_archive(archive@) == ReadOutcome::DirectoryOutOfRange);
        return false;
    }
    let central_directory = vstd::slice::slice_subrange(archive, offset, offset + size);
    scan_overruns(central_directory)
}

/// The entries of an archive, as its central directory describes them.
#[derive(Debug)]
pub struct ArchiveReader {
    pub file_entries: Vec<ArchiveFileEntry>,
    pub central_directory_end: CentralDirectoryEnd,
}

/// Whether `r` is what reading the archive `a` gives.
pub open spec fn spec_read_result(a: Seq<u8>, r: Result<ArchiveReader, ArchiveError>) -> bool {
    match spec_read_archive(a) {
        ReadOutcome::TooSmall => r matches Err(e) && e is BadArchiveStructure,
        ReadOutcome::NoEndRecord => r matches Err(e) && e is BadArchiveStructure,
        ReadOutcome::EndOverrun => false,
        ReadOutcome::DirectoryOutOfRange => r matches Err(e) && e is IoError,
        ReadOutcome::Directory(p, off, size, o) => {
            let cd = a.subrange(off, off + size);
            match o {
                ScanOutcome::Entries(starts) => r matches Ok(reader) && spec_end_parsed(
                    a.subrange(p + 4, a.len() as int),
                    reader.central_directory_end,
                ) && reader.file_entries@.len() == starts.len() && forall|k: int|
                    0 <= k < starts.len() ==> spec_entry_parsed(
                        cd,
                        starts[k],
                        #[trigger] reader.file_entries@[k],
                    ),
                ScanOutcome::BadSignature => r matches Err(e) && e is BadArchiveStructure,
                ScanOutcome::UnknownMethod(c) => r matches Err(
                    ArchiveError::UnsuportedCompressionMethodCode(c2),
                ) && c2 == c,
                ScanOutcome::Overrun => false,
            }
        },
    }
}

impl ArchiveReader {
    /// Reads the end of central directory record of the archive `archive`, then the entries of
    /// the central directory it points to.
    pub fn new(archive: &[u8]) -> (r: Result<ArchiveReader, ArchiveError>)
        requires
            !spec_read_overruns(archive@),
        ensures
            spec_read_result(archive@, r),
    {
        let file_length = archive.len();
        if file_length < END_OF_CENTRAL_DIRECTORY_SIZE as usize {
            return Err(ArchiveError::BadArchiveStructure(String::from_str("Archive too small")));
        }
        let mut position: usize = file_length - END_OF_CENTRAL_DIRECTORY_SIZE as usize;
        let search_upper_bound: usize = if file_length >= (END_OF_CENTRAL_DIRECTORY_SIZE + 0xFFFF) as usize {
            file_length - (END_OF_CENTRAL_DIRECTORY_SIZE + 0xFFFF) as usize
        } else {
            0
        };
        loop
            invariant
                position + END_OF_CENTRAL_DIRECTORY_SIZE <= archive@.len(),
                file_length == archive@.len(),
                search_upper_bound == spec_search_bound(file_length as int),
                spec_eocd_search(archive@, position as int, search_upper_bound as int)
                    == spec_eocd_search(
                    archive@,
                    archive@.len() - END_OF_CENTRAL_DIRECTORY_SIZE,
                    spec_search_bound(archive@.len() as int),
                ),
            ensures
                position + END_OF_CENTRAL_DIRECTORY_SIZE <= archive@.len(),
                spec_eocd_search(
                    archive@,
                    archive@.len() - END_OF_CENTRAL_DIRECTORY_SIZE,
                    spec_search_bound(archive@.len() as int),
                ) == Some(position as int),
            decreases position,
        {
            if position < search_upper_bound {
                return Err(ArchiveError::BadArchiveStructure(String::from_str("CENTRAL_DIRECTORY_END_SIGNATURE Not found")));
            }
            let val = read_u32_le(archive, position);
            if val == CENTRAL_DIRECTORY_END_SIGNATURE {
                break;
            }
            if position == 0 {
                return Err(ArchiveError::BadArchiveStructure(String::from_str("Signature CENTRAL_DIRECTORY_END_SIGNATURE Not found")));
            }
            position = position - 1;
        }
        let central_end = vstd::slice::slice_subrange(archive, position + 4, file_length);
        let central_directory_end = read_cental_directory_end(central_end);
        let offset = central_directory_end.offset_of_start_of_central_directory;
        let size = central_directory_end.central_directory_size;
        if offset + size > file_length as u64 {
            return Err(ArchiveError::IoError(unexpected_eof()));
        }
        let central_directory = vstd::slice::slice_subrange(archive, offset as usize, (offset + size) as usize);
        let file_entries = match read_entries(central_directory) {
            Ok(v) => v,
            Err(e) => return Err(e),
        };
        Ok(ArchiveReader { file_entries, central_directory_end })
    }
}

} // verus!

//! What reading an archive gives back of what writing it recorded.
use vstd::prelude::*;

use crate::archive_common::{
    sat_u16, spec_comment_field, spec_end_record, spec_needs_zip64, CentralDirectoryEnd,
    lemma_timestamp_central_roundtrip, lemma_timestamp_field_sizes, sat_u32, spec_file_comment_length,
    spec_is_zip64, spec_records_central_bytes, spec_timestamp_field, spec_ts_central_bytes,
    spec_ts_central_data_size, spec_version_needed_to_extract, spec_zip64_central_bytes, u16_at,
    u32_at, ArchiveFileEntry, ExtraFieldExtendedTimestamp, ExtraFieldRecord,
    ExtraFieldZIP64ExtendedInformation,
};
use crate::compress::common::{
    spec_entry_bytes, spec_is_streaming, spec_file_header, spec_filled_entry, spec_recorded, spec_comment_bytes,
    spec_archive_end, spec_big_file, spec_has_big_file, spec_end_fields, spec_cd_entry, spec_cd_header, spec_central_directory, spec_central_header, spec_entry_comment,
};
use crate::compression::{
    lemma_zip_code_roundtrip, spec_method_of_code, spec_update_flag, CompressionMethod, Level,
};
use crate::tools::spec_entries_size;
use crate::compress::FileOptions;
use crate::constants::{
    CENTRAL_DIRECTORY_END_SIGNATURE, CENTRAL_DIRECTORY_ENTRY_BASE_SIZE, CENTRAL_DIRECTORY_ENTRY_SIGNATURE,
    END_OF_CENTRAL_DIRECTORY_SIZE,
};
use crate::error::ArchiveError;
use crate::encoding::{lemma_le_u16_roundtrip, lemma_le_u32_roundtrip, le_u16, le_u32};
use crate::uncompress::{
    spec_entry_extra, spec_entry_parsed, spec_entry_status, spec_extra_apply, spec_extra_overruns,
    spec_extra_records, spec_prepend, spec_scan, EntryStatus, ScanOutcome, spec_eocd_search,
    spec_end_parsed, spec_read_archive, spec_read_overruns, spec_read_result, spec_search_bound,
    ArchiveReader, ReadOutcome,
};

verus! {

/// Where each field of a central directory header lies.
pub(crate) proof fn lemma_central_header_layout(e: ArchiveFileEntry, x: Seq<u8>)
    ensures
        ({
            let h = spec_central_header(e, x);
            let nl = e.file_name_as_bytes@.len() as int;
            let el = x.len() as int;
            let c = spec_entry_comment(e);
            &&& h.len() == 46 + nl + el + c.len()
            &&& h.subrange(0, 4) == le_u32(CENTRAL_DIRECTORY_ENTRY_SIGNATURE)
            &&& h.subrange(4, 6) == le_u16(e.version_made_by)
            &&& h.subrange(6, 8) == le_u16(spec_version_needed_to_extract(e))
            &&& h.subrange(8, 10) == le_u16(e.general_purpose_flags)
            &&& h.subrange(10, 12) == le_u16(e.compression_method)
            &&& h.subrange(12, 14) == le_u16(e.last_mod_file_time)
            &&& h.subrange(14, 16) == le_u16(e.last_mod_file_date)
            &&& h.subrange(16, 20) == le_u32(e.crc32)
            &&& h.subrange(20, 24) == le_u32(sat_u32(e.compressed_size as int))
            &&& h.subrange(24, 28) == le_u32(sat_u32(e.uncompressed_size as int))
            &&& h.subrange(28, 30) == le_u16(e.file_name_len)
            &&& h.subrange(30, 32) == le_u16(e.extra_field_length)
            &&& h.subrange(32, 34) == le_u16(spec_file_comment_length(e))
            &&& h.subrange(34, 36) == le_u16(e.file_disk_number as u16)
            &&& h.subrange(36, 38) == le_u16(e.internal_file_attributes)
            &&& h.subrange(38, 42) == le_u32(e.external_file_attributes)
            &&& h.subrange(42, 46) == le_u32(sat_u32(e.offset as int))
            &&& h.subrange(46, 46 + nl) == e.file_name_as_bytes@
            &&& h.subrange(46 + nl, 46 + nl + el) == x
            &&& h.subrange(46 + nl + el, h.len() as int) == c
        }),
{
    let h = spec_central_header(e, x);
    let nl = e.file_name_as_bytes@.len() as int;
    let el = x.len() as int;
    let head = le_u32(CENTRAL_DIRECTORY_ENTRY_SIGNATURE) + le_u16(e.version_made_by) + le_u16(
        spec_version_needed_to_extract(e),
    ) + le_u16(e.general_purpose_flags) + le_u16(e.compression_method) + le_u16(
        e.last_mod_file_time,
    ) + le_u16(e.last_mod_file_date) + le_u32(e.crc32) + le_u32(sat_u32(e.compressed_size as int))
        + le_u32(sat_u32(e.uncompressed_size as int)) + le_u16(e.file_name_len) + le_u16(
        e.extra_field_length,
    ) + le_u16(spec_file_comment_length(e)) + le_u16(e.file_disk_number as u16) + le_u16(
        e.internal_file_attributes,
    ) + le_u32(e.external_file_attributes) + le_u32(sat_u32(e.offset as int));
    assert(head.len() == 46);
    assert(h == head + e.file_name_as_bytes@ + x + spec_entry_comment(e));
    assert(h.subrange(0, 46) =~= head);
    assert(head.subrange(0, 4) =~= le_u32(CENTRAL_DIRECTORY_ENTRY_SIGNATURE));
    assert(head.subrange(4, 6) =~= le_u16(e.version_made_by));
    assert(head.subrange(6, 8) =~= le_u16(spec_version_needed_to_extract(e)));
    assert(head.subrange(8, 10) =~= le_u16(e.general_purpose_flags));
    assert(head.subrange(10, 12) =~= le_u16(e.compression_method));
    assert(head.subrange(12, 14) =~= le_u16(e.last_mod_file_time));
    assert(head.subrange(14, 16) =~= le_u16(e.last_mod_file_date));
    assert(head.subrange(16, 20) =~= le_u32(e.crc32));
    assert(head.subrange(20, 24) =~= le_u32(sat_u32(e.compressed_size as int)));
    assert(head.subrange(24, 28) =~= le_u32(sat_u32(e.uncompressed_size as int)));
    assert(head.subrange(28, 30) =~= le_u16(e.file_name_len));
    assert(head.subrange(30, 32) =~= le_u16(e.extra_field_length));
    assert(head.subrange(32, 34) =~= le_u16(spec_file_comment_length(e)));
    assert(head.subrange(34, 36) =~= le_u16(e.file_disk_number as u16));
    assert(head.subrange(36, 38) =~= le_u16(e.internal_file_attributes));
    assert(head.subrange(38, 42) =~= le_u32(e.external_file_attributes));
    assert(head.subrange(42, 46) =~= le_u32(sat_u32(e.offset as int)));
    assert(h.subrange(46, 46 + nl) =~= e.file_name_as_bytes@);
    assert(h.subrange(46 + nl, 46 + nl + el) =~= x);
    assert(h.subrange(46 + nl + el, h.len() as int) =~= spec_entry_comment(e));
    assert(h.subrange(0, 4) =~= head.subrange(0, 4));
    assert(h.subrange(4, 6) =~= head.subrange(4, 6));
    assert(h.subrange(6, 8) =~= head.subrange(6, 8));
    assert(h.subrange(8, 10) =~= head.subrange(8, 10));
    assert(h.subrange(10, 12) =~= head.subrange(10, 12));
    assert(h.subrange(12, 14) =~= head.subrange(12, 14));
    assert(h.subrange(14, 16) =~= head.subrange(14, 16));
    assert(h.subrange(16, 20) =~= head.subrange(16, 20));
    assert(h.subrange(20, 24) =~= head.subrange(20, 24));
    assert(h.subrange(24, 28) =~= head.subrange(24, 28));
    assert(h.subrange(28, 30) =~= head.subrange(28, 30));
    assert(h.subrange(30, 32) =~= head.subrange(30, 32));
    assert(h.subrange(32, 34) =~= head.subrange(32, 34));
    assert(h.subrange(34, 36) =~= head.subrange(34, 36));
    assert(h.subrange(36, 38) =~= head.subrange(36, 38));
    assert(h.subrange(38, 42) =~= head.subrange(38, 42));
    assert(h.subrange(42, 46) =~= head.subrange(42, 46));
}


/// Whether `f` is an extended timestamp field whose flags record exactly the times it holds.
pub open spec fn spec_consistent_timestamp(f: ExtraFieldRecord) -> bool {
    match f {
        ExtraFieldRecord::ExtendedTimestamp(t) => t == spec_timestamp_field(
            t.modify_time,
            t.access_time,
            t.create_time,
        ),
        _ => false,
    }
}

/// Whether `fs` are extra fields as the archive writers give an entry: an optional ZIP64
/// field, then an optional timestamp field whose flags record the times it holds.
pub open spec fn spec_written_fields(fs: Seq<ExtraFieldRecord>) -> bool {
    ||| fs.len() == 0
    ||| fs.len() == 1 && (fs[0] is Zip64 || spec_consistent_timestamp(fs[0]))
    ||| fs.len() == 2 && fs[0] is Zip64 && spec_consistent_timestamp(fs[1])
}

/// The timestamp field that ends `fs`, if one does.
pub open spec fn spec_last_timestamp(fs: Seq<ExtraFieldRecord>) -> Option<ExtraFieldExtendedTimestamp> {
    if fs.len() == 0 {
        None
    } else {
        match fs.last() {
            ExtraFieldRecord::ExtendedTimestamp(t) => Some(t),
            _ => None,
        }
    }
}

/// The extra fields that reading back the central header of an entry with extra fields `fs`
/// gives: its timestamp field, if it records a time, reduced to its flags and modification
/// time, which are all that a central header holds of it.
pub open spec fn spec_read_back_fields(fs: Seq<ExtraFieldRecord>) -> Seq<ExtraFieldRecord> {
    match spec_last_timestamp(fs) {
        Some(t) => if t.flags == 0 {
            Seq::empty()
        } else {
            seq![
                ExtraFieldRecord::ExtendedTimestamp(
                    ExtraFieldExtendedTimestamp {
                        flags: t.flags,
                        modify_time: t.modify_time,
                        access_time: None,
                        create_time: None,
                    },
                ),
            ]
        },
        None => Seq::empty(),
    }
}

/// Whether the central directory header of `e` reads back whole: its sizes and offset fit the
/// classic fields, its method code is known, its extra fields are those that the writers give,
/// and its name and comment lengths fit 16 bits.
pub open spec fn spec_readable_entry(e: ArchiveFileEntry) -> bool {
    &&& !spec_is_zip64(e)
    &&& e.file_disk_number < 0xFFFF
    &&& e.file_name_as_bytes@.len() < 0x1_0000
    &&& e.file_name_len == e.file_name_as_bytes@.len()
    &&& spec_method_of_code(e.compression_method) == Some(e.compressor)
    &&& spec_written_fields(e.extra_fields@)
    &&& spec_entry_comment(e).len() < 0x1_0000
}

/// Whether `r`, read from a central directory, carries everything that the central directory
/// header of `e` records of it.
pub open spec fn spec_reads_as(r: ArchiveFileEntry, e: ArchiveFileEntry) -> bool {
    &&& r.version_made_by == e.version_made_by
    &&& r.minimum_version_needed_to_extract == e.minimum_version_needed_to_extract
    &&& r.general_purpose_flags == e.general_purpose_flags
    &&& r.compression_method == e.compression_method
    &&& r.compressor == e.compressor
    &&& r.last_mod_file_time == e.last_mod_file_time
    &&& r.last_mod_file_date == e.last_mod_file_date
    &&& r.crc32 == e.crc32
    &&& r.compressed_size == e.compressed_size
    &&& r.uncompressed_size == e.uncompressed_size
    &&& r.file_name_len == e.file_name_len
    &&& r.file_name_as_bytes@ == e.file_name_as_bytes@
    &&& r.offset == e.offset
    &&& r.file_disk_number == e.file_disk_number
    &&& r.internal_file_attributes == e.internal_file_attributes
    &&& r.external_file_attributes == e.external_file_attributes
    &&& spec_entry_comment(r) == spec_entry_comment(e)
    &&& r.extra_fields@ == spec_read_back_fields(e.extra_fields@)
}

/// The central form of the extra fields that the writers give.
proof fn lemma_written_fields_bytes(e: ArchiveFileEntry)
    requires
        spec_readable_entry(e),
    ensures
        spec_records_central_bytes(e.extra_fields@, e) == match spec_last_timestamp(e.extra_fields@) {
            Some(t) => spec_ts_central_bytes(t),
            None => Seq::<u8>::empty(),
        },
{
    let fs = e.extra_fields@;
    reveal_with_fuel(spec_records_central_bytes, 3);
    assert(spec_zip64_central_bytes(e) =~= Seq::<u8>::empty());
    if fs.len() == 2 {
        assert(fs.drop_last().drop_last() =~= Seq::<ExtraFieldRecord>::empty());
        assert(spec_records_central_bytes(fs.drop_last(), e) =~= Seq::<u8>::empty());
    } else if fs.len() == 1 {
        assert(fs.drop_last() =~= Seq::<ExtraFieldRecord>::empty());
    }
}

/// `buf` holds `h` at `idx`: then it holds each part of `h` at the matching place.
proof fn lemma_part(buf: Seq<u8>, idx: int, h: Seq<u8>, a: int, b: int)
    requires
        0 <= idx,
        idx + h.len() <= buf.len(),
        buf.subrange(idx, idx + h.len()) == h,
        0 <= a <= b <= h.len(),
    ensures
        buf.subrange(idx + a, idx + b) == h.subrange(a, b),
{
    assert forall|i: int| 0 <= i < b - a implies buf.subrange(idx + a, idx + b)[i] == h.subrange(a, b)[i] by {
        assert(buf.subrange(idx, idx + h.len())[a + i] == buf[idx + a + i]);
    }
    assert(buf.subrange(idx + a, idx + b) =~= h.subrange(a, b));
}

/// `buf` holds `h` at `idx`, and `h` holds `v` at `k`: then `buf` holds `v` at `idx + k`.
proof fn lemma_u16_field(buf: Seq<u8>, idx: int, h: Seq<u8>, k: int, v: u16)
    requires
        0 <= idx,
        idx + h.len() <= buf.len(),
        buf.subrange(idx, idx + h.len()) == h,
        0 <= k,
        k + 2 <= h.len(),
        h.subrange(k, k + 2) == le_u16(v),
    ensures
        u16_at(buf, idx + k) == v,
{
    lemma_part(buf, idx, h, k, k + 2);
    lemma_le_u16_roundtrip(v);
}

/// `buf` holds `h` at `idx`, and `h` holds `v` at `k`: then `buf` holds `v` at `idx + k`.
proof fn lemma_u32_field(buf: Seq<u8>, idx: int, h: Seq<u8>, k: int, v: u32)
    requires
        0 <= idx,
        idx + h.len() <= buf.len(),
        buf.subrange(idx, idx + h.len()) == h,
        0 <= k,
        k + 4 <= h.len(),
        h.subrange(k, k + 4) == le_u32(v),
    ensures
        u32_at(buf, idx + k) == v,
{
    lemma_part(buf, idx, h, k, k + 4);
    lemma_le_u32_roundtrip(v);
}

/// Whether `buf` holds, at `idx`, the fields of the central directory header of `e` whose
/// extra field is `x`.
pub open spec fn spec_header_at(buf: Seq<u8>, idx: int, e: ArchiveFileEntry, x: Seq<u8>) -> bool {
    let nl = e.file_name_as_bytes@.len() as int;
    let el = x.len() as int;
    let cl = spec_entry_comment(e).len() as int;
    &&& idx + 46 + nl + el + cl <= buf.len()
    &&& u32_at(buf, idx) == CENTRAL_DIRECTORY_ENTRY_SIGNATURE
    &&& u16_at(buf, idx + 4) == e.version_made_by
    &&& u16_at(buf, idx + 6) == spec_version_needed_to_extract(e)
    &&& u16_at(buf, idx + 8) == e.general_purpose_flags
    &&& u16_at(buf, idx + 10) == e.compression_method
    &&& u16_at(buf, idx + 12) == e.last_mod_file_time
    &&& u16_at(buf, idx + 14) == e.last_mod_file_date
    &&& u32_at(buf, idx + 16) == e.crc32
    &&& u32_at(buf, idx + 20) == sat_u32(e.compressed_size as int)
    &&& u32_at(buf, idx + 24) == sat_u32(e.uncompressed_size as int)
    &&& u16_at(buf, idx + 28) == e.file_name_len
    &&& u16_at(buf, idx + 30) == e.extra_field_length
    &&& u16_at(buf, idx + 32) == spec_file_comment_length(e)
    &&& u16_at(buf, idx + 34) == e.file_disk_number as u16
    &&& u16_at(buf, idx + 36) == e.internal_file_attributes
    &&& u32_at(buf, idx + 38) == e.external_file_attributes
    &&& u32_at(buf, idx + 42) == sat_u32(e.offset as int)
    &&& buf.subrange(idx + 46, idx + 46 + nl) == e.file_name_as_bytes@
    &&& buf.subrange(idx + 46 + nl, idx + 46 + nl + el) == x
    &&& buf.subrange(idx + 46 + nl + el, idx + 46 + nl + el + cl) == spec_entry_comment(e)
}

/// A buffer that holds a central directory header holds each of its fields.
proof fn lemma_header_at(buf: Seq<u8>, idx: int, e: ArchiveFileEntry, x: Seq<u8>)
    requires
        0 <= idx,
        idx + spec_central_header(e, x).len() <= buf.len(),
        buf.subrange(idx, idx + spec_central_header(e, x).len()) == spec_central_header(e, x),
    ensures
        spec_header_at(buf, idx, e, x),
{
    let h = spec_central_header(e, x);
    let nl = e.file_name_as_bytes@.len() as int;
    let el = x.len() as int;
    lemma_central_header_layout(e, x);
    lemma_u32_field(buf, idx, h, 0, CENTRAL_DIRECTORY_ENTRY_SIGNATURE);
    lemma_u16_field(buf, idx, h, 4, e.version_made_by);
    lemma_u16_field(buf, idx, h, 6, spec_version_needed_to_extract(e));
    lemma_u16_field(buf, idx, h, 8, e.general_purpose_flags);
    lemma_u16_field(buf, idx, h, 10, e.compression_method);
    lemma_u16_field(buf, idx, h, 12, e.last_mod_file_time);
    lemma_u16_field(buf, idx, h, 14, e.last_mod_file_date);
    lemma_u32_field(buf, idx, h, 16, e.crc32);
    lemma_u32_field(buf, idx, h, 20, sat_u32(e.compressed_size as int));
    lemma_u32_field(buf, idx, h, 24, sat_u32(e.uncompressed_size as int));
    lemma_u16_field(buf, idx, h, 28, e.file_name_len);
    lemma_u16_field(buf, idx, h, 30, e.extra_field_length);
    lemma_u16_field(buf, idx, h, 32, spec_file_comment_length(e));
    lemma_u16_field(buf, idx, h, 34, e.file_disk_number as u16);
    lemma_u16_field(buf, idx, h, 36, e.internal_file_attributes);
    lemma_u32_field(buf, idx, h, 38, e.external_file_attributes);
    lemma_u32_field(buf, idx, h, 42, sat_u32(e.offset as int));
    lemma_part(buf, idx, h, 46, 46 + nl);
    lemma_part(buf, idx, h, 46 + nl, 46 + nl + el);
    lemma_part(buf, idx, h, 46 + nl + el, h.len() as int);
}

/// The central extra field of an entry that reads back whole parses without overrun, changes
/// none of the entry's sizes, and gives back its timestamp field reduced to its central form.
proof fn lemma_written_extra_parses(e: ArchiveFileEntry)
    requires
        spec_readable_entry(e),
    ensures
        ({
            let x = spec_records_central_bytes(e.extra_fields@, e);
            &&& x.len() <= 9
            &&& !spec_extra_overruns(x, 0)
            &&& forall|b: ArchiveFileEntry| #[trigger] spec_extra_apply(x, 0, b) == b
            &&& forall|fs: Seq<ExtraFieldRecord>|
                #[trigger] spec_extra_records(x, 0, fs) ==> fs == spec_read_back_fields(e.extra_fields@)
        }),
{
    let x = spec_records_central_bytes(e.extra_fields@, e);
    lemma_written_fields_bytes(e);
    if let Some(t) = spec_last_timestamp(e.extra_fields@) {
        lemma_timestamp_field_sizes(t.modify_time, t.access_time, t.create_time);
        if t.flags != 0 {
            let size = spec_ts_central_data_size(t);
            lemma_le_u16_roundtrip(0x5455);
            lemma_le_u16_roundtrip(size);
            assert(x.subrange(0, 2) =~= le_u16(0x5455));
            assert(x.subrange(2, 4) =~= le_u16(size));
            assert(u16_at(x, 0) == 0x5455);
            assert(u16_at(x, 2) == size);
            assert(t.modify_time is Some || t.access_time is Some || t.create_time is Some) by {
                if t.modify_time is None && t.access_time is None && t.create_time is None {
                    assert(spec_ts_central_bytes(t).len() > 0);
                }
            }
            lemma_timestamp_central_roundtrip(t.modify_time, t.access_time, t.create_time);
            assert(x.skip(4) =~= x.subrange(4, x.len() as int));
            assert(!spec_extra_overruns(x, x.len() as int));
            assert forall|b: ArchiveFileEntry| #[trigger] spec_extra_apply(x, 0, b) == b by {
                assert(spec_extra_apply(x, x.len() as int, b) == b);
            }
            assert forall|fs: Seq<ExtraFieldRecord>|
                #[trigger] spec_extra_records(x, 0, fs) implies fs == spec_read_back_fields(e.extra_fields@) by {
                assert(spec_extra_records(x, x.len() as int, fs.drop_first()));
                assert(fs =~= spec_read_back_fields(e.extra_fields@));
            }
        } else {
            assert(spec_ts_central_bytes(t) =~= Seq::<u8>::empty());
        }
    }
}

/// Reading the central directory header of an entry that reads back whole ends right after it.
#[verifier::rlimit(30)]
proof fn lemma_entry_status(buf: Seq<u8>, idx: int, e: ArchiveFileEntry)
    requires
        spec_readable_entry(e),
        0 <= idx,
        spec_header_at(buf, idx, spec_cd_entry(e), spec_records_central_bytes(e.extra_fields@, e)),
    ensures
        spec_entry_status(buf, idx) == EntryStatus::Read(
            idx + 46 + e.file_name_as_bytes@.len() + spec_records_central_bytes(e.extra_fields@, e).len()
                + spec_entry_comment(e).len(),
        ),
{
    let x = spec_records_central_bytes(e.extra_fields@, e);
    lemma_written_extra_parses(e);
    assert(spec_entry_extra(buf, idx) == x);
    reveal(spec_entry_status);
}

/// An entry read from the central directory header of an entry that reads back whole carries
/// everything that the header records.
#[verifier::rlimit(30)]
proof fn lemma_entry_parsed(buf: Seq<u8>, idx: int, e: ArchiveFileEntry, r: ArchiveFileEntry)
    requires
        spec_readable_entry(e),
        0 <= idx,
        spec_header_at(buf, idx, spec_cd_entry(e), spec_records_central_bytes(e.extra_fields@, e)),
        spec_entry_parsed(buf, idx, r),
    ensures
        spec_reads_as(r, e),
{
    let x = spec_records_central_bytes(e.extra_fields@, e);
    lemma_written_extra_parses(e);
    assert(spec_entry_extra(buf, idx) == x);
    reveal(spec_entry_parsed);
    let base = ArchiveFileEntry {
        uncompressed_size: u32_at(buf, idx + 24) as u64,
        compressed_size: u32_at(buf, idx + 20) as u64,
        offset: u32_at(buf, idx + 42) as u64,
        file_disk_number: u16_at(buf, idx + 34) as u32,
        ..r
    };
    assert(spec_extra_apply(x, 0, base) == base);
    assert(spec_extra_records(x, 0, r.extra_fields@));
    assert(spec_file_comment_length(spec_cd_entry(e)) == spec_entry_comment(e).len());
    if spec_entry_comment(e).len() == 0 {
        assert(spec_entry_comment(r) =~= spec_entry_comment(e));
    }
}

/// The central directory header of an entry that reads back whole is read, wherever it lies,
/// as an entry that carries everything it records.
proof fn lemma_entry_reads_back(buf: Seq<u8>, idx: int, e: ArchiveFileEntry)
    requires
        spec_readable_entry(e),
        0 <= idx,
        idx + spec_cd_header(e).len() <= buf.len(),
        buf.subrange(idx, idx + spec_cd_header(e).len()) == spec_cd_header(e),
    ensures
        spec_entry_status(buf, idx) == EntryStatus::Read(idx + spec_cd_header(e).len()),
        forall|r: ArchiveFileEntry| spec_entry_parsed(buf, idx, r) ==> spec_reads_as(r, e),
{
    let x = spec_records_central_bytes(e.extra_fields@, e);
    let e2 = spec_cd_entry(e);
    reveal(spec_cd_header);
    lemma_written_extra_parses(e);
    lemma_header_at(buf, idx, e2, x);
    lemma_central_header_layout(e2, x);
    lemma_entry_status(buf, idx, e);
    assert forall|r: ArchiveFileEntry| spec_entry_parsed(buf, idx, r) implies spec_reads_as(r, e) by {
        lemma_entry_parsed(buf, idx, e, r);
    }
}

/// The offsets at which the central directory headers of `es`, laid one after another from
/// `idx`, start.
pub open spec fn spec_header_starts(idx: int, es: Seq<ArchiveFileEntry>) -> Seq<int>
    decreases es.len(),
{
    if es.len() == 0 {
        Seq::empty()
    } else {
        seq![idx] + spec_header_starts(idx + spec_cd_header(es[0]).len(), es.drop_first())
    }
}

/// One offset per header.
proof fn lemma_starts_len(idx: int, es: Seq<ArchiveFileEntry>)
    ensures
        spec_header_starts(idx, es).len() == es.len(),
    decreases es.len(),
{
    if es.len() > 0 {
        lemma_starts_len(idx + spec_cd_header(es[0]).len(), es.drop_first());
    }
}

/// A central directory is the header of its first entry followed by the central directory of
/// the others.
proof fn lemma_directory_front(es: Seq<ArchiveFileEntry>)
    requires
        es.len() > 0,
    ensures
        spec_central_directory(es) == spec_cd_header(es[0]) + spec_central_directory(es.drop_first()),
    decreases es.len(),
{
    if es.len() == 1 {
        assert(es.drop_last() =~= Seq::<ArchiveFileEntry>::empty());
        assert(es.drop_first() =~= Seq::<ArchiveFileEntry>::empty());
        assert(spec_central_directory(es) =~= spec_cd_header(es[0]) + spec_central_directory(es.drop_first()));
    } else {
        lemma_directory_front(es.drop_last());
        assert(es.drop_first().drop_last() =~= es.drop_last().drop_first());
        assert(es.drop_last()[0] == es[0]);
        assert(es.drop_first().last() == es.last());
        assert(spec_central_directory(es) =~= spec_cd_header(es[0]) + spec_central_directory(es.drop_first()));
    }
}

/// A central directory header is at least as long as a base header.
proof fn lemma_header_longer(e: ArchiveFileEntry)
    ensures
        spec_cd_header(e).len() >= 46,
{
    reveal(spec_cd_header);
    lemma_central_header_layout(spec_cd_entry(e), spec_records_central_bytes(e.extra_fields@, e));
}

/// A buffer whose tail from `idx` is `a + b` holds `a` at `idx` and `b` right after it.
proof fn lemma_split(buf: Seq<u8>, idx: int, a: Seq<u8>, b: Seq<u8>)
    requires
        0 <= idx <= buf.len(),
        buf.subrange(idx, buf.len() as int) == a + b,
    ensures
        idx + a.len() <= buf.len(),
        buf.subrange(idx, idx + a.len()) == a,
        buf.subrange(idx + a.len(), buf.len() as int) == b,
{
    let t = buf.subrange(idx, buf.len() as int);
    assert(t.len() == a.len() + b.len());
    assert forall|i: int| 0 <= i < a.len() implies buf.subrange(idx, idx + a.len())[i] == a[i] by {
        assert(t[i] == (a + b)[i]);
    }
    assert forall|i: int| 0 <= i < b.len() implies buf.subrange(idx + a.len(), buf.len() as int)[i] == b[i] by {
        assert(t[a.len() + i] == (a + b)[a.len() + i]);
    }
    assert(buf.subrange(idx, idx + a.len()) =~= a);
    assert(buf.subrange(idx + a.len(), buf.len() as int) =~= b);
}

/// The entries after the first of a sequence of entries that read back whole read back whole.
proof fn lemma_rest_readable(es: Seq<ArchiveFileEntry>)
    requires
        es.len() > 0,
        forall|k: int| 0 <= k < es.len() ==> spec_readable_entry(#[trigger] es[k]),
    ensures
        forall|k: int| 0 <= k < es.drop_first().len() ==> spec_readable_entry(#[trigger] es.drop_first()[k]),
{
    assert forall|k: int| 0 <= k < es.drop_first().len() implies spec_readable_entry(#[trigger] es.drop_first()[k]) by {
        assert(es.drop_first()[k] == es[k + 1]);
    }
}

/// Whether every header of `es` but the first is longer than a base header: it has a name, an
/// extra field or a comment.
pub open spec fn spec_later_headers_longer(es: Seq<ArchiveFileEntry>) -> bool {
    forall|k: int| 1 <= k < es.len() ==> #[trigger] spec_cd_header(es[k]).len() > CENTRAL_DIRECTORY_ENTRY_BASE_SIZE
}

/// Reading a buffer that ends with the central directory of entries that read back whole, from
/// where that directory starts, finds one entry per header.
proof fn lemma_scan_outcome(buf: Seq<u8>, idx: int, es: Seq<ArchiveFileEntry>)
    requires
        es.len() > 0,
        forall|k: int| 0 <= k < es.len() ==> spec_readable_entry(#[trigger] es[k]),
        spec_later_headers_longer(es),
        0 <= idx <= buf.len(),
        buf.subrange(idx, buf.len() as int) == spec_central_directory(es),
    ensures
        spec_scan(buf, idx) == ScanOutcome::Entries(spec_header_starts(idx, es)),
        spec_header_starts(idx, es).len() == es.len(),
    decreases es.len(),
{
    lemma_directory_front(es);
    let h0 = spec_cd_header(es[0]);
    let rest = es.drop_first();
    assert(spec_readable_entry(es[0]));
    lemma_split(buf, idx, h0, spec_central_directory(rest));
    lemma_entry_reads_back(buf, idx, es[0]);
    let end = idx + h0.len();
    if es.len() == 1 {
        assert(rest =~= Seq::<ArchiveFileEntry>::empty());
        assert(spec_header_starts(end, rest) == Seq::<int>::empty());
        assert(spec_header_starts(idx, es) =~= seq![idx]);
    } else {
        lemma_rest_readable(es);
        lemma_directory_front(rest);
        assert(spec_readable_entry(rest[0]));
        assert(rest[0] == es[1]);
        assert(spec_cd_header(es[1]).len() > CENTRAL_DIRECTORY_ENTRY_BASE_SIZE);
        lemma_header_longer(es[0]);
        assert forall|k: int| 1 <= k < rest.len() implies #[trigger] spec_cd_header(rest[k]).len()
            > CENTRAL_DIRECTORY_ENTRY_BASE_SIZE by {
            assert(rest[k] == es[k + 1]);
        }
        lemma_scan_outcome(buf, end, rest);
    }
}

/// The entry read at the `k`-th header start of such a buffer carries everything that the
/// `k`-th header records.
proof fn lemma_scan_entry(buf: Seq<u8>, idx: int, es: Seq<ArchiveFileEntry>, k: int, r: ArchiveFileEntry)
    requires
        0 <= k < es.len(),
        k < spec_header_starts(idx, es).len(),
        forall|j: int| 0 <= j < es.len() ==> spec_readable_entry(#[trigger] es[j]),
        0 <= idx <= buf.len(),
        buf.subrange(idx, buf.len() as int) == spec_central_directory(es),
        spec_entry_parsed(buf, spec_header_starts(idx, es)[k], r),
    ensures
        spec_reads_as(r, es[k]),
    decreases k,
{
    lemma_directory_front(es);
    let h0 = spec_cd_header(es[0]);
    let rest = es.drop_first();
    assert(spec_readable_entry(es[0]));
    lemma_split(buf, idx, h0, spec_central_directory(rest));
    if k == 0 {
        lemma_entry_reads_back(buf, idx, es[0]);
    } else {
        lemma_rest_readable(es);
        lemma_starts_len(idx + h0.len(), rest);
        assert(spec_header_starts(idx, es) == seq![idx] + spec_header_starts(idx + h0.len(), rest));
        assert(spec_header_starts(idx, es)[k] == spec_header_starts(idx + h0.len(), rest)[k - 1]);
        assert(es[k] == rest[k - 1]);
        lemma_scan_entry(buf, idx + h0.len(), rest, k - 1, r);
    }
}

/// A central directory made of the headers of entries that read back whole (and in which no
/// header but the first is a bare base header) is read as one entry per header, in order, each
/// carrying everything that its header records.
pub proof fn lemma_directory_reads_back(es: Seq<ArchiveFileEntry>)
    requires
        es.len() > 0,
        forall|k: int| 0 <= k < es.len() ==> spec_readable_entry(#[trigger] es[k]),
        spec_later_headers_longer(es),
    ensures
        spec_scan(spec_central_directory(es), 0) matches ScanOutcome::Entries(starts) && {
            &&& starts.len() == es.len()
            &&& forall|k: int, r: ArchiveFileEntry|
                0 <= k < es.len() && #[trigger] spec_entry_parsed(spec_central_directory(es), starts[k], r)
                    ==> spec_reads_as(r, es[k])
        },
{
    let cd = spec_central_directory(es);
    assert(cd.subrange(0, cd.len() as int) =~= cd);
    lemma_scan_outcome(cd, 0, es);
    let starts = spec_header_starts(0, es);
    assert forall|k: int, r: ArchiveFileEntry|
        0 <= k < es.len() && #[trigger] spec_entry_parsed(cd, starts[k], r) implies spec_reads_as(r, es[k]) by {
        lemma_scan_entry(cd, 0, es, k, r);
    }
}

/// Reading central directory entries from a record that does not start with the central
/// directory header signature fails with a bad signature, whatever follows it.
pub proof fn lemma_bad_signature_refused(buf: Seq<u8>, idx: int)
    requires
        0 <= idx,
        idx + 4 <= buf.len(),
        u32_at(buf, idx) != CENTRAL_DIRECTORY_ENTRY_SIGNATURE,
    ensures
        spec_scan(buf, idx) is BadSignature,
{
    reveal(spec_entry_status);
    assert(spec_entry_status(buf, idx) is BadSignature);
    reveal_with_fuel(spec_scan, 1);
}

/// The bytes of an archive whose entries `es` were written after `prefix`, the entries' local
/// headers and data, and whose central directory and end records were then written from the
/// end fields `old_end`.
pub open spec fn spec_written_archive(prefix: Seq<u8>, es: Seq<ArchiveFileEntry>, old_end: CentralDirectoryEnd) -> Seq<u8> {
    let cd = spec_central_directory(es);
    let big_file = spec_has_big_file(es);
    prefix + cd + spec_archive_end(
        spec_end_fields(old_end, es.len() as u64, prefix.len() as u64, cd.len() as u64, big_file),
        big_file,
    )
}

/// The bytes of an optional archive comment.
pub open spec fn spec_archive_comment_bytes(comment: Option<Vec<u8>>) -> Seq<u8> {
    match comment {
        Some(c) => c@,
        None => Seq::empty(),
    }
}

/// Where each field of a classic end record whose comment is shorter than 65536 bytes lies.
proof fn lemma_end_record_layout(e: CentralDirectoryEnd)
    requires
        spec_archive_comment_bytes(e.archive_comment).len() < 0x1_0000,
    ensures
        ({
            let r = spec_end_record(e);
            let c = spec_archive_comment_bytes(e.archive_comment);
            &&& r.len() == 22 + c.len()
            &&& r.subrange(0, 4) == le_u32(CENTRAL_DIRECTORY_END_SIGNATURE)
            &&& r.subrange(8, 10) == le_u16(sat_u16(e.total_number_of_entries_on_this_disk as int))
            &&& r.subrange(10, 12) == le_u16(sat_u16(e.total_number_of_entries_in_the_central_directory as int))
            &&& r.subrange(12, 16) == le_u32(sat_u32(e.central_directory_size as int))
            &&& r.subrange(16, 20) == le_u32(sat_u32(e.offset_of_start_of_central_directory as int))
            &&& r.subrange(20, 22) == le_u16(c.len() as u16)
            &&& r.subrange(22, r.len() as int) == c
        }),
{
    let r = spec_end_record(e);
    let c = spec_archive_comment_bytes(e.archive_comment);
    assert(spec_comment_field(e.archive_comment) =~= le_u16(c.len() as u16) + c);
    assert(r.subrange(0, 4) =~= le_u32(CENTRAL_DIRECTORY_END_SIGNATURE));
    assert(r.subrange(8, 10) =~= le_u16(sat_u16(e.total_number_of_entries_on_this_disk as int)));
    assert(r.subrange(10, 12) =~= le_u16(sat_u16(e.total_number_of_entries_in_the_central_directory as int)));
    assert(r.subrange(12, 16) =~= le_u32(sat_u32(e.central_directory_size as int)));
    assert(r.subrange(16, 20) =~= le_u32(sat_u32(e.offset_of_start_of_central_directory as int)));
    assert(r.subrange(20, 22) =~= le_u16(c.len() as u16));
    assert(r.subrange(22, r.len() as int) =~= c);
}

/// Searching down from `start` finds the signature at `p`, the first one met.
proof fn lemma_search_finds(a: Seq<u8>, start: int, bound: int, p: int)
    requires
        0 <= bound <= p <= start,
        u32_at(a, p) == CENTRAL_DIRECTORY_END_SIGNATURE,
        forall|q: int| p < q <= start ==> #[trigger] u32_at(a, q) != CENTRAL_DIRECTORY_END_SIGNATURE,
    ensures
        spec_eocd_search(a, start, bound) == Some(p),
    decreases start - p,
{
    if start > p {
        assert(u32_at(a, start) != CENTRAL_DIRECTORY_END_SIGNATURE);
        lemma_search_finds(a, start - 1, bound, p);
    }
}

/// The end record of such an archive is found where it was written, and holds the entry
/// count, the directory size and offset, and the comment.
#[verifier::rlimit(30)]
proof fn lemma_written_end_record(prefix: Seq<u8>, es: Seq<ArchiveFileEntry>, old_end: CentralDirectoryEnd)
    requires
        0 < es.len() < 0xFFFF,
        !spec_has_big_file(es),
        prefix.len() < 0xFFFF_FFFF,
        spec_central_directory(es).len() < 0xFFFF_FFFF,
        spec_archive_comment_bytes(old_end.archive_comment).len() < 0x1_0000,
        forall|q: int|
            prefix.len() + spec_central_directory(es).len() < q <= spec_written_archive(prefix, es, old_end).len() - 22
                ==> #[trigger] u32_at(spec_written_archive(prefix, es, old_end), q) != CENTRAL_DIRECTORY_END_SIGNATURE,
    ensures
        ({
            let cd = spec_central_directory(es);
            let a = spec_written_archive(prefix, es, old_end);
            let p = (prefix.len() + cd.len()) as int;
            let b = a.subrange(p + 4, a.len() as int);
            let c = spec_archive_comment_bytes(old_end.archive_comment);
            &&& a.len() >= END_OF_CENTRAL_DIRECTORY_SIZE
            &&& spec_eocd_search(a, a.len() - END_OF_CENTRAL_DIRECTORY_SIZE, spec_search_bound(a.len() as int)) == Some(p)
            &&& b.len() == 18 + c.len()
            &&& u16_at(b, 16) == c.len()
            &&& u16_at(b, 6) == es.len()
            &&& u32_at(b, 8) == cd.len()
            &&& u32_at(b, 12) == prefix.len()
            &&& b.subrange(18, 18 + c.len() as int) == c
            &&& a.subrange(prefix.len() as int, p) == cd
        }),
{
    let cd = spec_central_directory(es);
    let end = spec_end_fields(old_end, es.len() as u64, prefix.len() as u64, cd.len() as u64, false);
    let a = spec_written_archive(prefix, es, old_end);
    let c = spec_archive_comment_bytes(old_end.archive_comment);
    assert(!spec_needs_zip64(end));
    assert(spec_archive_end(end, false) =~= spec_end_record(end));
    assert(a == prefix + cd + spec_end_record(end));
    lemma_end_record_layout(end);
    let er = spec_end_record(end);
    let p: int = (prefix.len() + cd.len()) as int;
    assert(a.len() == p + 22 + c.len());
    assert(a.subrange(p, a.len() as int) =~= er);
    assert(a.subrange(prefix.len() as int, p) =~= cd);
    lemma_part(a, p, er, 0, 4);
    lemma_le_u32_roundtrip(CENTRAL_DIRECTORY_END_SIGNATURE);
    assert(u32_at(a, p) == CENTRAL_DIRECTORY_END_SIGNATURE);
    lemma_search_finds(a, a.len() - END_OF_CENTRAL_DIRECTORY_SIZE, spec_search_bound(a.len() as int), p);
    let b = a.subrange(p + 4, a.len() as int);
    assert(b =~= er.subrange(4, er.len() as int));
    lemma_le_u16_roundtrip(c.len() as u16);
    lemma_le_u16_roundtrip(es.len() as u16);
    lemma_le_u32_roundtrip(cd.len() as u32);
    lemma_le_u32_roundtrip(prefix.len() as u32);
    assert(b.subrange(16, 18) =~= er.subrange(20, 22));
    assert(b.subrange(12, 16) =~= er.subrange(16, 20));
    assert(b.subrange(8, 12) =~= er.subrange(12, 16));
    assert(b.subrange(6, 8) =~= er.subrange(10, 12));
    assert(b.subrange(18, 18 + c.len() as int) =~= er.subrange(22, er.len() as int));
}

/// Reading back an archive whose entries were written after `prefix` and whose central
/// directory and end record were then written gives one entry per written entry, in order,
/// each carrying everything that its central directory header records, and the end record's
/// entry count, directory size, offset and comment: provided that the archive has at least one
/// entry, that no entry but the first has a bare 46-byte header (empty name, no extra field, no
/// comment), that nothing needs the ZIP64 format, and that no signature of an end record stands
/// in its last bytes past the real one (within the archive comment). Reading such an archive
/// never runs past its end.
pub proof fn lemma_archive_reads_back(
    prefix: Seq<u8>,
    es: Seq<ArchiveFileEntry>,
    old_end: CentralDirectoryEnd,
    r: Result<ArchiveReader, ArchiveError>,
)
    requires
        0 < es.len() < 0xFFFF,
        forall|k: int| 0 <= k < es.len() ==> spec_readable_entry(#[trigger] es[k]),
        spec_later_headers_longer(es),
        prefix.len() < 0xFFFF_FFFF,
        spec_central_directory(es).len() < 0xFFFF_FFFF,
        spec_archive_comment_bytes(old_end.archive_comment).len() < 0x1_0000,
        forall|q: int|
            prefix.len() + spec_central_directory(es).len() < q <= spec_written_archive(prefix, es, old_end).len() - 22
                ==> #[trigger] u32_at(spec_written_archive(prefix, es, old_end), q) != CENTRAL_DIRECTORY_END_SIGNATURE,
        spec_read_result(spec_written_archive(prefix, es, old_end), r),
    ensures
        !spec_read_overruns(spec_written_archive(prefix, es, old_end)),
        r matches Ok(reader) && {
            &&& reader.file_entries@.len() == es.len()
            &&& forall|k: int|
                0 <= k < es.len() ==> spec_reads_as(#[trigger] reader.file_entries@[k], es[k])
            &&& reader.central_directory_end.total_number_of_entries_in_the_central_directory
                == es.len()
            &&& reader.central_directory_end.central_directory_size == spec_central_directory(es).len()
            &&& reader.central_directory_end.offset_of_start_of_central_directory == prefix.len()
            &&& spec_archive_comment_bytes(reader.central_directory_end.archive_comment)
                == spec_archive_comment_bytes(old_end.archive_comment)
        },
{
    let cd = spec_central_directory(es);
    let a = spec_written_archive(prefix, es, old_end);
    let p: int = (prefix.len() + cd.len()) as int;
    assert(!spec_has_big_file(es)) by {
        if spec_has_big_file(es) {
            let k = choose|k: int| 0 <= k < es.len() && spec_big_file(#[trigger] es[k]);
            assert(spec_readable_entry(es[k]));
        }
    }
    lemma_written_end_record(prefix, es, old_end);
    assert(a.subrange(prefix.len() as int, p) =~= cd);
    assert(cd.subrange(0, cd.len() as int) =~= cd);
    lemma_scan_outcome(cd, 0, es);
    assert(spec_read_archive(a) == ReadOutcome::Directory(p, prefix.len() as int, cd.len() as int, spec_scan(cd, 0)));
    let starts = spec_header_starts(0, es);
    let reader = r->Ok_0;
    assert forall|k: int| 0 <= k < es.len() implies spec_reads_as(#[trigger] reader.file_entries@[k], es[k]) by {
        assert(spec_entry_parsed(cd, starts[k], reader.file_entries@[k]));
        lemma_scan_entry(cd, 0, es, k, reader.file_entries@[k]);
    }
}

/// An entry that a writer records reads back whole when its method is known, its name and
/// comment take fewer than 65536 bytes, and its sizes and offset fit the classic fields.
pub proof fn lemma_recorded_entry_readable(
    header: (crate::archive_common::ArchiveDescriptor, ArchiveFileEntry, Option<ExtraFieldZIP64ExtendedInformation>),
    name: Seq<u8>,
    options: FileOptions,
    compressor: CompressionMethod,
    offset: u64,
    base_flags: u16,
    is_dir: bool,
    date: u16,
    time: u16,
    modify_time: Option<i32>,
    crc32: u32,
    compressed_size: u64,
    uncompressed_size: u64,
    is_text: bool,
    recorded: ArchiveFileEntry,
)
    requires
        spec_file_header(header, name, options, compressor, offset, base_flags, is_dir, date, time, modify_time),
        spec_recorded(recorded, spec_filled_entry(header.1, crc32, compressed_size, uncompressed_size, is_text)),
        !(compressor is Unknown),
        name.len() < 0x1_0000,
        match spec_comment_bytes(options.comment) {
            Some(c) => c.len() < 0x1_0000,
            None => true,
        },
        compressed_size < 0xFFFF_FFFF,
        uncompressed_size < 0xFFFF_FFFF,
        offset < 0xFFFF_FFFF,
    ensures
        spec_readable_entry(recorded),
{
    let e = spec_filled_entry(header.1, crc32, compressed_size, uncompressed_size, is_text);
    lemma_zip_code_roundtrip(compressor);
    assert(!spec_is_zip64(e));
    assert(recorded.extra_fields@ == e.extra_fields@);
    let fs = e.extra_fields@;
    assert(spec_written_fields(fs));
}

/// Setting the deflate option bits keeps the data descriptor bit.
pub(crate) proof fn lemma_update_keeps_streaming(m: CompressionMethod, flag: u16, level: Level)
    requires
        spec_is_streaming(flag),
    ensures
        spec_is_streaming(spec_update_flag(m, flag, level)),
{
    assert((flag | 4) & 8 != 0 && (flag | 2) & 8 != 0) by (bit_vector)
        requires
            flag & 8 != 0,
    ;
}

/// What a streaming writer appends for one entry is its local header, which holds no extra
/// field, its data and a 16-byte data descriptor: 46 bytes more than its name and data.
pub proof fn lemma_streamed_entry_length(
    header: (crate::archive_common::ArchiveDescriptor, ArchiveFileEntry, Option<ExtraFieldZIP64ExtendedInformation>),
    name: Seq<u8>,
    options: FileOptions,
    compressor: CompressionMethod,
    offset: u64,
    base_flags: u16,
    date: u16,
    time: u16,
    modify_time: Option<i32>,
    data: Seq<u8>,
    crc32: u32,
    uncompressed_size: u64,
    is_text: bool,
)
    requires
        spec_file_header(header, name, options, compressor, offset, base_flags, false, date, time, modify_time),
        spec_is_streaming(base_flags),
        name.len() < 0x1_0000,
        data.len() < 0xFFFF_FFFF,
        uncompressed_size < 0xFFFF_FFFF,
        offset < 0xFFFF_FFFF,
    ensures
        spec_entry_bytes(
            header.0@,
            data,
            spec_filled_entry(header.1, crc32, data.len() as u64, uncompressed_size, is_text),
            header.2 is Some,
        ).len() == 46 + name.len() + data.len(),
{
    lemma_update_keeps_streaming(compressor, base_flags, options.compression_level);
    let e = spec_filled_entry(header.1, crc32, data.len() as u64, uncompressed_size, is_text);
    assert(spec_is_streaming(e.general_purpose_flags));
    assert(!spec_is_zip64(e));
    assert(header.0@.len() == 30 + name.len());
    assert(crate::compress::common::spec_data_descriptor(e).len() == 16);
}

/// The bytes that the parts `parts` take one after another.
pub open spec fn spec_joined(parts: Seq<Seq<u8>>) -> Seq<u8>
    decreases parts.len(),
{
    if parts.len() == 0 {
        Seq::empty()
    } else {
        spec_joined(parts.drop_last()) + parts.last()
    }
}

/// The central directory header of an entry without extra field or comment is 46 bytes longer
/// than its name.
proof fn lemma_plain_header_length(e: ArchiveFileEntry)
    requires
        e.extra_fields@.len() == 0,
        e.file_comment is None,
    ensures
        spec_cd_header(e).len() == 46 + e.file_name_as_bytes@.len(),
{
    reveal(spec_cd_header);
    reveal_with_fuel(spec_records_central_bytes, 1);
    lemma_central_header_layout(spec_cd_entry(e), spec_records_central_bytes(e.extra_fields@, e));
}

/// The lengths of the entries' parts and central directory headers add up to what
/// `spec_entries_size` counts.
proof fn lemma_streamed_sizes(files: Seq<(Seq<u8>, usize)>, es: Seq<ArchiveFileEntry>, parts: Seq<Seq<u8>>)
    requires
        es.len() == files.len(),
        parts.len() == files.len(),
        forall|k: int|
            0 <= k < es.len() ==> {
                &&& (#[trigger] es[k]).file_name_as_bytes@ == files[k].0
                &&& es[k].extra_fields@.len() == 0
                &&& es[k].file_comment is None
                &&& parts[k].len() == 46 + files[k].0.len() + files[k].1
            },
    ensures
        spec_joined(parts).len() + spec_central_directory(es).len() == spec_entries_size(files),
    decreases es.len(),
{
    if es.len() > 0 {
        let n = (es.len() - 1) as int;
        assert(es[n].file_name_as_bytes@ == files[n].0);
        lemma_plain_header_length(es[n]);
        assert forall|k: int| 0 <= k < es.drop_last().len() implies {
            &&& (#[trigger] es.drop_last()[k]).file_name_as_bytes@ == files.drop_last()[k].0
            &&& es.drop_last()[k].extra_fields@.len() == 0
            &&& es.drop_last()[k].file_comment is None
            &&& parts.drop_last()[k].len() == 46 + files.drop_last()[k].0.len() + files.drop_last()[k].1
        } by {
            assert(es.drop_last()[k] == es[k]);
            assert(files.drop_last()[k] == files[k]);
            assert(parts.drop_last()[k] == parts[k]);
        }
        lemma_streamed_sizes(files.drop_last(), es.drop_last(), parts.drop_last());
    }
}

/// A streamed archive whose entries carry no extra field and no comment, and which has no
/// archive comment and needs no ZIP64 record (fewer than 65535 entries, no size of 4 GiB or
/// more), is as long as `archive_size` computes from the
/// entries' names and sizes, where `parts` are the bytes written for each entry (see
/// `lemma_streamed_entry_length`) and each size is that of the entry's stored data.
pub proof fn lemma_streamed_archive_size(
    files: Seq<(Seq<u8>, usize)>,
    es: Seq<ArchiveFileEntry>,
    parts: Seq<Seq<u8>>,
    old_end: CentralDirectoryEnd,
)
    requires
        es.len() == files.len(),
        parts.len() == files.len(),
        forall|k: int|
            0 <= k < es.len() ==> {
                &&& (#[trigger] es[k]).file_name_as_bytes@ == files[k].0
                &&& es[k].extra_fields@.len() == 0
                &&& es[k].file_comment is None
                &&& parts[k].len() == 46 + files[k].0.len() + files[k].1
            },
        es.len() < 0xFFFF,
        spec_joined(parts).len() < 0xFFFF_FFFF,
        spec_central_directory(es).len() < 0xFFFF_FFFF,
        spec_archive_comment_bytes(old_end.archive_comment).len() == 0,
        !spec_has_big_file(es),
    ensures
        spec_written_archive(spec_joined(parts), es, old_end).len() == spec_entries_size(files)
            + END_OF_CENTRAL_DIRECTORY_SIZE,
{
    lemma_streamed_sizes(files, es, parts);
    let cd = spec_central_directory(es);
    let end = spec_end_fields(old_end, es.len() as u64, spec_joined(parts).len() as u64, cd.len() as u64, false);
    assert(!spec_needs_zip64(end));
    assert(spec_archive_end(end, false) =~= spec_end_record(end));
    lemma_end_record_layout(end);
}

} // verus!

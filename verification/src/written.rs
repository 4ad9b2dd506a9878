//! Laws on the bytes that the archive writers write.
use vstd::prelude::*;

use crate::archive_common::{spec_comment_field, spec_end_record, u16_at, ArchiveDescriptor, ArchiveFileEntry, ExtraFieldZIP64ExtendedInformation};
use crate::archive_common::spec_is_zip64;
use crate::compress::common::{
    spec_archive_tail, spec_comment_set, spec_cut_comment, spec_data_descriptor, spec_file_header,
    spec_file_sizes_update, spec_filled_entry, spec_is_streaming, spec_patch, spec_tail_end_fields,
    spec_write_entry, SubZipArchiveData,
};
use crate::compress::standard::archive::{spec_appended, ZipArchive};
use crate::compress::standard::compressor::{spec_compressed, CompressedPayload};
use crate::compress::FileOptions;
use crate::compression::{CompressionMethod, Level};
use crate::constants::{DATA_DESCRIPTOR_SIGNATURE, EXTENDED_LOCAL_HEADER_FLAG, LOCAL_FILE_HEADER_SIGNATURE};
use crate::encoding::{le_u16, le_u32, lemma_le_u16_roundtrip, lemma_le_u32_roundtrip};
use crate::error::ArchiveError;

verus! {

/// Setting the archive comment writes nothing and keeps the entries; the records that end the
/// archive afterwards end with the new comment, cut to 65535 bytes, after its length, whatever
/// comment was set before.
pub proof fn lemma_archive_comment_written(
    before: SubZipArchiveData,
    written_before: u64,
    after: SubZipArchiveData,
    written_after: u64,
    comment: Seq<u8>,
)
    requires
        spec_comment_set(before, written_before, after, written_after, comment),
    ensures
        written_after == written_before,
        after.spec_files() == before.spec_files(),
        ({
            let tail = spec_archive_tail(after, written_after);
            let c = spec_cut_comment(comment);
            &&& tail.len() >= c.len() + 2
            &&& tail.subrange(tail.len() - c.len() - 2, tail.len() as int) == le_u16(c.len() as u16)
                + c
        }),
{
    let e = spec_tail_end_fields(after, written_after);
    let c = spec_cut_comment(comment);
    assert(e.archive_comment == after.spec_end().archive_comment);
    let f = spec_comment_field(e.archive_comment);
    lemma_le_u16_roundtrip(c.len() as u16);
    assert(f =~= le_u16(c.len() as u16) + c);
    let r = spec_end_record(e);
    assert(r.subrange(r.len() - f.len(), r.len() as int) =~= f);
    let tail = spec_archive_tail(after, written_after);
    assert(tail.subrange(tail.len() - f.len(), tail.len() as int) =~= r.subrange(
        r.len() - f.len(),
        r.len() as int,
    ));
}

/// Whether `b` is an entry written in one pass with name `name` and data `d`: a local header
/// with general purpose bit 3 set and the CRC-32 and both sizes zero, the name, the data, then a
/// data descriptor that starts with its signature.
pub open spec fn spec_streamed_layout(b: Seq<u8>, name: Seq<u8>, d: Seq<u8>) -> bool {
    let n = name.len() as int;
    &&& b.len() >= 30 + n + d.len() + 4
    &&& b.subrange(0, 4) == le_u32(LOCAL_FILE_HEADER_SIGNATURE)
    &&& spec_is_streaming(u16_at(b, 6))
    &&& b.subrange(14, 26) == Seq::new(12, |i: int| 0u8)
    &&& b.subrange(30, 30 + n) == name
    &&& b.subrange(30 + n, 30 + n + d.len()) == d
    &&& b.subrange(30 + n + d.len(), 30 + n + d.len() + 4) == le_u32(DATA_DESCRIPTOR_SIGNATURE)
}

/// An entry appended to an archive whose base flags ask for streamed sizes, as a writer started
/// with `new_streamable` has them, is written in one pass: its local header, with general purpose
/// bit 3 set and the CRC-32 and both sizes zero, then its name and its data, then a data
/// descriptor that starts with its signature. Appending keeps the base flags, so this holds of
/// every entry of such an archive.
pub proof fn lemma_streamed_entry_written(
    data_old: SubZipArchiveData,
    data_new: SubZipArchiveData,
    written_old: u64,
    written_new: u64,
    out_old: Seq<u8>,
    out_new: Seq<u8>,
    header: (ArchiveDescriptor, ArchiveFileEntry, Option<ExtraFieldZIP64ExtendedInformation>),
    compressed: Result<CompressedPayload, ArchiveError>,
    r: Result<(), ArchiveError>,
    name: Seq<u8>,
    options: FileOptions,
    compressor: CompressionMethod,
    date: u16,
    time: u16,
    modify_time: Option<i32>,
)
    requires
        spec_file_header(
            header,
            name,
            options,
            compressor,
            data_old.spec_archive_size(),
            data_old.spec_base_flags(),
            false,
            date,
            time,
            modify_time,
        ),
        spec_write_entry(data_old, data_new, written_old, written_new, out_old, out_new, header, compressed, r),
        spec_is_streaming(data_old.spec_base_flags()),
    ensures
        data_new.spec_base_flags() == data_old.spec_base_flags(),
        r is Ok ==> (compressed matches Ok(p) && {
            let b = out_new.subrange(out_old.len() as int, out_new.len() as int);
            let n = name.len() as int;
            let d = p.data@;
            &&& out_new.len() >= out_old.len()
            &&& out_new.subrange(0, out_old.len() as int) == out_old
            &&& spec_streamed_layout(b, name, d)
            &&& (d.len() < 0xFFFF_FFFF && p.uncompressed_size < 0xFFFF_FFFF
                && data_old.spec_archive_size() < 0xFFFF_FFFF) ==> b.len() == 30 + n + d.len() + 16
        }),
{
    if r is Ok {
        let p = compressed->Ok_0;
        let h = header.0@;
        let d = p.data@;
        let n = name.len() as int;
        let e = spec_filled_entry(header.1, p.crc32, d.len() as u64, p.uncompressed_size, p.is_text);
        crate::readback::lemma_update_keeps_streaming(
            compressor,
            data_old.spec_base_flags(),
            options.compression_level,
        );
        assert(spec_is_streaming(e.general_purpose_flags));
        let dd = spec_data_descriptor(e);
        let bytes = h + d + dd;
        assert(out_new == out_old + bytes);
        let b = out_new.subrange(out_old.len() as int, out_new.len() as int);
        assert(b =~= bytes);
        assert(out_new.subrange(0, out_old.len() as int) =~= out_old);
        lemma_le_u16_roundtrip(e.general_purpose_flags);
        lemma_le_u32_roundtrip(LOCAL_FILE_HEADER_SIGNATURE);
        lemma_le_u32_roundtrip(DATA_DESCRIPTOR_SIGNATURE);
        lemma_le_u32_roundtrip(0);
        assert(h.len() == 30 + n);
        assert(b.subrange(0, 4) =~= h.subrange(0, 4));
        assert(h.subrange(0, 4) =~= le_u32(LOCAL_FILE_HEADER_SIGNATURE));
        assert(b.subrange(6, 8) =~= le_u16(e.general_purpose_flags));
        assert(b.subrange(14, 26) =~= Seq::new(12, |i: int| 0u8));
        assert(b.subrange(30, 30 + n) =~= name);
        assert(b.subrange(30 + n, 30 + n + d.len()) =~= d);
        assert(b.subrange(30 + n + d.len(), 30 + n + d.len() + 4) =~= le_u32(DATA_DESCRIPTOR_SIGNATURE));
    }
}

/// Keeping the sizes out of a data descriptor keeps bit 3 of the flags clear.
proof fn lemma_update_keeps_patching(m: CompressionMethod, flag: u16, level: crate::compression::Level)
    requires
        !spec_is_streaming(flag),
    ensures
        !spec_is_streaming(crate::compression::spec_update_flag(m, flag, level)),
{
    assert((flag | 4) & 8 == 0 && (flag | 2) & 8 == 0) by (bit_vector)
        requires
            flag & 8 == 0,
    ;
}

/// An entry appended to an archive whose base flags keep the sizes in the local header, as a
/// writer started with `new` has them, is its local header, with general purpose bit 3 clear and
/// the CRC-32 and both sizes written in it once the data is known, then its name and, without a
/// ZIP64 reservation and for sizes and an offset that fit 32 bits, its data and nothing more: no
/// data descriptor, so 16 bytes fewer than the same entry streamed. Appending keeps the base
/// flags.
pub proof fn lemma_patched_entry_written(
    data_old: SubZipArchiveData,
    data_new: SubZipArchiveData,
    written_old: u64,
    written_new: u64,
    out_old: Seq<u8>,
    out_new: Seq<u8>,
    header: (ArchiveDescriptor, ArchiveFileEntry, Option<ExtraFieldZIP64ExtendedInformation>),
    compressed: Result<CompressedPayload, ArchiveError>,
    r: Result<(), ArchiveError>,
    name: Seq<u8>,
    options: FileOptions,
    compressor: CompressionMethod,
    date: u16,
    time: u16,
    modify_time: Option<i32>,
)
    requires
        spec_file_header(
            header,
            name,
            options,
            compressor,
            data_old.spec_archive_size(),
            data_old.spec_base_flags(),
            false,
            date,
            time,
            modify_time,
        ),
        spec_write_entry(data_old, data_new, written_old, written_new, out_old, out_new, header, compressed, r),
        !spec_is_streaming(data_old.spec_base_flags()),
    ensures
        data_new.spec_base_flags() == data_old.spec_base_flags(),
        r is Ok ==> (compressed matches Ok(p) && {
            let b = out_new.subrange(out_old.len() as int, out_new.len() as int);
            let n = name.len() as int;
            let d = p.data@;
            let e = spec_filled_entry(header.1, p.crc32, d.len() as u64, p.uncompressed_size, p.is_text);
            &&& out_new.len() >= out_old.len()
            &&& out_new.subrange(0, out_old.len() as int) == out_old
            &&& b.len() >= 30 + n + d.len()
            &&& b.subrange(0, 4) == le_u32(LOCAL_FILE_HEADER_SIGNATURE)
            &&& !spec_is_streaming(u16_at(b, 6))
            &&& b.subrange(14, 26) == spec_file_sizes_update(e)
            &&& !options.large_file ==> b.subrange(30, 30 + n) == name
            &&& (!options.large_file && d.len() < 0xFFFF_FFFF && p.uncompressed_size < 0xFFFF_FFFF
                && data_old.spec_archive_size() < 0xFFFF_FFFF) ==> {
                &&& b.len() == 30 + n + d.len()
                &&& b.subrange(30 + n, 30 + n + d.len()) == d
            }
        }),
{
    if r is Ok {
        let p = compressed->Ok_0;
        let h = header.0@;
        let d = p.data@;
        let n = name.len() as int;
        let e = spec_filled_entry(header.1, p.crc32, d.len() as u64, p.uncompressed_size, p.is_text);
        lemma_update_keeps_patching(compressor, data_old.spec_base_flags(), options.compression_level);
        assert(!spec_is_streaming(e.general_purpose_flags));
        let hd = h + d;
        let p1 = spec_patch(hd, 14, spec_file_sizes_update(e));
        let bytes = crate::compress::common::spec_entry_bytes(h, d, e, header.2 is Some);
        assert(out_new == out_old + bytes);
        let b = out_new.subrange(out_old.len() as int, out_new.len() as int);
        assert(b =~= bytes);
        assert(out_new.subrange(0, out_old.len() as int) =~= out_old);
        assert(h.len() >= 30 + n);
        assert(bytes.len() >= p1.len());
        assert(bytes.subrange(0, 30) =~= p1.subrange(0, 30));
        if !options.large_file {
            assert(bytes.subrange(0, 30 + n) =~= p1.subrange(0, 30 + n));
        }
        lemma_le_u16_roundtrip(e.general_purpose_flags);
        lemma_le_u32_roundtrip(LOCAL_FILE_HEADER_SIGNATURE);
        lemma_le_u32_roundtrip(e.crc32);
        assert(p1.subrange(0, 4) =~= h.subrange(0, 4));
        assert(h.subrange(0, 4) =~= le_u32(LOCAL_FILE_HEADER_SIGNATURE));
        assert(b.subrange(0, 4) =~= le_u32(LOCAL_FILE_HEADER_SIGNATURE));
        assert(p1.subrange(6, 8) =~= h.subrange(6, 8));
        assert(h.subrange(6, 8) =~= le_u16(e.general_purpose_flags));
        assert(b.subrange(6, 8) =~= le_u16(e.general_purpose_flags));
        assert(b.subrange(14, 26) =~= spec_file_sizes_update(e));
        if !options.large_file {
            assert(b.subrange(30, 30 + n) =~= name);
        }
        if !options.large_file && d.len() < 0xFFFF_FFFF && p.uncompressed_size < 0xFFFF_FFFF
            && data_old.spec_archive_size() < 0xFFFF_FFFF {
            assert(!spec_is_zip64(e));
            assert(h.len() == 30 + n);
            assert(b =~= p1);
            assert(b.subrange(30 + n, 30 + n + d.len()) =~= d);
        }
    }
}

/// What one `append` to a std archive writes, as the two laws above say it, stated over the
/// archive's own states: the base flags stay; the output and the count of written bytes grow
/// together; after a success the archive size is that count, and the bytes added lay out the
/// entry, with `d` the payload compressed at the default level.
proof fn lemma_append_step(
    before: ZipArchive,
    after: ZipArchive,
    out_before: Seq<u8>,
    out_after: Seq<u8>,
    name: Seq<u8>,
    options: FileOptions,
    payload: Seq<u8>,
    r: Result<(), ArchiveError>,
)
    requires
        spec_appended(before, after, out_before, out_after, name, options, payload, r),
    ensures
        after.spec_data().spec_base_flags() == before.spec_data().spec_base_flags(),
        out_after.len() >= out_before.len(),
        out_after.subrange(0, out_before.len() as int) == out_before,
        after.spec_written() == before.spec_written() + (out_after.len() - out_before.len()),
        r is Ok ==> after.spec_data().spec_archive_size() == after.spec_written(),
        ({
            let b = out_after.subrange(out_before.len() as int, out_after.len() as int);
            let n = name.len() as int;
            let d = spec_compressed(options.compression_method, payload, Level::Default);
            let fits = d.len() < 0xFFFF_FFFF && payload.len() < 0xFFFF_FFFF
                && before.spec_data().spec_archive_size() < 0xFFFF_FFFF;
            &&& (r is Ok && spec_is_streaming(before.spec_data().spec_base_flags())) ==> {
                &&& spec_streamed_layout(b, name, d)
                &&& fits ==> b.len() == 30 + n + d.len() + 16
            }
            &&& (r is Ok && !spec_is_streaming(before.spec_data().spec_base_flags())
                && !options.large_file && fits) ==> {
                &&& b.len() == 30 + n + d.len()
                &&& b.subrange(30 + n, 30 + n + d.len()) == d
                &&& b.subrange(0, 4) == le_u32(LOCAL_FILE_HEADER_SIGNATURE)
                &&& !spec_is_streaming(u16_at(b, 6))
            }
        }),
{
    let (header, compressed, date, time, modify_time) = choose|
        header: (ArchiveDescriptor, ArchiveFileEntry, Option<ExtraFieldZIP64ExtendedInformation>),
        compressed: Result<CompressedPayload, ArchiveError>,
        date: u16,
        time: u16,
        modify_time: Option<i32>,
    |
        #![trigger spec_write_entry(before.spec_data(), after.spec_data(), before.spec_written(), after.spec_written(), out_before, out_after, header, compressed, r), crate::compress::common::spec_times_of(options.last_modified_time, date, time, modify_time)]
        {
            &&& crate::compress::common::spec_times_of(options.last_modified_time, date, time, modify_time)
            &&& spec_file_header(
                header,
                name,
                options,
                options.compression_method,
                before.spec_data().spec_archive_size(),
                before.spec_data().spec_base_flags(),
                false,
                date,
                time,
                modify_time,
            )
            &&& crate::compress::standard::compressor::spec_compress_outcome(
                compressed,
                options.compression_method,
                payload,
                Level::Default,
            )
            &&& spec_write_entry(
                before.spec_data(),
                after.spec_data(),
                before.spec_written(),
                after.spec_written(),
                out_before,
                out_after,
                header,
                compressed,
                r,
            )
        };
    assert(out_after.subrange(0, out_before.len() as int) =~= out_before);
    if spec_is_streaming(before.spec_data().spec_base_flags()) {
        lemma_streamed_entry_written(
            before.spec_data(),
            after.spec_data(),
            before.spec_written(),
            after.spec_written(),
            out_before,
            out_after,
            header,
            compressed,
            r,
            name,
            options,
            options.compression_method,
            date,
            time,
            modify_time,
        );
    } else {
        lemma_patched_entry_written(
            before.spec_data(),
            after.spec_data(),
            before.spec_written(),
            after.spec_written(),
            out_before,
            out_after,
            header,
            compressed,
            r,
            name,
            options,
            options.compression_method,
            date,
            time,
            modify_time,
        );
    }
}

/// Whether `archives` and `outs` are the states and outputs of a std archive receiving one
/// `append` after another: the `i`-th adds entry `names[i]` with `options[i]` and content
/// `payloads[i]`, and returns `results[i]`.
pub open spec fn spec_append_chain(
    archives: Seq<ZipArchive>,
    outs: Seq<Seq<u8>>,
    names: Seq<Seq<u8>>,
    options: Seq<FileOptions>,
    payloads: Seq<Seq<u8>>,
    results: Seq<Result<(), ArchiveError>>,
) -> bool {
    &&& archives.len() == names.len() + 1
    &&& outs.len() == names.len() + 1
    &&& options.len() == names.len()
    &&& payloads.len() == names.len()
    &&& results.len() == names.len()
    &&& forall|i: int|
        0 <= i < names.len() ==> spec_appended(
            archives[i],
            archives[i + 1],
            outs[i],
            outs[i + 1],
            names[i],
            options[i],
            payloads[i],
            #[trigger] results[i],
        )
}

/// The base flags of every state of a chain of appends are those it started with.
proof fn lemma_chain_keeps_flags(
    archives: Seq<ZipArchive>,
    outs: Seq<Seq<u8>>,
    names: Seq<Seq<u8>>,
    options: Seq<FileOptions>,
    payloads: Seq<Seq<u8>>,
    results: Seq<Result<(), ArchiveError>>,
    k: int,
)
    requires
        spec_append_chain(archives, outs, names, options, payloads, results),
        0 <= k < archives.len(),
    ensures
        archives[k].spec_data().spec_base_flags() == archives[0].spec_data().spec_base_flags(),
    decreases k,
{
    if k > 0 {
        lemma_chain_keeps_flags(archives, outs, names, options, payloads, results, k - 1);
        let _ = results[k - 1];
        lemma_append_step(
            archives[k - 1],
            archives[k],
            outs[k - 1],
            outs[k],
            names[k - 1],
            options[k - 1],
            payloads[k - 1],
            results[k - 1],
        );
    }
}

/// Every entry that a successful `append` adds to an archive started with `new_streamable`,
/// however many appends came before it, is written in one pass (see `spec_streamed_layout`),
/// after everything written before it; the archive keeps its base flags throughout.
pub proof fn lemma_streamable_archive_written(
    archives: Seq<ZipArchive>,
    outs: Seq<Seq<u8>>,
    names: Seq<Seq<u8>>,
    options: Seq<FileOptions>,
    payloads: Seq<Seq<u8>>,
    results: Seq<Result<(), ArchiveError>>,
)
    requires
        spec_append_chain(archives, outs, names, options, payloads, results),
        archives[0].spec_data().spec_base_flags() == EXTENDED_LOCAL_HEADER_FLAG,
    ensures
        forall|k: int|
            0 <= k < archives.len() ==> #[trigger] archives[k].spec_data().spec_base_flags()
                == EXTENDED_LOCAL_HEADER_FLAG,
        forall|i: int|
            0 <= i < names.len() && (#[trigger] results[i]) is Ok ==> {
                &&& outs[i + 1].len() >= outs[i].len()
                &&& outs[i + 1].subrange(0, outs[i].len() as int) == outs[i]
                &&& spec_streamed_layout(
                    outs[i + 1].subrange(outs[i].len() as int, outs[i + 1].len() as int),
                    names[i],
                    spec_compressed(options[i].compression_method, payloads[i], Level::Default),
                )
            },
{
    assert(8u16 & 8u16 != 0) by (bit_vector);
    assert forall|k: int| 0 <= k < archives.len() implies #[trigger] archives[k].spec_data().spec_base_flags()
        == EXTENDED_LOCAL_HEADER_FLAG by {
        lemma_chain_keeps_flags(archives, outs, names, options, payloads, results, k);
    }
    assert forall|i: int| 0 <= i < names.len() && (#[trigger] results[i]) is Ok implies {
        &&& outs[i + 1].len() >= outs[i].len()
        &&& outs[i + 1].subrange(0, outs[i].len() as int) == outs[i]
        &&& spec_streamed_layout(
            outs[i + 1].subrange(outs[i].len() as int, outs[i + 1].len() as int),
            names[i],
            spec_compressed(options[i].compression_method, payloads[i], Level::Default),
        )
    } by {
        lemma_chain_keeps_flags(archives, outs, names, options, payloads, results, i);
        lemma_append_step(
            archives[i],
            archives[i + 1],
            outs[i],
            outs[i + 1],
            names[i],
            options[i],
            payloads[i],
            results[i],
        );
    }
}

/// Whether `after` is `before` followed by an entry whose sizes are patched into its header:
/// the local header with bit 3 clear, the name, and the data `d`, with no data descriptor.
pub open spec fn spec_patched_step(before: Seq<u8>, after: Seq<u8>, name: Seq<u8>, d: Seq<u8>) -> bool {
    let b = after.subrange(before.len() as int, after.len() as int);
    &&& after.len() >= before.len()
    &&& after.subrange(0, before.len() as int) == before
    &&& b.len() == 30 + name.len() + d.len()
    &&& b.subrange(0, 4) == le_u32(LOCAL_FILE_HEADER_SIGNATURE)
    &&& !spec_is_streaming(u16_at(b, 6))
    &&& b.subrange(30 + name.len() as int, 30 + name.len() + d.len() as int) == d
}

/// In a chain of successful appends that starts with nothing written, the count of written
/// bytes and the archive size are always the output's length, and the output only grows.
proof fn lemma_chain_sizes(
    archives: Seq<ZipArchive>,
    outs: Seq<Seq<u8>>,
    names: Seq<Seq<u8>>,
    options: Seq<FileOptions>,
    payloads: Seq<Seq<u8>>,
    results: Seq<Result<(), ArchiveError>>,
    k: int,
)
    requires
        spec_append_chain(archives, outs, names, options, payloads, results),
        archives[0].spec_written() == 0,
        archives[0].spec_data().spec_archive_size() == 0,
        outs[0].len() == 0,
        forall|i: int| 0 <= i < names.len() ==> (#[trigger] results[i]) is Ok,
        0 <= k < archives.len(),
    ensures
        archives[k].spec_written() == outs[k].len(),
        archives[k].spec_data().spec_archive_size() == outs[k].len(),
        forall|j: int| 0 <= j <= k ==> (#[trigger] outs[j]).len() <= outs[k].len(),
    decreases k,
{
    if k > 0 {
        lemma_chain_sizes(archives, outs, names, options, payloads, results, k - 1);
        assert(results[k - 1] is Ok);
        lemma_append_step(
            archives[k - 1],
            archives[k],
            outs[k - 1],
            outs[k],
            names[k - 1],
            options[k - 1],
            payloads[k - 1],
            results[k - 1],
        );
    }
}

/// Two std archives that receive the same successful appends, one started with
/// `new_streamable` and the other with `new`, with no ZIP64 reservation, no payload of 4 GiB or
/// more and a streamed output below 4 GiB: after `k` appends the archive made with `new` is
/// exactly `16 * k` bytes shorter, as each of its entries is its header, name and data with the
/// CRC-32 and sizes in the header (bit 3 clear) and no data descriptor.
pub proof fn lemma_patched_archive_shorter(
    streamed: Seq<ZipArchive>,
    streamed_outs: Seq<Seq<u8>>,
    streamed_results: Seq<Result<(), ArchiveError>>,
    patched: Seq<ZipArchive>,
    patched_outs: Seq<Seq<u8>>,
    patched_results: Seq<Result<(), ArchiveError>>,
    names: Seq<Seq<u8>>,
    options: Seq<FileOptions>,
    payloads: Seq<Seq<u8>>,
)
    requires
        spec_append_chain(streamed, streamed_outs, names, options, payloads, streamed_results),
        spec_append_chain(patched, patched_outs, names, options, payloads, patched_results),
        streamed[0].spec_data().spec_base_flags() == EXTENDED_LOCAL_HEADER_FLAG,
        streamed[0].spec_written() == 0,
        streamed[0].spec_data().spec_archive_size() == 0,
        streamed_outs[0].len() == 0,
        patched[0].spec_data().spec_base_flags() == 0,
        patched[0].spec_written() == 0,
        patched[0].spec_data().spec_archive_size() == 0,
        patched_outs[0].len() == 0,
        forall|i: int| 0 <= i < names.len() ==> (#[trigger] streamed_results[i]) is Ok,
        forall|i: int| 0 <= i < names.len() ==> (#[trigger] patched_results[i]) is Ok,
        forall|i: int|
            0 <= i < names.len() ==> !(#[trigger] options[i]).large_file && payloads[i].len()
                < 0xFFFF_FFFF,
        streamed_outs[names.len() as int].len() < 0xFFFF_FFFF,
    ensures
        forall|k: int|
            0 <= k < streamed_outs.len() ==> (#[trigger] streamed_outs[k]).len()
                == patched_outs[k].len() + 16 * k,
        forall|i: int|
            0 <= i < names.len() ==> #[trigger] spec_patched_step(
                patched_outs[i],
                patched_outs[i + 1],
                names[i],
                spec_compressed(options[i].compression_method, payloads[i], Level::Default),
            ),
{
    let n = names.len() as int;
    assert(8u16 & 8u16 != 0 && 0u16 & 8u16 == 0) by (bit_vector);
    lemma_chain_sizes(streamed, streamed_outs, names, options, payloads, streamed_results, n);
    assert forall|k: int| 0 <= k < streamed_outs.len() implies (#[trigger] streamed_outs[k]).len()
        == patched_outs[k].len() + 16 * k by {
        lemma_shorter_upto(
            streamed,
            streamed_outs,
            streamed_results,
            patched,
            patched_outs,
            patched_results,
            names,
            options,
            payloads,
            k,
        );
    }
    assert forall|i: int| 0 <= i < names.len() implies #[trigger] spec_patched_step(
        patched_outs[i],
        patched_outs[i + 1],
        names[i],
        spec_compressed(options[i].compression_method, payloads[i], Level::Default),
    ) by {
        lemma_shorter_upto(
            streamed,
            streamed_outs,
            streamed_results,
            patched,
            patched_outs,
            patched_results,
            names,
            options,
            payloads,
            i + 1,
        );
    }
}

/// The steps of `lemma_patched_archive_shorter`, up to the `k`-th state.
proof fn lemma_shorter_upto(
    streamed: Seq<ZipArchive>,
    streamed_outs: Seq<Seq<u8>>,
    streamed_results: Seq<Result<(), ArchiveError>>,
    patched: Seq<ZipArchive>,
    patched_outs: Seq<Seq<u8>>,
    patched_results: Seq<Result<(), ArchiveError>>,
    names: Seq<Seq<u8>>,
    options: Seq<FileOptions>,
    payloads: Seq<Seq<u8>>,
    k: int,
)
    requires
        spec_append_chain(streamed, streamed_outs, names, options, payloads, streamed_results),
        spec_append_chain(patched, patched_outs, names, options, payloads, patched_results),
        streamed[0].spec_data().spec_base_flags() == EXTENDED_LOCAL_HEADER_FLAG,
        streamed[0].spec_written() == 0,
        streamed[0].spec_data().spec_archive_size() == 0,
        streamed_outs[0].len() == 0,
        patched[0].spec_data().spec_base_flags() == 0,
        patched[0].spec_written() == 0,
        patched[0].spec_data().spec_archive_size() == 0,
        patched_outs[0].len() == 0,
        forall|i: int| 0 <= i < names.len() ==> (#[trigger] streamed_results[i]) is Ok,
        forall|i: int| 0 <= i < names.len() ==> (#[trigger] patched_results[i]) is Ok,
        forall|i: int|
            0 <= i < names.len() ==> !(#[trigger] options[i]).large_file && payloads[i].len()
                < 0xFFFF_FFFF,
        streamed_outs[names.len() as int].len() < 0xFFFF_FFFF,
        0 <= k < streamed_outs.len(),
    ensures
        streamed_outs[k].len() == patched_outs[k].len() + 16 * k,
        k > 0 ==> spec_patched_step(
            patched_outs[k - 1],
            patched_outs[k],
            names[k - 1],
            spec_compressed(options[k - 1].compression_method, payloads[k - 1], Level::Default),
        ),
    decreases k,
{
    if k > 0 {
        let i = k - 1;
        let n = names.len() as int;
        assert(8u16 & 8u16 != 0 && 0u16 & 8u16 == 0) by (bit_vector);
        lemma_shorter_upto(
            streamed,
            streamed_outs,
            streamed_results,
            patched,
            patched_outs,
            patched_results,
            names,
            options,
            payloads,
            i,
        );
        lemma_chain_sizes(streamed, streamed_outs, names, options, payloads, streamed_results, n);
        lemma_chain_sizes(streamed, streamed_outs, names, options, payloads, streamed_results, i);
        lemma_chain_sizes(patched, patched_outs, names, options, payloads, patched_results, i);
        lemma_chain_keeps_flags(streamed, streamed_outs, names, options, payloads, streamed_results, i);
        lemma_chain_keeps_flags(patched, patched_outs, names, options, payloads, patched_results, i);
        assert(streamed_outs[k].len() <= streamed_outs[n].len());
        assert(streamed_results[i] is Ok);
        assert(patched_results[i] is Ok);
        assert(!options[i].large_file && payloads[i].len() < 0xFFFF_FFFF);
        lemma_append_step(
            streamed[i],
            streamed[i + 1],
            streamed_outs[i],
            streamed_outs[i + 1],
            names[i],
            options[i],
            payloads[i],
            streamed_results[i],
        );
        lemma_append_step(
            patched[i],
            patched[i + 1],
            patched_outs[i],
            patched_outs[i + 1],
            names[i],
            options[i],
            payloads[i],
            patched_results[i],
        );
    }
}

/// The length of the timestamp field in the central header of an entry appended with
/// `options`: it depends only on which times are set.
pub open spec fn spec_appended_timestamp_len(options: FileOptions) -> int {
    if crate::compress::common::spec_has_timestamp(options) {
        crate::archive_common::spec_ts_central_bytes(
            crate::archive_common::spec_timestamp_field(
                if options.last_modified_time is Unset { None } else { Some(0i32) },
                options.last_access_time,
                options.last_creation_time,
            ),
        ).len() as int
    } else {
        0
    }
}

/// The length of the central directory header of an entry appended with name `name` and
/// `options`, when nothing of it needs the ZIP64 format: 46 bytes, the name, the timestamp field
/// and the comment.
pub open spec fn spec_appended_header_len(name: Seq<u8>, options: FileOptions) -> int {
    46 + name.len() + spec_appended_timestamp_len(options) + match crate::compress::common::spec_comment_bytes(
        options.comment,
    ) {
        Some(c) => c.len() as int,
        None => 0,
    }
}

/// What a successful `append` without ZIP64 reservation records, when the sizes and the offset
/// of the entry fit 32 bits: one more entry, whose central directory header has the length that
/// `spec_appended_header_len` gives and whose sizes fit 32 bits; the end fields are kept.
proof fn lemma_append_records(
    before: ZipArchive,
    after: ZipArchive,
    out_before: Seq<u8>,
    out_after: Seq<u8>,
    name: Seq<u8>,
    options: FileOptions,
    payload: Seq<u8>,
    r: Result<(), ArchiveError>,
)
    requires
        spec_appended(before, after, out_before, out_after, name, options, payload, r),
        r is Ok,
        !options.large_file,
        spec_compressed(options.compression_method, payload, Level::Default).len() < 0xFFFF_FFFF,
        payload.len() < 0xFFFF_FFFF,
        before.spec_data().spec_archive_size() < 0xFFFF_FFFF,
    ensures
        after.spec_data().spec_files().len() == before.spec_data().spec_files().len() + 1,
        after.spec_data().spec_files().drop_last() == before.spec_data().spec_files(),
        crate::compress::common::spec_cd_header(after.spec_data().spec_files().last()).len()
            == spec_appended_header_len(name, options),
        !crate::compress::common::spec_big_file(after.spec_data().spec_files().last()),
        after.spec_data().spec_end() == before.spec_data().spec_end(),
{
    let (header, compressed, date, time, modify_time) = choose|
        header: (ArchiveDescriptor, ArchiveFileEntry, Option<ExtraFieldZIP64ExtendedInformation>),
        compressed: Result<CompressedPayload, ArchiveError>,
        date: u16,
        time: u16,
        modify_time: Option<i32>,
    |
        #![trigger spec_write_entry(before.spec_data(), after.spec_data(), before.spec_written(), after.spec_written(), out_before, out_after, header, compressed, r), crate::compress::common::spec_times_of(options.last_modified_time, date, time, modify_time)]
        {
            &&& crate::compress::common::spec_times_of(options.last_modified_time, date, time, modify_time)
            &&& spec_file_header(
                header,
                name,
                options,
                options.compression_method,
                before.spec_data().spec_archive_size(),
                before.spec_data().spec_base_flags(),
                false,
                date,
                time,
                modify_time,
            )
            &&& crate::compress::standard::compressor::spec_compress_outcome(
                compressed,
                options.compression_method,
                payload,
                Level::Default,
            )
            &&& spec_write_entry(
                before.spec_data(),
                after.spec_data(),
                before.spec_written(),
                after.spec_written(),
                out_before,
                out_after,
                header,
                compressed,
                r,
            )
        };
    let p = compressed->Ok_0;
    let e = spec_filled_entry(header.1, p.crc32, p.data@.len() as u64, p.uncompressed_size, p.is_text);
    let files0 = before.spec_data().spec_files();
    let files1 = after.spec_data().spec_files();
    assert(files1.drop_last() =~= files1.take(files0.len() as int));
    let rec = files1.last();
    assert(!spec_is_zip64(e));
    assert(rec.extra_fields@ == e.extra_fields@);
    assert(rec.file_name_as_bytes == e.file_name_as_bytes);
    assert(rec.file_comment == e.file_comment);
    let x = crate::archive_common::spec_records_central_bytes(rec.extra_fields@, rec);
    reveal(crate::compress::common::spec_cd_header);
    crate::readback::lemma_central_header_layout(crate::compress::common::spec_cd_entry(rec), x);
    reveal_with_fuel(crate::archive_common::spec_records_central_bytes, 2);
    let fs = rec.extra_fields@;
    if crate::compress::common::spec_has_timestamp(options) {
        let t = fs[0];
        assert(fs.len() == 1);
        assert(fs.drop_last() =~= Seq::<crate::archive_common::ExtraFieldRecord>::empty());
        assert(x == crate::archive_common::spec_records_central_bytes(fs.drop_last(), rec)
            + crate::archive_common::spec_record_central_bytes(fs.last(), rec));
        crate::encoding::lemma_le_i32_roundtrip(0);
        if let Some(m) = modify_time {
            crate::encoding::lemma_le_i32_roundtrip(m);
        }
    } else {
        assert(fs.len() == 0);
    }
}

/// The summed central directory header lengths of the first `k` entries appended with `names`
/// and `options` (see `spec_appended_header_len`).
pub open spec fn spec_appended_cd_len(names: Seq<Seq<u8>>, options: Seq<FileOptions>, k: int) -> int
    decreases k,
{
    if k <= 0 {
        0
    } else {
        spec_appended_cd_len(names, options, k - 1) + spec_appended_header_len(names[k - 1], options[k - 1])
    }
}

/// In a chain of successful appends that starts empty, without ZIP64 reservation, with payloads
/// and compressed data below 4 GiB and an output below 4 GiB, the `k`-th state records `k`
/// entries, its central directory has the length that the names and options give, no entry's
/// size needs 64 bits, and the end fields are those it started with.
proof fn lemma_chain_records(
    archives: Seq<ZipArchive>,
    outs: Seq<Seq<u8>>,
    names: Seq<Seq<u8>>,
    options: Seq<FileOptions>,
    payloads: Seq<Seq<u8>>,
    results: Seq<Result<(), ArchiveError>>,
    k: int,
)
    requires
        spec_append_chain(archives, outs, names, options, payloads, results),
        archives[0].spec_written() == 0,
        archives[0].spec_data().spec_archive_size() == 0,
        archives[0].spec_data().spec_files().len() == 0,
        outs[0].len() == 0,
        forall|i: int| 0 <= i < names.len() ==> (#[trigger] results[i]) is Ok,
        forall|i: int|
            0 <= i < names.len() ==> !(#[trigger] options[i]).large_file && payloads[i].len()
                < 0xFFFF_FFFF && spec_compressed(options[i].compression_method, payloads[i], Level::Default).len()
                < 0xFFFF_FFFF,
        outs[names.len() as int].len() < 0xFFFF_FFFF,
        0 <= k < archives.len(),
    ensures
        archives[k].spec_data().spec_files().len() == k,
        crate::compress::common::spec_central_directory(archives[k].spec_data().spec_files()).len()
            == spec_appended_cd_len(names, options, k),
        !crate::compress::common::spec_has_big_file(archives[k].spec_data().spec_files()),
        archives[k].spec_data().spec_end() == archives[0].spec_data().spec_end(),
    decreases k,
{
    let n = names.len() as int;
    if k == 0 {
        assert(!crate::compress::common::spec_has_big_file(archives[0].spec_data().spec_files()));
    } else {
        let i = k - 1;
        lemma_chain_records(archives, outs, names, options, payloads, results, i);
        lemma_chain_sizes(archives, outs, names, options, payloads, results, n);
        lemma_chain_sizes(archives, outs, names, options, payloads, results, i);
        assert(results[i] is Ok);
        assert(!options[i].large_file);
        lemma_append_records(
            archives[i],
            archives[k],
            outs[i],
            outs[k],
            names[i],
            options[i],
            payloads[i],
            results[i],
        );
        let f0 = archives[i].spec_data().spec_files();
        let f1 = archives[k].spec_data().spec_files();
        assert(f1.drop_last() == f0);
        if crate::compress::common::spec_has_big_file(f1) {
            let j = choose|j: int| 0 <= j < f1.len() && crate::compress::common::spec_big_file(#[trigger] f1[j]);
            if j < f0.len() {
                assert(f1[j] == f0[j]);
                assert(crate::compress::common::spec_big_file(f0[j]));
            }
        }
    }
}

/// Two std archives that receive the same successful appends, one started with
/// `new_streamable` and the other with `new`, each empty, with no ZIP64 reservation, no payload
/// of 4 GiB or more and a streamed output below 4 GiB, end up, once `finalize` has appended
/// what ends each archive, exactly `16 * k` bytes apart after `k` appends: the central
/// directories and end records have the same length.
pub proof fn lemma_finalized_patched_archive_shorter(
    streamed: Seq<ZipArchive>,
    streamed_outs: Seq<Seq<u8>>,
    streamed_results: Seq<Result<(), ArchiveError>>,
    patched: Seq<ZipArchive>,
    patched_outs: Seq<Seq<u8>>,
    patched_results: Seq<Result<(), ArchiveError>>,
    names: Seq<Seq<u8>>,
    options: Seq<FileOptions>,
    payloads: Seq<Seq<u8>>,
)
    requires
        spec_append_chain(streamed, streamed_outs, names, options, payloads, streamed_results),
        spec_append_chain(patched, patched_outs, names, options, payloads, patched_results),
        streamed[0].spec_data().spec_base_flags() == EXTENDED_LOCAL_HEADER_FLAG,
        streamed[0].spec_written() == 0,
        streamed[0].spec_data().spec_archive_size() == 0,
        streamed[0].spec_data().spec_files().len() == 0,
        crate::archive_common::spec_empty_end(streamed[0].spec_data().spec_end()),
        streamed_outs[0].len() == 0,
        patched[0].spec_data().spec_base_flags() == 0,
        patched[0].spec_written() == 0,
        patched[0].spec_data().spec_archive_size() == 0,
        patched[0].spec_data().spec_files().len() == 0,
        crate::archive_common::spec_empty_end(patched[0].spec_data().spec_end()),
        patched_outs[0].len() == 0,
        forall|i: int| 0 <= i < names.len() ==> (#[trigger] streamed_results[i]) is Ok,
        forall|i: int| 0 <= i < names.len() ==> (#[trigger] patched_results[i]) is Ok,
        forall|i: int|
            0 <= i < names.len() ==> !(#[trigger] options[i]).large_file && payloads[i].len()
                < 0xFFFF_FFFF,
        streamed_outs[names.len() as int].len() < 0xFFFF_FFFF,
    ensures
        ({
            let n = names.len() as int;
            streamed_outs[n].len() + spec_archive_tail(streamed[n].spec_data(), streamed[n].spec_written()).len()
                == patched_outs[n].len() + spec_archive_tail(patched[n].spec_data(), patched[n].spec_written()).len()
                + 16 * n
        }),
{
    let n = names.len() as int;
    lemma_patched_archive_shorter(
        streamed,
        streamed_outs,
        streamed_results,
        patched,
        patched_outs,
        patched_results,
        names,
        options,
        payloads,
    );
    assert(streamed_outs[n].len() == patched_outs[n].len() + 16 * n);
    lemma_chain_sizes(streamed, streamed_outs, names, options, payloads, streamed_results, n);
    lemma_chain_sizes(patched, patched_outs, names, options, payloads, patched_results, n);
    assert forall|i: int| 0 <= i < names.len() implies spec_compressed(
        (#[trigger] options[i]).compression_method,
        payloads[i],
        Level::Default,
    ).len() < 0xFFFF_FFFF by {
        assert(streamed_results[i] is Ok);
        lemma_chain_keeps_flags(streamed, streamed_outs, names, options, payloads, streamed_results, i);
        lemma_chain_sizes(streamed, streamed_outs, names, options, payloads, streamed_results, i + 1);
        assert(8u16 & 8u16 != 0) by (bit_vector);
        lemma_append_step(
            streamed[i],
            streamed[i + 1],
            streamed_outs[i],
            streamed_outs[i + 1],
            names[i],
            options[i],
            payloads[i],
            streamed_results[i],
        );
    }
    lemma_chain_records(streamed, streamed_outs, names, options, payloads, streamed_results, n);
    lemma_chain_records(patched, patched_outs, names, options, payloads, patched_results, n);
    let ds = streamed[n].spec_data();
    let dp = patched[n].spec_data();
    let es = spec_tail_end_fields(ds, streamed[n].spec_written());
    let ep = spec_tail_end_fields(dp, patched[n].spec_written());
    assert(es.archive_comment is None && ep.archive_comment is None);
    assert(crate::compress::common::spec_uses_zip64_end(es, false)
        == crate::compress::common::spec_uses_zip64_end(ep, false));
    assert(crate::archive_common::spec_zip64_end_record(es).len()
        == crate::archive_common::spec_zip64_end_record(ep).len());
    assert(crate::archive_common::spec_zip64_locator(es).len()
        == crate::archive_common::spec_zip64_locator(ep).len());
    assert(spec_end_record(es).len() == spec_end_record(ep).len());
}

} // verus!

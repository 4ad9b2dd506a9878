//! An archive writer that compresses each payload itself and hands back the bytes to write.
use vstd::prelude::*;
use vstd::string::*;

use crate::compress::common::{
    build_file_header, spec_file_header, spec_times_of, spec_write_entry, write_archive_end,
    spec_archive_tail, spec_comment_set, SubZipArchiveData,
    ZipArchiveCommon,
};
use crate::compress::standard::compressor::{compress, spec_compress_outcome};
use crate::compress::FileOptions;
use crate::compression::Level;
use crate::constants::EXTENDED_LOCAL_HEADER_FLAG;
use crate::error::ArchiveError;

verus! {

/// A ZIP archive being written.
///
/// Create one with [`new_streamable`](Self::new_streamable()) or [`new`](Self::new()), append
/// entries one by one with [`append`](Self::append()), and end it with
/// [`finalize`](Self::finalize()). Each call appends to `out` the bytes that the archive's
/// sink receives next.
pub struct ZipArchive {
    data: SubZipArchiveData,
    written: u64,
}

/// Whether appending the entry `name` with `options` and content `payload` takes the archive
/// from `before`, with output `out_before`, to `after`, with output `out_after`, returning `r`:
/// the local header is built from the options at the current archive size, the payload is
/// compressed at the default level, and the entry is written (see `spec_write_entry`).
pub open spec fn spec_appended(
    before: ZipArchive,
    after: ZipArchive,
    out_before: Seq<u8>,
    out_after: Seq<u8>,
    name: Seq<u8>,
    options: FileOptions,
    payload: Seq<u8>,
    r: Result<(), ArchiveError>,
) -> bool {
    exists|header: (
        crate::archive_common::ArchiveDescriptor,
        crate::archive_common::ArchiveFileEntry,
        Option<crate::archive_common::ExtraFieldZIP64ExtendedInformation>,
    ), compressed: Result<crate::compress::standard::compressor::CompressedPayload, ArchiveError>, date: u16, time: u16, modify_time: Option<i32>|
        #![trigger spec_write_entry(before.spec_data(), after.spec_data(), before.spec_written(), after.spec_written(), out_before, out_after, header, compressed, r), spec_times_of(options.last_modified_time, date, time, modify_time)]
        {
            &&& spec_times_of(options.last_modified_time, date, time, modify_time)
            &&& spec_file_header(
                header,
                name,
                options,
                options.compression_method,
                before.spec_data().spec_archive_size(),
                before.spec_data().spec_base_flags(),
                false,
                date,
                time,
                modify_time,
            )
            &&& spec_compress_outcome(
                compressed,
                options.compression_method,
                payload,
                Level::Default,
            )
            &&& spec_write_entry(
                before.spec_data(),
                after.spec_data(),
                before.spec_written(),
                after.spec_written(),
                out_before,
                out_after,
                header,
                compressed,
                r,
            )
        }
}

impl ZipArchive {
    /// What the archive knows of itself.
    pub closed spec fn spec_data(&self) -> SubZipArchiveData {
        self.data
    }

    /// The number of bytes written to the sink so far.
    pub closed spec fn spec_written(&self) -> u64 {
        self.written
    }

    /// A new archive whose entries' sizes follow their data in data descriptors, so that the
    /// sink never needs to seek.
    pub fn new_streamable() -> (r: Self)
        ensures
            r.spec_data().spec_files().len() == 0,
            r.spec_data().spec_base_flags() == EXTENDED_LOCAL_HEADER_FLAG,
            r.spec_data().spec_archive_size() == 0,
            crate::archive_common::spec_empty_end(r.spec_data().spec_end()),
            r.spec_written() == 0,
    {
        let mut data = SubZipArchiveData::default();
        data.set_base_flags(EXTENDED_LOCAL_HEADER_FLAG);
        ZipArchive { data, written: 0 }
    }

    /// A new archive whose entries' local headers are patched with their sizes once their data
    /// is written; this saves a few bytes per entry.
    pub fn new() -> (r: Self)
        ensures
            r.spec_data().spec_files().len() == 0,
            r.spec_data().spec_base_flags() == 0,
            r.spec_data().spec_archive_size() == 0,
            crate::archive_common::spec_empty_end(r.spec_data().spec_end()),
            r.spec_written() == 0,
    {
        ZipArchive { data: SubZipArchiveData::default(), written: 0 }
    }

    /// The number of bytes written to the sink so far.
    pub fn get_archive_size(&self) -> (n: u64)
        ensures
            n == self.spec_written(),
    {
        self.written
    }

    /// Appends an entry named `file_name` whose uncompressed content is `payload`, compressed
    /// with the method of `options` at the default level; the bytes written are appended to
    /// `out`.
    pub fn append(
        &mut self,
        file_name: &str,
        options: &FileOptions,
        payload: &[u8],
        out: &mut Vec<u8>,
    ) -> (r: Result<(), ArchiveError>)
        ensures
            spec_appended(
                *old(self),
                *final(self),
                old(out)@,
                final(out)@,
                file_name.spec_bytes(),
                *options,
                payload@,
                r,
            ),
    {
        let file_header_offset = self.data.archive_size();
        let compressor = options.compression_method;
        let header = build_file_header(
            file_name,
            options,
            compressor,
            file_header_offset,
            &self.data,
            false,
        );
        assert(crate::compress::standard::compressor::spec_xz_preset_valid(6)) by {
            assert(6u32 & 0x7FFF_FFE0u32 == 0 && 6u32 & 0x1Fu32 <= 9) by (bit_vector);
        }
        let compressed = compress(compressor, payload, Level::Default);
        let ghost h = header;
        let ghost c = compressed;
        let ghost data0 = self.data;
        let r = crate::compress::common::write_entry(
            &mut self.data,
            &mut self.written,
            header,
            compressed,
            out,
        );
        proof {
            let (d, t, m) = choose|d: u16, t: u16, m: Option<i32>|
                #![trigger spec_times_of(options.last_modified_time, d, t, m)]
                spec_times_of(options.last_modified_time, d, t, m) && spec_file_header(
                    h,
                    file_name.spec_bytes(),
                    *options,
                    compressor,
                    data0.spec_archive_size(),
                    data0.spec_base_flags(),
                    false,
                    d,
                    t,
                    m,
                );
            assert(spec_times_of(options.last_modified_time, d, t, m));
            assert(spec_write_entry(old(self).spec_data(), self.spec_data(), old(self).spec_written(), self.spec_written(), old(out)@, out@, h, c, r));
        }
        r
    }

    /// Ends the archive: appends to `out` the central directory and the records that end the
    /// archive, and returns the archive size.
    pub fn finalize(self, out: &mut Vec<u8>) -> (r: Result<u64, ArchiveError>)
        ensures
            ({
                let tail = spec_archive_tail(self.spec_data(), self.spec_written());
                if self.spec_written() + tail.len() <= u64::MAX {
                    &&& r == Ok::<u64, ArchiveError>((self.spec_written() + tail.len()) as u64)
                    &&& final(out)@ == old(out)@ + tail
                } else {
                    &&& r matches Err(e) && e is BadArchiveStructure
                    &&& final(out)@ == old(out)@
                }
            }),
    {
        let mut data = self.data;
        let mut written = self.written;
        write_archive_end(&mut data, &mut written, out)
    }

    /// Sets the archive comment, truncated to 0xFFFF bytes.
    pub fn set_archive_comment(&mut self, comment: &str)
        ensures
            spec_comment_set(
                old(self).spec_data(),
                old(self).spec_written(),
                final(self).spec_data(),
                final(self).spec_written(),
                comment.spec_bytes(),
            ),
    {
        self.data.set_archive_comment(comment);
    }
}

impl ZipArchiveCommon for ZipArchive {
    fn get_archive_size(&self) -> (n: u64)
        ensures
            n == self.spec_data().spec_archive_size(),
    {
        self.data.archive_size()
    }

    fn get_data(&self) -> (d: &SubZipArchiveData)
        ensures
            *d == self.spec_data(),
    {
        &self.data
    }

    fn set_archive_comment(&mut self, comment: &str)
        ensures
            spec_comment_set(
                old(self).spec_data(),
                old(self).spec_written(),
                final(self).spec_data(),
                final(self).spec_written(),
                comment.spec_bytes(),
            ),
    {
        self.data.set_archive_comment(comment);
    }
}

} // verus!

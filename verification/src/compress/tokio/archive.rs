//! An archive writer for asynchronous sinks: the caller compresses each payload and writes
//! the bytes handed back.
use vstd::prelude::*;
use vstd::string::*;
use vstd::utf8::encode_utf8;

use crate::compress::common::{
    build_file_header, spec_archive_tail, spec_comment_set,
    spec_file_header, spec_times_of, spec_write_entry, write_archive_end, SubZipArchiveData,
    ZipArchiveCommon, spec_local_header,
};
use crate::compress::standard::compressor::CompressedPayload;
use crate::compress::tokio::compressor::payload_of;
use crate::compress::FileOptions;
use crate::compression::CompressionMethod;
use crate::constants::EXTENDED_LOCAL_HEADER_FLAG;
use crate::error::ArchiveError;

verus! {

/// A ZIP archive being written to an asynchronous sink.
///
/// Create one with [`new_streamable`](Self::new_streamable()) or [`new`](Self::new()), append
/// entries with [`append`](Self::append()) and [`append_directory`](Self::append_directory()),
/// and end it with [`finalize`](Self::finalize()). Each call appends to `out` the bytes that
/// the sink receives next.
pub struct ZipArchive {
    data: SubZipArchiveData,
    written: u64,
}

/// `name` as a directory name: with a `/` appended unless it ends with `/` or `\`.
pub open spec fn spec_directory_name(name: Seq<char>) -> Seq<char> {
    if name.len() > 0 && (name.last() == '/' || name.last() == '\\') {
        name
    } else {
        name.push('/')
    }
}

impl ZipArchive {
    /// What the archive knows of itself.
    pub closed spec fn spec_data(&self) -> SubZipArchiveData {
        self.data
    }

    /// The number of bytes written to the sink so far.
    pub closed spec fn spec_written(&self) -> u64 {
        self.written
    }

    /// A new archive whose entries' sizes follow their data in data descriptors.
    pub fn new_streamable() -> (r: Self)
        ensures
            r.spec_data().spec_files().len() == 0,
            r.spec_data().spec_base_flags() == EXTENDED_LOCAL_HEADER_FLAG,
            r.spec_data().spec_archive_size() == 0,
            crate::archive_common::spec_empty_end(r.spec_data().spec_end()),
            r.spec_written() == 0,
    {
        let mut data = SubZipArchiveData::default();
        data.set_base_flags(EXTENDED_LOCAL_HEADER_FLAG);
        ZipArchive { data, written: 0 }
    }

    /// A new archive whose entries' local headers are patched with their sizes.
    pub fn new() -> (r: Self)
        ensures
            r.spec_data().spec_files().len() == 0,
            r.spec_data().spec_base_flags() == 0,
            r.spec_data().spec_archive_size() == 0,
            crate::archive_common::spec_empty_end(r.spec_data().spec_end()),
            r.spec_written() == 0,
    {
        ZipArchive { data: SubZipArchiveData::default(), written: 0 }
    }

    /// The number of bytes written to the sink so far.
    pub fn get_archive_size(&self) -> (n: u64)
        ensures
            n == self.spec_written(),
    {
        self.written
    }

    /// Appends an entry named `file_name` whose uncompressed content is `payload` and whose
    /// compressed content is `compressed` (or the error the encoder met); the bytes written are
    /// appended to `out`.
    pub fn append(
        &mut self,
        file_name: &str,
        options: &FileOptions,
        payload: &[u8],
        compressed: Result<Vec<u8>, ArchiveError>,
        out: &mut Vec<u8>,
    ) -> (r: Result<(), ArchiveError>)
        ensures
            exists|header: (
                crate::archive_common::ArchiveDescriptor,
                crate::archive_common::ArchiveFileEntry,
                Option<crate::archive_common::ExtraFieldZIP64ExtendedInformation>,
            ), p: Result<CompressedPayload, ArchiveError>, date: u16, time: u16, modify_time: Option<i32>|
                #![trigger spec_write_entry(old(self).spec_data(), final(self).spec_data(), old(self).spec_written(), final(self).spec_written(), old(out)@, final(out)@, header, p, r), spec_times_of(options.last_modified_time, date, time, modify_time)]
                {
                    &&& spec_times_of(options.last_modified_time, date, time, modify_time)
                    &&& spec_file_header(
                        header,
                        file_name.spec_bytes(),
                        *options,
                        options.compression_method,
                        old(self).spec_data().spec_archive_size(),
                        old(self).spec_data().spec_base_flags(),
                        false,
                        date,
                        time,
                        modify_time,
                    )
                    &&& match compressed {
                        Err(e) => p == Err::<CompressedPayload, ArchiveError>(e),
                        Ok(c) => p matches Ok(q) && q.data@ == c@ && q.crc32
                            == crate::compress::standard::compressor::crc32_of(payload@)
                            && q.uncompressed_size == payload@.len() && q.is_text
                            == crate::compress::common::spec_is_text(
                            crate::compress::standard::compressor::spec_first_read(payload@),
                        ),
                    }
                    &&& spec_write_entry(
                        old(self).spec_data(),
                        final(self).spec_data(),
                        old(self).spec_written(),
                        final(self).spec_written(),
                        old(out)@,
                        final(out)@,
                        header,
                        p,
                        r,
                    )
                },
    {
        let file_header_offset = self.data.archive_size();
        let compressor = options.compression_method;
        let header = build_file_header(
            file_name,
            options,
            compressor,
            file_header_offset,
            &self.data,
            false,
        );
        let p = match compressed {
            Err(e) => Err(e),
            Ok(c) => Ok(payload_of(payload, c)),
        };
        let ghost h = header;
        let ghost pc = p;
        let ghost data0 = self.data;
        let r = crate::compress::common::write_entry(
            &mut self.data,
            &mut self.written,
            header,
            p,
            out,
        );
        proof {
            let (d, t, m) = choose|d: u16, t: u16, m: Option<i32>|
                #![trigger spec_times_of(options.last_modified_time, d, t, m)]
                spec_times_of(options.last_modified_time, d, t, m) && spec_file_header(
                    h,
                    file_name.spec_bytes(),
                    *options,
                    compressor,
                    data0.spec_archive_size(),
                    data0.spec_base_flags(),
                    false,
                    d,
                    t,
                    m,
                );
            assert(spec_times_of(options.last_modified_time, d, t, m));
            assert(spec_write_entry(old(self).spec_data(), self.spec_data(), old(self).spec_written(), self.spec_written(), old(out)@, out@, h, pc, r));
        }
        r
    }

    /// Appends a directory entry: stored, no data, its name ending with `/`; the bytes written
    /// are appended to `out`.
    pub fn append_directory(&mut self, file_name: &str, options: &FileOptions, out: &mut Vec<u8>) -> (r:
        Result<(), ArchiveError>)
        ensures
            exists|header: (
                crate::archive_common::ArchiveDescriptor,
                crate::archive_common::ArchiveFileEntry,
                Option<crate::archive_common::ExtraFieldZIP64ExtendedInformation>,
            ), date: u16, time: u16, modify_time: Option<i32>|
                #![trigger spec_file_header(header, encode_utf8(spec_directory_name(file_name@)), *options, CompressionMethod::Store(), old(self).spec_data().spec_archive_size(), old(self).spec_data().spec_base_flags(), true, date, time, modify_time)]
                {
                    &&& spec_times_of(options.last_modified_time, date, time, modify_time)
                    &&& spec_file_header(
                        header,
                        encode_utf8(spec_directory_name(file_name@)),
                        *options,
                        CompressionMethod::Store(),
                        old(self).spec_data().spec_archive_size(),
                        old(self).spec_data().spec_base_flags(),
                        true,
                        date,
                        time,
                        modify_time,
                    )
                    &&& if old(self).spec_written() + header.0@.len() <= u64::MAX {
                        &&& r is Ok
                        &&& final(out)@ == old(out)@ + header.0@
                        &&& final(self).spec_written() == old(self).spec_written() + header.0@.len()
                        &&& final(self).spec_data().spec_files() == old(self).spec_data().spec_files().push(header.1)
                        &&& final(self).spec_data().spec_archive_size() == final(self).spec_written()
                        &&& final(self).spec_data().spec_end() == old(self).spec_data().spec_end()
                    } else {
                        &&& r matches Err(e) && e is BadArchiveStructure
                        &&& final(out)@ == old(out)@
                        &&& final(self).spec_written() == old(self).spec_written()
                    }
                },
    {
        let file_header_offset = self.data.archive_size();
        let compressor = CompressionMethod::Store();
        let n = file_name.unicode_len();
        let ends_with_separator = n > 0 && {
            let c = file_name.get_char(n - 1);
            c == '/' || c == '\\'
        };
        let new_file_name = if ends_with_separator {
            String::from_str(file_name)
        } else {
            proof {
                reveal_strlit("/");
            }
            String::from_str(file_name).concat("/")
        };
        assert(new_file_name@ =~= spec_directory_name(file_name@));
        let ghost data0 = self.data;
        let name_str = new_file_name.as_str();
        let (file_header, mut archive_file_entry, _extrafield_zip64) = build_file_header(
            name_str,
            options,
            compressor,
            file_header_offset,
            &self.data,
            true,
        );
        let ghost h = (file_header, archive_file_entry, _extrafield_zip64);
        archive_file_entry.general_purpose_flags = archive_file_entry.general_purpose_flags
            & !EXTENDED_LOCAL_HEADER_FLAG;
        proof {
            let (d, t, m) = choose|d: u16, t: u16, m: Option<i32>|
                #![trigger spec_times_of(options.last_modified_time, d, t, m)]
                spec_times_of(options.last_modified_time, d, t, m) && spec_file_header(
                    h,
                    name_str.spec_bytes(),
                    *options,
                    compressor,
                    data0.spec_archive_size(),
                    data0.spec_base_flags(),
                    true,
                    d,
                    t,
                    m,
                );
            assert(spec_times_of(options.last_modified_time, d, t, m));
            let f = crate::compression::spec_update_flag(
                compressor,
                data0.spec_base_flags(),
                options.compression_level,
            );
            assert((f & !EXTENDED_LOCAL_HEADER_FLAG) & !EXTENDED_LOCAL_HEADER_FLAG == f
                & !EXTENDED_LOCAL_HEADER_FLAG) by (bit_vector);
            assert(archive_file_entry == h.1);
            assert(spec_file_header(
                h,
                encode_utf8(spec_directory_name(file_name@)),
                *options,
                CompressionMethod::Store(),
                old(self).spec_data().spec_archive_size(),
                old(self).spec_data().spec_base_flags(),
                true,
                d,
                t,
                m,
            ));
        }
        if self.written > u64::MAX - file_header.len() as u64 {
            return Err(ArchiveError::BadArchiveStructure(String::from_str("archive size exceeds 2^64 bytes")));
        }
        let mut i: usize = 0;
        let hb = file_header.buffer();
        while i < hb.len()
            invariant
                i <= hb@.len(),
                out@ == old(out)@ + hb@.take(i as int),
            decreases hb@.len() - i,
        {
            out.push(hb[i]);
            i = i + 1;
            assert(out@ =~= old(out)@ + hb@.take(i as int));
        }
        assert(hb@.take(i as int) =~= hb@);
        self.written = self.written + file_header.len() as u64;
        self.data.add_archive_file_entry(archive_file_entry);
        self.data.set_archive_size(self.written);
        Ok(())
    }

    /// Ends the archive: appends to `out` the central directory and the records that end the
    /// archive, and returns the archive size.
    pub fn finalize(self, out: &mut Vec<u8>) -> (r: Result<u64, ArchiveError>)
        ensures
            ({
                let tail = spec_archive_tail(self.spec_data(), self.spec_written());
                if self.spec_written() + tail.len() <= u64::MAX {
                    &&& r == Ok::<u64, ArchiveError>((self.spec_written() + tail.len()) as u64)
                    &&& final(out)@ == old(out)@ + tail
                } else {
                    &&& r matches Err(e) && e is BadArchiveStructure
                    &&& final(out)@ == old(out)@
                }
            }),
    {
        let mut data = self.data;
        let mut written = self.written;
        write_archive_end(&mut data, &mut written, out)
    }

    /// Sets the archive comment, truncated to 0xFFFF bytes.
    pub fn set_archive_comment(&mut self, comment: &str)
        ensures
            spec_comment_set(
                old(self).spec_data(),
                old(self).spec_written(),
                final(self).spec_data(),
                final(self).spec_written(),
                comment.spec_bytes(),
            ),
    {
        self.data.set_archive_comment(comment);
    }
}

impl ZipArchiveCommon for ZipArchive {
    fn get_archive_size(&self) -> (n: u64)
        ensures
            n == self.spec_data().spec_archive_size(),
    {
        self.data.archive_size()
    }

    fn get_data(&self) -> (d: &SubZipArchiveData)
        ensures
            *d == self.spec_data(),
    {
        &self.data
    }

    fn set_archive_comment(&mut self, comment: &str)
        ensures
            spec_comment_set(
                old(self).spec_data(),
                old(self).spec_written(),
                final(self).spec_data(),
                final(self).spec_written(),
                comment.spec_bytes(),
            ),
    {
        self.data.set_archive_comment(comment);
    }
}

} // verus!

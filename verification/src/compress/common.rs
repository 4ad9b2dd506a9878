//! The records that writing an entry produces, and the bookkeeping of an archive being written.
use vstd::prelude::*;
use vstd::string::*;

use crate::archive_common::{
    sat_u32, spec_end_record, spec_file_comment_length, spec_is_zip64, spec_needs_zip64,
    spec_records_central_bytes, spec_timestamp_flags, spec_version_needed_to_extract,
    spec_zip64_end_record, spec_zip64_local_bytes, spec_zip64_locator, ArchiveDescriptor,
    ArchiveFileEntry, CentralDirectoryEnd, ExtraField, ExtraFieldExtendedTimestamp,
    ExtraFieldRecord, ExtraFieldZIP64ExtendedInformation,
};
use crate::compress::FileOptions;
use crate::compression::{spec_update_flag, spec_zip_code, spec_zip_version_needed, CompressionMethod};
use crate::constants::{
    CENTRAL_DIRECTORY_ENTRY_SIGNATURE, DATA_DESCRIPTOR_SIGNATURE, DIR_DEFAULT,
    EXTENDED_LOCAL_HEADER_FLAG, FILE_DEFAULT, FILE_HEADER_BASE_SIZE, LOCAL_FILE_HEADER_SIGNATURE,
    MS_DIR, S_IFDIR, S_IFREG, VERSION_MADE_BY, ZIP64_DESCRIPTOR_SIZE,
};
use crate::encoding::{le_u16, le_u32, le_u64};
use crate::types::{
    spec_extended_timestamp, spec_ms_dos, spec_system_value, spec_timestamp, spec_tuple,
    spec_with_system, FileDateTime,
};

verus! {

/// Whether `c` is a control byte that never occurs in plain text.
pub open spec fn is_black_listed(c: u8) -> bool {
    c <= 6 || (14 <= c <= 25) || (28 <= c <= 31)
}

/// Whether `c` is a text byte: printable or extended (32 or more), or a tab, a line feed or a
/// carriage return.
pub open spec fn is_white_listed(c: u8) -> bool {
    c >= 32 || c == 9 || c == 10 || c == 13
}

/// Whether `b` looks like plain text: no black-listed control byte, and at least one
/// white-listed text byte.
pub open spec fn spec_is_text(b: Seq<u8>) -> bool {
    &&& forall|i: int| 0 <= i < b.len() ==> !is_black_listed(#[trigger] b[i])
    &&& exists|i: int| 0 <= i < b.len() && is_white_listed(#[trigger] b[i])
}

/// Fast detection of plain text (ASCII or an ASCII-compatible extension such as ISO-8859 or
/// UTF-8), after Cosmin Truta's txtvsbin.
pub fn is_text_buf(buffer: &[u8]) -> (r: bool)
    ensures
        r == spec_is_text(buffer@),
{
    let mut result = false;
    let mut i: usize = 0;
    while i < buffer.len()
        invariant
            i <= buffer@.len(),
            forall|j: int| 0 <= j < i ==> !is_black_listed(#[trigger] buffer@[j]),
            result == exists|j: int| 0 <= j < i && is_white_listed(#[trigger] buffer@[j]),
        decreases buffer@.len() - i,
    {
        let c = buffer[i];
        if c >= 32 || c == 9 || c == 10 || c == 13 {
            result = true;
        } else if (c <= 6) || (c >= 14 && c <= 25) || (c >= 28 && c <= 31) {
            assert(is_black_listed(buffer@[i as int]));
            return false;
        }
        i = i + 1;
    }
    result
}

/// Text detection over any buffer: it is text exactly when no byte is in 0..=6, 14..=25 or
/// 28..=31, and some byte is 32 or more (every byte from 128 to 255 included, as in ISO-8859 or
/// UTF-8 text) or a tab, line feed or carriage return. In particular a non-empty buffer of bytes
/// of 32 or more is text, an empty buffer is not, and a buffer holding a byte below 7 is not.
pub proof fn lemma_text_detection(b: Seq<u8>)
    ensures
        spec_is_text(b) <==> {
            &&& forall|i: int|
                0 <= i < b.len() ==> !(#[trigger] b[i] <= 6 || (14 <= b[i] && b[i] <= 25) || (28
                    <= b[i] && b[i] <= 31))
            &&& exists|i: int|
                0 <= i < b.len() && (#[trigger] b[i] >= 32 || b[i] == 9 || b[i] == 10 || b[i] == 13)
        },
        (b.len() > 0 && forall|i: int| 0 <= i < b.len() ==> #[trigger] b[i] >= 32) ==> spec_is_text(b),
        b.len() == 0 ==> !spec_is_text(b),
        (exists|i: int| 0 <= i < b.len() && #[trigger] b[i] <= 6) ==> !spec_is_text(b),
{
    if b.len() > 0 && forall|i: int| 0 <= i < b.len() ==> #[trigger] b[i] >= 32 {
        assert(b[0] >= 32);
    }
}

/// Whether the general purpose flags call for sizes in a data descriptor (bit 3).
pub open spec fn spec_is_streaming(flags: u16) -> bool {
    flags & EXTENDED_LOCAL_HEADER_FLAG != 0
}

/// Whether the general purpose flags call for sizes in a data descriptor (bit 3).
pub fn is_streaming(flags: u16) -> (b: bool)
    ensures
        b == spec_is_streaming(flags),
{
    flags & EXTENDED_LOCAL_HEADER_FLAG != 0
}

/// What an archive being written knows of itself.
#[derive(Debug)]
pub struct SubZipArchiveData {
    files_info: Vec<ArchiveFileEntry>,
    central_directory_end: CentralDirectoryEnd,
    archive_size: u64,
    base_flags: u16,
    is_big_archive: bool,
}

impl SubZipArchiveData {
    /// The entries written so far.
    pub closed spec fn spec_files(&self) -> Seq<ArchiveFileEntry> {
        self.files_info@
    }

    /// The end of central directory fields.
    pub closed spec fn spec_end(&self) -> CentralDirectoryEnd {
        self.central_directory_end
    }

    /// Whether some entry written so far needs the ZIP64 format.
    pub closed spec fn spec_is_big(&self) -> bool {
        self.is_big_archive
    }

    /// The archive size after the last entry written.
    pub closed spec fn spec_archive_size(&self) -> u64 {
        self.archive_size
    }

    /// The general purpose flags that every entry starts from.
    pub closed spec fn spec_base_flags(&self) -> u16 {
        self.base_flags
    }

    /// The archive size after the last entry written.
    pub fn archive_size(&self) -> (n: u64)
        ensures
            n == self.spec_archive_size(),
    {
        self.archive_size
    }

    /// The general purpose flags that every entry starts from.
    pub fn base_flags(&self) -> (f: u16)
        ensures
            f == self.spec_base_flags(),
    {
        self.base_flags
    }

    /// Records the archive size after the last entry written.
    pub fn set_archive_size(&mut self, size: u64)
        ensures
            final(self).spec_archive_size() == size,
            final(self).spec_files() == old(self).spec_files(),
            final(self).spec_end() == old(self).spec_end(),
            final(self).spec_base_flags() == old(self).spec_base_flags(),
            final(self).spec_is_big() == old(self).spec_is_big(),
    {
        self.archive_size = size;
    }

    /// Sets the general purpose flags that every entry starts from.
    pub fn set_base_flags(&mut self, flags: u16)
        ensures
            final(self).spec_base_flags() == flags,
            final(self).spec_files() == old(self).spec_files(),
            final(self).spec_end() == old(self).spec_end(),
            final(self).spec_archive_size() == old(self).spec_archive_size(),
            final(self).spec_is_big() == old(self).spec_is_big(),
    {
        self.base_flags = flags;
    }

    /// No entry, no comment, size zero, no base flag.
    pub fn default() -> (r: Self)
        ensures
            r.spec_files() == Seq::<ArchiveFileEntry>::empty(),
            crate::archive_common::spec_empty_end(r.spec_end()),
            r.spec_archive_size() == 0,
            r.spec_base_flags() == 0,
            !r.spec_is_big(),
    {
        SubZipArchiveData {
            files_info: Vec::new(),
            central_directory_end: CentralDirectoryEnd::default(),
            archive_size: 0,
            base_flags: 0,
            is_big_archive: false,
        }
    }

    /// Sets the archive comment (see `CentralDirectoryEnd::set_archive_comment`).
    pub fn set_archive_comment(&mut self, comment: &str)
        ensures
            final(self).spec_end().archive_comment matches Some(c) && c@ == comment.spec_bytes().take(
                if comment.spec_bytes().len() < 0xFFFF {
                    comment.spec_bytes().len() as int
                } else {
                    0xFFFF
                },
            ),
            final(self).spec_end() == (CentralDirectoryEnd {
                archive_comment: final(self).spec_end().archive_comment,
                ..old(self).spec_end()
            }),
            final(self).spec_files() == old(self).spec_files(),
            final(self).spec_archive_size() == old(self).spec_archive_size(),
            final(self).spec_base_flags() == old(self).spec_base_flags(),
            final(self).spec_is_big() == old(self).spec_is_big(),
    {
        self.central_directory_end.set_archive_comment(comment)
    }

    /// Records one more entry.
    pub fn add_archive_file_entry(&mut self, archive_file_entry: ArchiveFileEntry)
        ensures
            final(self).spec_files() == old(self).spec_files().push(archive_file_entry),
            final(self).spec_is_big() == (old(self).spec_is_big() || spec_is_zip64(
                archive_file_entry,
            )),
            final(self).spec_end() == old(self).spec_end(),
            final(self).spec_archive_size() == old(self).spec_archive_size(),
            final(self).spec_base_flags() == old(self).spec_base_flags(),
    {
        self.is_big_archive = self.is_big_archive || archive_file_entry.is_zip64();
        self.files_info.push(archive_file_entry)
    }

    /// Whether some entry written so far has a size that does not fit 32 bits.
    pub fn has_big_file(&self) -> (b: bool)
        ensures
            b == spec_has_big_file(self.spec_files()),
    {
        let mut i: usize = 0;
        while i < self.files_info.len()
            invariant
                i <= self.files_info@.len(),
                forall|j: int| 0 <= j < i ==> !spec_big_file(#[trigger] self.files_info@[j]),
            decreases self.files_info@.len() - i,
        {
            let e = &self.files_info[i];
            if e.compressed_size >= 0xFFFF_FFFF || e.uncompressed_size >= 0xFFFF_FFFF {
                assert(spec_big_file(self.files_info@[i as int]));
                return true;
            }
            i = i + 1;
        }
        false
    }

    /// The entries written so far.
    pub fn iter(&self) -> (s: &[ArchiveFileEntry])
        ensures
            s@ == self.spec_files(),
    {
        self.files_info.as_slice()
    }
}

/// What every archive writer offers whatever its sink.
pub trait ZipArchiveCommon {
    fn get_archive_size(&self) -> u64;

    fn get_data(&self) -> &SubZipArchiveData;

    fn set_archive_comment(&mut self, comment: &str);
}

} // verus!

verus! {

/// The general purpose flags of a new entry: the base flags with the deflate option bits of
/// the level, and bit 3 cleared for a directory.
pub open spec fn spec_header_flags(
    base_flags: u16,
    compressor: CompressionMethod,
    options: FileOptions,
    is_dir: bool,
) -> u16 {
    let f = spec_update_flag(compressor, base_flags, options.compression_level);
    if is_dir {
        f & !EXTENDED_LOCAL_HEADER_FLAG
    } else {
        f
    }
}

/// The version needed to extract a new entry: 2.0 for a directory.
pub open spec fn spec_min_version(compressor: CompressionMethod, is_dir: bool) -> u16 {
    if is_dir {
        20
    } else {
        spec_zip_version_needed(compressor)
    }
}

/// The Unix mode of a new entry: its file type bits with the given permissions, or with the
/// default ones (0o755 for a directory, 0o644 for a file).
pub open spec fn spec_unix_mode(permissions: Option<u32>, is_dir: bool) -> u32 {
    let ftype = if is_dir { S_IFDIR } else { S_IFREG };
    match permissions {
        Some(p) => p | ftype,
        None => ftype | (if is_dir { DIR_DEFAULT } else { FILE_DEFAULT }),
    }
}

/// The external attributes of a new entry: the Unix mode in the high 16 bits, and the MS-DOS
/// directory attribute for a directory.
pub open spec fn spec_external_attributes(permissions: Option<u32>, is_dir: bool) -> u32 {
    ((spec_unix_mode(permissions, is_dir) << 16u32) + (if is_dir { MS_DIR } else { 0 })) as u32
}

/// Whether a new entry reserves a ZIP64 field in its local header: a large file written to a
/// sink that can seek back.
pub open spec fn spec_reserves_zip64(options: FileOptions, base_flags: u16) -> bool {
    options.large_file && !spec_is_streaming(base_flags)
}

/// Whether a new entry carries an extended timestamp field.
pub open spec fn spec_has_timestamp(options: FileOptions) -> bool {
    spec_extended_timestamp(options.last_modified_time) || options.last_creation_time is Some
        || options.last_access_time is Some
}

/// The extra fields of a new entry whose modification timestamp is `modify_time`.
pub open spec fn spec_extra_records(
    options: FileOptions,
    base_flags: u16,
    modify_time: Option<i32>,
) -> Seq<ExtraFieldRecord> {
    (if spec_reserves_zip64(options, base_flags) {
        seq![ExtraFieldRecord::Zip64(ExtraFieldZIP64ExtendedInformation { parsed_sized: 0 })]
    } else {
        Seq::empty()
    }) + (if spec_has_timestamp(options) {
        seq![
            ExtraFieldRecord::ExtendedTimestamp(
                ExtraFieldExtendedTimestamp {
                    flags: spec_timestamp_flags(
                        modify_time,
                        options.last_access_time,
                        options.last_creation_time,
                    ),
                    modify_time: modify_time,
                    access_time: options.last_access_time,
                    create_time: options.last_creation_time,
                },
            ),
        ]
    } else {
        Seq::empty()
    })
}

/// A local file header: the fields in order, CRC-32 and sizes zero, then the name and the
/// extra field.
pub open spec fn spec_local_header(
    min_version: u16,
    flags: u16,
    method: u16,
    time: u16,
    date: u16,
    name_len: u16,
    extra_len: u16,
    name: Seq<u8>,
    extra: Seq<u8>,
) -> Seq<u8> {
    le_u32(LOCAL_FILE_HEADER_SIGNATURE) + le_u16(min_version) + le_u16(flags) + le_u16(method)
        + le_u16(time) + le_u16(date) + le_u32(0) + le_u32(0) + le_u32(0) + le_u16(name_len)
        + le_u16(extra_len) + name + extra
}

/// The bytes of an optional comment.
pub open spec fn spec_comment_bytes(comment: Option<&str>) -> Option<Seq<u8>> {
    match comment {
        Some(c) => Some(c.spec_bytes()),
        None => None,
    }
}

/// The entry that a new local header describes, and the header itself: `name` is the entry
/// name's UTF-8 bytes, and `date`, `time` and `modify_time` are the MS-DOS date and time and the
/// Unix timestamp of the modification time.
pub open spec fn spec_file_header(
    r: (ArchiveDescriptor, ArchiveFileEntry, Option<ExtraFieldZIP64ExtendedInformation>),
    name: Seq<u8>,
    options: FileOptions,
    compressor: CompressionMethod,
    offset: u64,
    base_flags: u16,
    is_dir: bool,
    date: u16,
    time: u16,
    modify_time: Option<i32>,
) -> bool {
    let e = r.1;
    let reserves = spec_reserves_zip64(options, base_flags);
    &&& e.version_made_by == spec_with_system(VERSION_MADE_BY, spec_system_value(options.system))
    &&& e.minimum_version_needed_to_extract == spec_min_version(compressor, is_dir)
    &&& e.general_purpose_flags == spec_header_flags(base_flags, compressor, options, is_dir)
    &&& e.compression_method == spec_zip_code(compressor)
    &&& e.last_mod_file_time == time
    &&& e.last_mod_file_date == date
    &&& e.crc32 == 0
    &&& e.compressed_size == 0
    &&& e.uncompressed_size == 0
    &&& e.file_name_len == name.len() as u16
    &&& e.extra_field_length == (if reserves { 20u16 } else { 0u16 })
    &&& e.file_name_as_bytes@ == name
    &&& e.offset == offset
    &&& e.compressor == compressor
    &&& e.file_disk_number == 0
    &&& e.internal_file_attributes == 0
    &&& e.external_file_attributes == spec_external_attributes(options.unix_permissions, is_dir)
    &&& match spec_comment_bytes(options.comment) {
        Some(c) => e.file_comment matches Some(v) && v@ == c,
        None => e.file_comment is None,
    }
    &&& e.extra_fields@ == spec_extra_records(options, base_flags, modify_time)
    &&& r.0@ == spec_local_header(
        e.minimum_version_needed_to_extract,
        e.general_purpose_flags,
        e.compression_method,
        time,
        date,
        e.file_name_len,
        e.extra_field_length,
        name,
        if reserves {
            spec_zip64_local_bytes(e)
        } else {
            Seq::empty()
        },
    )
    &&& r.2 == (if reserves {
        Some(ExtraFieldZIP64ExtendedInformation { parsed_sized: 0 })
    } else {
        None
    })
}

/// Whether `date`, `time` and `modify_time` can be the values that `t` gives: they are those
/// values wherever they do not depend on the clock, and no timestamp is recorded when the
/// modification time is unset.
pub open spec fn spec_times_of(t: FileDateTime, date: u16, time: u16, modify_time: Option<i32>) -> bool {
    &&& spec_tuple(t) matches Some(dt) ==> (date, time) == spec_ms_dos(dt)
    &&& t is Unset ==> modify_time is None
    &&& !(t is Unset) ==> modify_time is Some
    &&& !(t is Unset) ==> (spec_timestamp(t) matches Some(ts) ==> modify_time == Some(ts))
}

/// Builds the local header of a new entry, and the entry, from the MS-DOS date and time and the
/// Unix modification timestamp it is to record.
pub fn build_file_header_at(
    file_name: &str,
    options: &FileOptions,
    compressor: CompressionMethod,
    offset: u64,
    data: &SubZipArchiveData,
    is_dir: bool,
    date: u16,
    time: u16,
    modify_time: Option<i32>,
) -> (r: (ArchiveDescriptor, ArchiveFileEntry, Option<ExtraFieldZIP64ExtendedInformation>))
    ensures
        spec_file_header(
            r,
            file_name.spec_bytes(),
            *options,
            compressor,
            offset,
            data.spec_base_flags(),
            is_dir,
            date,
            time,
            modify_time,
        ),
{
    let file_nameas_bytes = file_name.as_bytes();
    let file_name_as_bytes_own = vstd::slice::slice_to_vec(file_nameas_bytes);
    let file_name_len = file_name_as_bytes_own.len() as u16;
    let mut general_purpose_flags: u16 = data.base_flags();
    if file_name_as_bytes_own.len() > file_name.len() {
        general_purpose_flags = general_purpose_flags | 0x0800;
    }
    let file_comment = if let Some(comment) = options.comment {
        let file_comment_as_bytes_own = vstd::slice::slice_to_vec(comment.as_bytes());
        if file_comment_as_bytes_own.len() > comment.len() {
            general_purpose_flags = general_purpose_flags | 0x0800;
        }
        Some(file_comment_as_bytes_own)
    } else {
        None
    };
    general_purpose_flags = compressor.update_general_purpose_bit_flag(
        general_purpose_flags,
        options.compression_level,
    );
    let mut minimum_version_needed_to_extract = compressor.zip_version_needed();
    let version_made_by = options.system.update_version_needed(VERSION_MADE_BY);
    let mut extra_fields: Vec<ExtraFieldRecord> = Vec::new();
    let mut extrafield_zip64: Option<ExtraFieldZIP64ExtendedInformation> = None;
    let reserves = options.large_file && !is_streaming(data.base_flags());
    if reserves {
        extrafield_zip64 = Some(ExtraFieldZIP64ExtendedInformation::default());
        extra_fields.push(ExtraFieldRecord::Zip64(ExtraFieldZIP64ExtendedInformation::default()));
    }
    if options.last_modified_time.extended_timestamp() || options.last_creation_time.is_some()
        || options.last_access_time.is_some() {
        let ts = ExtraFieldExtendedTimestamp::new(
            modify_time,
            options.last_access_time,
            options.last_creation_time,
        );
        extra_fields.push(ExtraFieldRecord::ExtendedTimestamp(ts));
    }
    assert(extra_fields@ =~= spec_extra_records(*options, data.spec_base_flags(), modify_time));
    let (unix_ftype, default_permission, ms_dos_attr) = if is_dir {
        general_purpose_flags = general_purpose_flags & !EXTENDED_LOCAL_HEADER_FLAG;
        minimum_version_needed_to_extract = 20;
        (S_IFDIR, DIR_DEFAULT, MS_DIR)
    } else {
        (S_IFREG, FILE_DEFAULT, 0)
    };
    let unix_permissions = if let Some(permissions) = options.unix_permissions {
        permissions | unix_ftype
    } else {
        unix_ftype | default_permission
    };
    let shifted = unix_permissions << 16u32;
    assert(shifted <= 0xFFFF_0000u32) by (bit_vector)
        requires
            shifted == unix_permissions << 16u32,
    ;
    let external_file_attributes: u32 = shifted + ms_dos_attr;
    let mut archive_file_entry = ArchiveFileEntry {
        version_made_by,
        minimum_version_needed_to_extract,
        general_purpose_flags,
        compression_method: compressor.zip_code(),
        last_mod_file_time: time,
        last_mod_file_date: date,
        crc32: 0,
        compressed_size: 0,
        uncompressed_size: 0,
        file_name_len,
        extra_field_length: 0,
        file_name_as_bytes: vstd::slice::slice_to_vec(file_name.as_bytes()),
        offset,
        compressor,
        internal_file_attributes: 0,
        external_file_attributes,
        file_disk_number: 0,
        extra_fields,
        file_comment,
    };
    let mut extended_data_buffer = ArchiveDescriptor::new(500);
    if let Some(ref extra_field) = extrafield_zip64 {
        extra_field.local_header_write_data(&mut extended_data_buffer, &archive_file_entry);
        assert(extended_data_buffer@ =~= spec_zip64_local_bytes(archive_file_entry));
    }
    archive_file_entry.extra_field_length = extended_data_buffer.len() as u16;
    let mut file_header = ArchiveDescriptor::new(FILE_HEADER_BASE_SIZE + file_name_len as u64);
    file_header.write_u32(LOCAL_FILE_HEADER_SIGNATURE);
    file_header.write_u16(minimum_version_needed_to_extract);
    file_header.write_u16(general_purpose_flags);
    file_header.write_u16(archive_file_entry.compression_method);
    file_header.write_u16(time);
    file_header.write_u16(date);
    file_header.write_u32(0);
    file_header.write_u32(0);
    file_header.write_u32(0);
    file_header.write_u16(file_name_len);
    file_header.write_u16(archive_file_entry.extra_field_length);
    file_header.write_bytes(file_name_as_bytes_own.as_slice());
    file_header.write_bytes(extended_data_buffer.bytes());
    let r = (file_header, archive_file_entry, extrafield_zip64);
    assert(r.0@ =~= spec_local_header(
        r.1.minimum_version_needed_to_extract,
        r.1.general_purpose_flags,
        r.1.compression_method,
        time,
        date,
        r.1.file_name_len,
        r.1.extra_field_length,
        file_name.spec_bytes(),
        if reserves {
            spec_zip64_local_bytes(r.1)
        } else {
            Seq::empty()
        },
    ));
    r
}

/// Builds the local header of a new entry, and the entry, taking its date, time and
/// modification timestamp from the options.
pub fn build_file_header(
    file_name: &str,
    options: &FileOptions,
    compressor: CompressionMethod,
    offset: u64,
    data: &SubZipArchiveData,
    is_dir: bool,
) -> (r: (ArchiveDescriptor, ArchiveFileEntry, Option<ExtraFieldZIP64ExtendedInformation>))
    ensures
        exists|date: u16, time: u16, modify_time: Option<i32>|
            #![trigger spec_times_of(options.last_modified_time, date, time, modify_time)]
            spec_times_of(options.last_modified_time, date, time, modify_time) && spec_file_header(
                r,
                file_name.spec_bytes(),
                *options,
                compressor,
                offset,
                data.spec_base_flags(),
                is_dir,
                date,
                time,
                modify_time,
            ),
{
    let (date, time) = options.last_modified_time.ms_dos();
    let modify_time = match options.last_modified_time {
        FileDateTime::Unset => None,
        _ => Some(options.last_modified_time.timestamp()),
    };
    let r = build_file_header_at(
        file_name,
        options,
        compressor,
        offset,
        data,
        is_dir,
        date,
        time,
        modify_time,
    );
    assert(spec_times_of(options.last_modified_time, date, time, modify_time));
    r
}

} // verus!

verus! {

/// The comment bytes of `e`, if any.
pub open spec fn spec_entry_comment(e: ArchiveFileEntry) -> Seq<u8> {
    match e.file_comment {
        Some(c) => c@,
        None => Seq::empty(),
    }
}

/// The central directory header of `e`, whose extra field holds `extra`.
pub open spec fn spec_central_header(e: ArchiveFileEntry, extra: Seq<u8>) -> Seq<u8> {
    le_u32(CENTRAL_DIRECTORY_ENTRY_SIGNATURE) + le_u16(e.version_made_by) + le_u16(
        spec_version_needed_to_extract(e),
    ) + le_u16(e.general_purpose_flags) + le_u16(e.compression_method) + le_u16(
        e.last_mod_file_time,
    ) + le_u16(e.last_mod_file_date) + le_u32(e.crc32) + le_u32(sat_u32(e.compressed_size as int))
        + le_u32(sat_u32(e.uncompressed_size as int)) + le_u16(e.file_name_len) + le_u16(
        e.extra_field_length,
    ) + le_u16(spec_file_comment_length(e)) + le_u16(e.file_disk_number as u16) + le_u16(
        e.internal_file_attributes,
    ) + le_u32(e.external_file_attributes) + le_u32(sat_u32(e.offset as int))
        + e.file_name_as_bytes@ + extra + spec_entry_comment(e)
}

/// Appends the central directory header of `file_info`, whose extra field length becomes that
/// of the central form of its extra fields.
pub fn build_central_directory_file_header(
    central_directory_header: &mut ArchiveDescriptor,
    file_info: &mut ArchiveFileEntry,
)
    ensures
        final(file_info).extra_field_length == spec_records_central_bytes(
            old(file_info).extra_fields@,
            *old(file_info),
        ).len() as u16,
        *final(file_info) == (ArchiveFileEntry {
            extra_field_length: final(file_info).extra_field_length,
            ..*old(file_info)
        }),
        final(central_directory_header)@ == old(central_directory_header)@ + spec_central_header(
            *final(file_info),
            spec_records_central_bytes(old(file_info).extra_fields@, *old(file_info)),
        ),
{
    let mut extra_field_buffer = ArchiveDescriptor::new(file_info.extra_field_length as u64);
    let mut i: usize = 0;
    while i < file_info.extra_fields.len()
        invariant
            i <= file_info.extra_fields@.len(),
            extra_field_buffer@ == spec_records_central_bytes(
                file_info.extra_fields@.take(i as int),
                *file_info,
            ),
        decreases file_info.extra_fields@.len() - i,
    {
        file_info.extra_fields[i].central_header_extra_write_data(
            &mut extra_field_buffer,
            file_info,
        );
        assert(file_info.extra_fields@.take(i + 1).drop_last() =~= file_info.extra_fields@.take(
            i as int,
        ));
        i = i + 1;
    }
    assert(file_info.extra_fields@.take(i as int) =~= file_info.extra_fields@);
    let ghost extra = extra_field_buffer@;
    file_info.extra_field_length = extra_field_buffer.len() as u16;
    let ghost start = central_directory_header@;
    central_directory_header.write_u32(CENTRAL_DIRECTORY_ENTRY_SIGNATURE);
    central_directory_header.write_u16(file_info.version_made_by);
    central_directory_header.write_u16(file_info.version_needed_to_extract());
    central_directory_header.write_u16(file_info.general_purpose_flags);
    central_directory_header.write_u16(file_info.compression_method);
    central_directory_header.write_u16(file_info.last_mod_file_time);
    central_directory_header.write_u16(file_info.last_mod_file_date);
    central_directory_header.write_u32(file_info.crc32);
    central_directory_header.write_u32(file_info.zip64_compressed_size());
    central_directory_header.write_u32(file_info.zip64_uncompressed_size());
    central_directory_header.write_u16(file_info.file_name_len);
    central_directory_header.write_u16(file_info.extra_field_length);
    central_directory_header.write_u16(file_info.file_comment_length());
    central_directory_header.write_u16(file_info.file_disk_number as u16);
    central_directory_header.write_u16(file_info.internal_file_attributes);
    central_directory_header.write_u32(file_info.external_file_attributes);
    central_directory_header.write_u32(file_info.zip64_offset());
    central_directory_header.write_bytes(file_info.file_name_as_bytes.as_slice());
    central_directory_header.write_bytes(extra_field_buffer.bytes());
    if let Some(comment) = &file_info.file_comment {
        central_directory_header.write_bytes(comment.as_slice());
    }
    assert(central_directory_header@ =~= start + spec_central_header(*file_info, extra));
}

/// The data descriptor of `e`: signature, CRC-32, then the sizes, as 64-bit values when `e`
/// needs the ZIP64 format and as 32-bit values otherwise.
pub open spec fn spec_data_descriptor(e: ArchiveFileEntry) -> Seq<u8> {
    le_u32(DATA_DESCRIPTOR_SIGNATURE) + le_u32(e.crc32) + if spec_is_zip64(e) {
        le_u64(e.compressed_size) + le_u64(e.uncompressed_size)
    } else {
        le_u32(e.compressed_size as u32) + le_u32(e.uncompressed_size as u32)
    }
}

/// The data descriptor that follows the data of `archive_file_entry`.
pub fn build_data_descriptor(archive_file_entry: &ArchiveFileEntry) -> (d: ArchiveDescriptor)
    ensures
        d@ == spec_data_descriptor(*archive_file_entry),
{
    let mut file_descriptor = ArchiveDescriptor::new(ZIP64_DESCRIPTOR_SIZE);
    file_descriptor.write_u32(DATA_DESCRIPTOR_SIGNATURE);
    file_descriptor.write_u32(archive_file_entry.crc32);
    if archive_file_entry.is_zip64() {
        file_descriptor.write_u64(archive_file_entry.compressed_size);
        file_descriptor.write_u64(archive_file_entry.uncompressed_size);
    } else {
        file_descriptor.write_u32(archive_file_entry.compressed_size as u32);
        file_descriptor.write_u32(archive_file_entry.uncompressed_size as u32);
    }
    assert(file_descriptor@ =~= spec_data_descriptor(*archive_file_entry));
    file_descriptor
}

/// The CRC-32 and 32-bit sizes of `e`, as they patch its local header.
pub open spec fn spec_file_sizes_update(e: ArchiveFileEntry) -> Seq<u8> {
    le_u32(e.crc32) + le_u32(sat_u32(e.compressed_size as int)) + le_u32(
        sat_u32(e.uncompressed_size as int),
    )
}

/// The CRC-32 and sizes that patch the local header of `archive_file_entry` once its data is
/// written, each size capped at `u32::MAX`.
pub fn build_file_sizes_update(archive_file_entry: &ArchiveFileEntry) -> (d: ArchiveDescriptor)
    ensures
        d@ == spec_file_sizes_update(*archive_file_entry),
{
    let mut file_descriptor = ArchiveDescriptor::new(12);
    file_descriptor.write_u32(archive_file_entry.crc32);
    file_descriptor.write_u32(archive_file_entry.zip64_compressed_size());
    file_descriptor.write_u32(archive_file_entry.zip64_uncompressed_size());
    assert(file_descriptor@ =~= spec_file_sizes_update(*archive_file_entry));
    file_descriptor
}

/// Whether a size of `e` does not fit 32 bits.
pub open spec fn spec_big_file(e: ArchiveFileEntry) -> bool {
    e.compressed_size >= 0xFFFF_FFFF || e.uncompressed_size >= 0xFFFF_FFFF
}

/// Whether some entry of `es` has a size that does not fit 32 bits.
pub open spec fn spec_has_big_file(es: Seq<ArchiveFileEntry>) -> bool {
    exists|i: int| 0 <= i < es.len() && spec_big_file(#[trigger] es[i])
}

/// Whether an archive whose end fields are `e` ends with the ZIP64 records: some field
/// overflows the classic record, or `big_file`, some entry's size does not fit 32 bits.
pub open spec fn spec_uses_zip64_end(e: CentralDirectoryEnd, big_file: bool) -> bool {
    spec_needs_zip64(e) || big_file
}

/// The end of central directory fields of an archive with `count` entries whose central
/// directory starts at `offset` and is `size` bytes long; `big_file` tells whether some entry's
/// size does not fit 32 bits.
pub open spec fn spec_end_fields(
    old_end: CentralDirectoryEnd,
    count: u64,
    offset: u64,
    size: u64,
    big_file: bool,
) -> CentralDirectoryEnd {
    CentralDirectoryEnd {
        number_of_this_disk: 0,
        number_of_the_disk_with_central_directory: 0,
        total_number_of_entries_on_this_disk: count,
        total_number_of_entries_in_the_central_directory: count,
        central_directory_size: size,
        offset_of_start_of_central_directory: offset,
        z64ecdl_relative_offset_of_the_zip64_end_of_central_directory_record: if spec_uses_zip64_end(
            CentralDirectoryEnd {
                number_of_this_disk: 0,
                number_of_the_disk_with_central_directory: 0,
                total_number_of_entries_on_this_disk: count,
                total_number_of_entries_in_the_central_directory: count,
                central_directory_size: size,
                offset_of_start_of_central_directory: offset,
                ..old_end
            },
            big_file,
        ) {
            (offset + size) as u64
        } else {
            old_end.z64ecdl_relative_offset_of_the_zip64_end_of_central_directory_record
        },
        ..old_end
    }
}

/// The records that end an archive whose end fields are `e`: the ZIP64 end record and locator
/// when some field overflows the classic record or, as `big_file` tells, some entry's size does
/// not fit 32 bits; then the classic record.
pub open spec fn spec_archive_end(e: CentralDirectoryEnd, big_file: bool) -> Seq<u8> {
    (if spec_uses_zip64_end(e, big_file) {
        spec_zip64_end_record(e) + spec_zip64_locator(e)
    } else {
        Seq::empty()
    }) + spec_end_record(e)
}

/// Records the entry count, size and offset of the central directory, and builds the records
/// that end the archive.
pub fn build_central_directory_end(
    data: &mut SubZipArchiveData,
    central_directory_offset: u64,
    central_directory_size: u64,
) -> (d: ArchiveDescriptor)
    requires
        central_directory_offset + central_directory_size <= u64::MAX,
    ensures
        final(data).spec_end() == spec_end_fields(
            old(data).spec_end(),
            old(data).spec_files().len() as u64,
            central_directory_offset,
            central_directory_size,
            spec_has_big_file(old(data).spec_files()),
        ),
        final(data).spec_files() == old(data).spec_files(),
        final(data).spec_archive_size() == old(data).spec_archive_size(),
        final(data).spec_base_flags() == old(data).spec_base_flags(),
        final(data).spec_is_big() == old(data).spec_is_big(),
        d@ == spec_archive_end(final(data).spec_end(), spec_has_big_file(old(data).spec_files())),
{
    let big_file = data.has_big_file();
    let count = data.files_info.len() as u64;
    data.central_directory_end.number_of_this_disk = 0;
    data.central_directory_end.number_of_the_disk_with_central_directory = 0;
    data.central_directory_end.total_number_of_entries_on_this_disk = count;
    data.central_directory_end.total_number_of_entries_in_the_central_directory = count;
    data.central_directory_end.central_directory_size = central_directory_size;
    data.central_directory_end.offset_of_start_of_central_directory = central_directory_offset;
    let mut end_of_central_directory = ArchiveDescriptor::new(500);
    if data.central_directory_end.needs_zip64_format_extensions() || big_file {
        data.central_directory_end.create_zip64_end_of_central_directory_record(
            &mut end_of_central_directory,
        );
        data.central_directory_end.create_end_of_central_directory_locator(
            &mut end_of_central_directory,
        );
    }
    let ghost before = end_of_central_directory@;
    data.central_directory_end.create_end_of_central_directory(&mut end_of_central_directory);
    assert(end_of_central_directory@ =~= spec_archive_end(data.central_directory_end, big_file));
    end_of_central_directory
}

} // verus!

verus! {

/// `s` with the bytes from `at` on overwritten by `b`, as far as `s` reaches.
pub open spec fn spec_patch(s: Seq<u8>, at: int, b: Seq<u8>) -> Seq<u8> {
    Seq::new(s.len(), |i: int| if at <= i < at + b.len() { b[i - at] } else { s[i] })
}

/// `e` once its data is written: its CRC-32, sizes and apparent file type recorded.
pub open spec fn spec_filled_entry(
    e: ArchiveFileEntry,
    crc32: u32,
    compressed_size: u64,
    uncompressed_size: u64,
    is_text: bool,
) -> ArchiveFileEntry {
    ArchiveFileEntry {
        crc32: crc32,
        compressed_size: compressed_size,
        uncompressed_size: uncompressed_size,
        internal_file_attributes: if is_text {
            e.internal_file_attributes | 1
        } else {
            e.internal_file_attributes & !1u16
        },
        ..e
    }
}

/// The bytes that an entry adds to the archive: its local header `h` and data `c`, followed by
/// a data descriptor when the sizes are streamed; otherwise the header is patched with the
/// CRC-32 and sizes, and, for an entry that needs the ZIP64 format, with the ZIP64 field where
/// the extra field starts, after the name, when one was reserved, or followed by a data
/// descriptor when none was.
pub open spec fn spec_entry_bytes(h: Seq<u8>, c: Seq<u8>, e: ArchiveFileEntry, reserved: bool) -> Seq<
    u8,
> {
    let hc = h + c;
    if spec_is_streaming(e.general_purpose_flags) {
        hc + spec_data_descriptor(e)
    } else {
        let p1 = spec_patch(hc, 14, spec_file_sizes_update(e));
        if spec_is_zip64(e) {
            if reserved {
                spec_patch(p1, 30 + e.file_name_len, spec_zip64_local_bytes(e))
            } else {
                p1 + spec_data_descriptor(e)
            }
        } else {
            p1
        }
    }
}

/// Whether `rec` is `e` as the archive records it: with a ZIP64 field added when `e` needs the
/// ZIP64 format and has none.
pub open spec fn spec_recorded(rec: ArchiveFileEntry, e: ArchiveFileEntry) -> bool {
    &&& rec == (ArchiveFileEntry { extra_fields: rec.extra_fields, ..e })
    &&& rec.extra_fields@ == if !crate::archive_common::spec_has_zip64(e.extra_fields@)
        && spec_is_zip64(e) {
        e.extra_fields@.push(
            ExtraFieldRecord::Zip64(ExtraFieldZIP64ExtendedInformation { parsed_sized: 0 }),
        )
    } else {
        e.extra_fields@
    }
}

/// Overwrites the bytes of `out` from `at` on with `b`, as far as `out` reaches.
fn patch(out: &mut Vec<u8>, at: usize, b: &[u8])
    ensures
        final(out)@ == spec_patch(old(out)@, at as int, b@),
{
    let mut i: usize = 0;
    while i < b.len()
        invariant
            i <= b@.len(),
            out@ == spec_patch(old(out)@, at as int, b@.take(i as int)),
        decreases b@.len() - i,
    {
        if at < out.len() && i < out.len() - at {
            out.set(at + i, b[i]);
        }
        i = i + 1;
        assert(out@ =~= spec_patch(old(out)@, at as int, b@.take(i as int)));
    }
    assert(b@.take(i as int) =~= b@);
}

/// Appends `bytes` to `out`.
fn append_bytes(out: &mut Vec<u8>, bytes: &[u8])
    ensures
        final(out)@ == old(out)@ + bytes@,
{
    let mut i: usize = 0;
    while i < bytes.len()
        invariant
            i <= bytes@.len(),
            out@ == old(out)@ + bytes@.take(i as int),
        decreases bytes@.len() - i,
    {
        out.push(bytes[i]);
        i = i + 1;
        assert(out@ =~= old(out)@ + bytes@.take(i as int));
    }
    assert(bytes@.take(i as int) =~= bytes@);
}

/// The reason an archive cannot grow past 2^64 bytes.
fn size_overflow_error() -> (e: crate::error::ArchiveError)
    ensures
        e is BadArchiveStructure,
{
    crate::error::ArchiveError::BadArchiveStructure(String::from_str("archive size exceeds 2^64 bytes"))
}

/// Whether writing the entry whose header is `header` and whose compression gave `compressed`
/// takes the archive from `data_old` at position `written_old` with output `out_old` to
/// `data_new`, `written_new`, `out_new`, returning `r` (see `write_entry`).
pub open spec fn spec_write_entry(
    data_old: SubZipArchiveData,
    data_new: SubZipArchiveData,
    written_old: u64,
    written_new: u64,
    out_old: Seq<u8>,
    out_new: Seq<u8>,
    header: (ArchiveDescriptor, ArchiveFileEntry, Option<ExtraFieldZIP64ExtendedInformation>),
    compressed: Result<crate::compress::standard::compressor::CompressedPayload, crate::error::ArchiveError>,
    r: Result<(), crate::error::ArchiveError>,
) -> bool {
    let h = header.0@;
    match compressed {
        Err(e) => {
            &&& data_new == data_old
            &&& if written_old + h.len() <= u64::MAX {
                &&& r == Err::<(), crate::error::ArchiveError>(e)
                &&& out_new == out_old + h
                &&& written_new == written_old + h.len()
            } else {
                &&& r matches Err(e2) && e2 is BadArchiveStructure
                &&& out_new == out_old
                &&& written_new == written_old
            }
        },
        Ok(p) => {
            let e = spec_filled_entry(header.1, p.crc32, p.data@.len() as u64, p.uncompressed_size, p.is_text);
            let bytes = spec_entry_bytes(h, p.data@, e, header.2 is Some);
            if written_old + bytes.len() <= u64::MAX {
                &&& r is Ok
                &&& out_new == out_old + bytes
                &&& written_new == written_old + bytes.len()
                &&& data_new.spec_files().len() == data_old.spec_files().len() + 1
                &&& data_new.spec_files().take(data_old.spec_files().len() as int) == data_old.spec_files()
                &&& spec_recorded(data_new.spec_files().last(), e)
                &&& data_new.spec_archive_size() == written_new
                &&& data_new.spec_end() == data_old.spec_end()
                &&& data_new.spec_base_flags() == data_old.spec_base_flags()
            } else {
                &&& r matches Err(e2) && e2 is BadArchiveStructure
                &&& data_new == data_old
                &&& out_new == out_old
                &&& written_new == written_old
            }
        },
    }
}

/// Writes one entry: its local header, then its compressed data and what records its sizes
/// (see `spec_entry_bytes`), appending the bytes to `out` and advancing `written`, the position
/// in the archive; the entry is then recorded and the archive size set to the new position.
/// When compression failed, only the header is written and the error is returned.
pub fn write_entry(
    data: &mut SubZipArchiveData,
    written: &mut u64,
    header: (ArchiveDescriptor, ArchiveFileEntry, Option<ExtraFieldZIP64ExtendedInformation>),
    compressed: Result<crate::compress::standard::compressor::CompressedPayload, crate::error::ArchiveError>,
    out: &mut Vec<u8>,
) -> (r: Result<(), crate::error::ArchiveError>)
    ensures
        spec_write_entry(
            *old(data),
            *final(data),
            *old(written),
            *final(written),
            old(out)@,
            final(out)@,
            header,
            compressed,
            r,
        ),
{
    let (file_header, mut archive_file_entry, extrafield_zip64) = header;
    let payload = match compressed {
        Err(e) => {
            if *written > u64::MAX - (file_header.len() as u64) {
                return Err(size_overflow_error());
            }
            append_bytes(out, file_header.buffer());
            *written = *written + file_header.len() as u64;
            return Err(e);
        },
        Ok(p) => p,
    };
    let compressed_size = payload.data.len() as u64;
    archive_file_entry.crc32 = payload.crc32;
    archive_file_entry.compressed_size = compressed_size;
    archive_file_entry.uncompressed_size = payload.uncompressed_size;
    archive_file_entry.apparently_text_file(payload.is_text);
    let ghost e = archive_file_entry;
    let mut bytes: Vec<u8> = Vec::new();
    append_bytes(&mut bytes, file_header.buffer());
    append_bytes(&mut bytes, payload.data.as_slice());
    if is_streaming(archive_file_entry.general_purpose_flags) {
        let data_descriptor = build_data_descriptor(&archive_file_entry);
        append_bytes(&mut bytes, data_descriptor.buffer());
    } else {
        let sizes_update = build_file_sizes_update(&archive_file_entry);
        patch(&mut bytes, 14, sizes_update.buffer());
        if archive_file_entry.is_zip64() {
            if let Some(zip64_extra_field) = &extrafield_zip64 {
                let mut file_descriptor = ArchiveDescriptor::new(30);
                zip64_extra_field.local_header_write_data(&mut file_descriptor, &archive_file_entry);
                patch(&mut bytes, 30 + archive_file_entry.file_name_len as usize, file_descriptor.buffer());
            } else {
                let data_descriptor = build_data_descriptor(&archive_file_entry);
                append_bytes(&mut bytes, data_descriptor.buffer());
            }
        }
    }
    assert(bytes@ =~= spec_entry_bytes(file_header@, payload.data@, e, extrafield_zip64 is Some));
    if *written > u64::MAX - (bytes.len() as u64) {
        return Err(size_overflow_error());
    }
    append_bytes(out, bytes.as_slice());
    *written = *written + bytes.len() as u64;
    archive_file_entry.need_to_add_zip64_extra_field();
    data.add_archive_file_entry(archive_file_entry);
    data.set_archive_size(*written);
    assert(data.spec_files().take(old(data).spec_files().len() as int) =~= old(data).spec_files());
    Ok(())
}

} // verus!

verus! {

/// `e` as its central directory header records it: its extra field length is that of the
/// central form of its extra fields.
pub open spec fn spec_cd_entry(e: ArchiveFileEntry) -> ArchiveFileEntry {
    ArchiveFileEntry {
        extra_field_length: spec_records_central_bytes(e.extra_fields@, e).len() as u16,
        ..e
    }
}

/// The central directory header of `e`.
#[verifier::opaque]
pub open spec fn spec_cd_header(e: ArchiveFileEntry) -> Seq<u8> {
    spec_central_header(spec_cd_entry(e), spec_records_central_bytes(e.extra_fields@, e))
}

/// The central directory of the entries `es`: their headers in order.
pub open spec fn spec_central_directory(es: Seq<ArchiveFileEntry>) -> Seq<u8>
    decreases es.len(),
{
    if es.len() == 0 {
        Seq::empty()
    } else {
        spec_central_directory(es.drop_last()) + spec_cd_header(es.last())
    }
}

impl SubZipArchiveData {
    /// Builds the central directory of the entries written so far, recording in each entry the
    /// length of its central extra field.
    pub fn build_central_directory(&mut self) -> (d: ArchiveDescriptor)
        ensures
            d@ == spec_central_directory(old(self).spec_files()),
            final(self).spec_files().len() == old(self).spec_files().len(),
            forall|i: int|
                0 <= i < old(self).spec_files().len() ==> #[trigger] final(self).spec_files()[i]
                    == spec_cd_entry(old(self).spec_files()[i]),
            final(self).spec_end() == old(self).spec_end(),
            final(self).spec_archive_size() == old(self).spec_archive_size(),
            final(self).spec_base_flags() == old(self).spec_base_flags(),
            final(self).spec_is_big() == old(self).spec_is_big(),
    {
        let ghost orig = self.files_info@;
        let mut remaining: Vec<ArchiveFileEntry> = Vec::new();
        std::mem::swap(&mut remaining, &mut self.files_info);
        let mut done: Vec<ArchiveFileEntry> = Vec::new();
        let mut central_directory_header = ArchiveDescriptor::new(246);
        let n = remaining.len();
        let mut i: usize = 0;
        while i < n
            invariant
                n == orig.len(),
                i <= n,
                remaining@ == orig.skip(i as int),
                done@.len() == i,
                forall|j: int| 0 <= j < i ==> #[trigger] done@[j] == spec_cd_entry(orig[j]),
                central_directory_header@ == spec_central_directory(orig.take(i as int)),
            decreases n - i,
        {
            let mut file_info = remaining.remove(0);
            assert(file_info == orig[i as int]);
            build_central_directory_file_header(&mut central_directory_header, &mut file_info);
            proof {
                reveal(spec_cd_header);
            }
            done.push(file_info);
            proof {
                assert(orig.take(i + 1).drop_last() =~= orig.take(i as int));
                assert(orig.skip(i as int).remove(0) =~= orig.skip(i + 1));
            }
            i = i + 1;
        }
        self.files_info = done;
        assert(orig.take(n as int) =~= orig);
        central_directory_header
    }
}

/// `comment` cut to the 65535 bytes that the end record can hold.
pub open spec fn spec_cut_comment(comment: Seq<u8>) -> Seq<u8> {
    comment.take(if comment.len() < 0xFFFF { comment.len() as int } else { 0xFFFF })
}

/// Whether `after`, with `written_after` bytes written, is `before`, with `written_before`, once
/// its archive comment is set to `comment`: the comment is replaced by `comment` cut to 65535
/// bytes, the other end fields, the entries, sizes and base flags are kept, and nothing is
/// written.
pub open spec fn spec_comment_set(
    before: SubZipArchiveData,
    written_before: u64,
    after: SubZipArchiveData,
    written_after: u64,
    comment: Seq<u8>,
) -> bool {
    &&& after.spec_end().archive_comment matches Some(c) && c@ == spec_cut_comment(comment)
    &&& after.spec_end() == (CentralDirectoryEnd {
        archive_comment: after.spec_end().archive_comment,
        ..before.spec_end()
    })
    &&& after.spec_files() == before.spec_files()
    &&& after.spec_archive_size() == before.spec_archive_size()
    &&& after.spec_base_flags() == before.spec_base_flags()
    &&& written_after == written_before
}

/// The end fields that ending an archive described by `data`, whose central directory starts at
/// `written`, records.
pub open spec fn spec_tail_end_fields(data: SubZipArchiveData, written: u64) -> CentralDirectoryEnd {
    spec_end_fields(
        data.spec_end(),
        data.spec_files().len() as u64,
        written,
        spec_central_directory(data.spec_files()).len() as u64,
        spec_has_big_file(data.spec_files()),
    )
}

/// What ending an archive described by `data`, whose central directory starts at `written`,
/// writes: the central directory, then the records that end the archive.
pub open spec fn spec_archive_tail(data: SubZipArchiveData, written: u64) -> Seq<u8> {
    spec_central_directory(data.spec_files()) + spec_archive_end(
        spec_tail_end_fields(data, written),
        spec_has_big_file(data.spec_files()),
    )
}

/// Writes the central directory and the records that end the archive, appending them to `out`
/// and advancing `written`; the central directory starts at `written` and the end fields
/// record its offset, size and entry count. Returns the archive size.
pub fn write_archive_end(
    data: &mut SubZipArchiveData,
    written: &mut u64,
    out: &mut Vec<u8>,
) -> (r: Result<u64, crate::error::ArchiveError>)
    ensures
        ({
            let tail = spec_archive_tail(*old(data), *old(written));
            if old(written) + tail.len() <= u64::MAX {
                &&& r == Ok::<u64, crate::error::ArchiveError>(*final(written))
                &&& final(out)@ == old(out)@ + tail
                &&& *final(written) == old(written) + tail.len()
                &&& final(data).spec_end() == spec_tail_end_fields(*old(data), *old(written))
                &&& final(data).spec_archive_size() == *final(written)
                &&& final(data).spec_files().len() == old(data).spec_files().len()
            } else {
                &&& r matches Err(e) && e is BadArchiveStructure
                &&& final(out)@ == old(out)@
                &&& *final(written) == *old(written)
            }
        }),
{
    let central_directory_offset = *written;
    let ghost files = data.spec_files();
    let central_directory = data.build_central_directory();
    proof {
        assert forall|i: int| 0 <= i < files.len() implies spec_big_file(#[trigger] files[i])
            == spec_big_file(data.spec_files()[i]) by {
            assert(data.spec_files()[i] == spec_cd_entry(files[i]));
        }
        if spec_has_big_file(files) {
            let i = choose|i: int| 0 <= i < files.len() && spec_big_file(#[trigger] files[i]);
            assert(spec_big_file(data.spec_files()[i]));
        }
        if spec_has_big_file(data.spec_files()) {
            let i = choose|i: int| 0 <= i < data.spec_files().len() && spec_big_file(
                #[trigger] data.spec_files()[i],
            );
            assert(spec_big_file(files[i]));
        }
    }
    let cd_len = central_directory.len() as u64;
    if central_directory_offset > u64::MAX - cd_len {
        return Err(size_overflow_error());
    }
    let end_of_central_directory = build_central_directory_end(
        data,
        central_directory_offset,
        cd_len,
    );
    let end_len = end_of_central_directory.len() as u64;
    if central_directory_offset + cd_len > u64::MAX - end_len {
        return Err(size_overflow_error());
    }
    append_bytes(out, central_directory.buffer());
    append_bytes(out, end_of_central_directory.buffer());
    assert(out@ =~= old(out)@ + (central_directory@ + end_of_central_directory@));
    *written = central_directory_offset + cd_len + end_len;
    data.set_archive_size(*written);
    Ok(*written)
}

} // verus!

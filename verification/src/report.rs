//! Human-readable reports of archive entries and of whole archives.
use vstd::prelude::*;
use vstd::string::*;

use crate::archive_common::{
    CentralDirectoryEnd, lossy_utf8, spec_file_comment_length, spec_first_timestamp, utf8_lossy_text, ArchiveFileEntry,
    ExtraFieldExtendedTimestamp, ExtraFieldRecord, ExtraFieldUnknown,
    ExtraFieldZIP64ExtendedInformation,
};
use crate::compression::{spec_label, spec_method_of_code, CompressionMethod};
use crate::constants::{MS_DIR, S_IFDIR};
use crate::uncompress::ArchiveReader;
use crate::text::{
    decimal_string, decimal_text, left_pad, left_padded, radix_string, radix_text, right_pad,
    right_padded,
};
use crate::types::{
    chrono_datetime_text, chrono_utc_text, local_text, spec_from_msdos, spec_system_from_u8,
    spec_system_text, spec_to_time, utc_text, DateTimeCS, FileCompatibilitySystem,
};

verus! {

/// The one-character text `yes` when `set`, `-` otherwise.
fn mark(set: bool, yes: &'static str) -> (s: &'static str)
    ensures
        s@ == if set { yes@ } else { "-"@ },
{
    if set {
        yes
    } else {
        "-"
    }
}

/// The `ls -l` style text of Unix mode bits: the directory flag, then read, write and execute
/// for the owner, the group and the others.
pub open spec fn spec_unix_attributes_text(a: u32) -> Seq<char> {
    seq![
        if a & S_IFDIR != 0 { 'd' } else { '-' },
        if a & 256 != 0 { 'r' } else { '-' },
        if a & 128 != 0 { 'w' } else { '-' },
        if a & 64 != 0 { 'x' } else { '-' },
        if a & 32 != 0 { 'r' } else { '-' },
        if a & 16 != 0 { 'w' } else { '-' },
        if a & 8 != 0 { 'x' } else { '-' },
        if a & 4 != 0 { 'r' } else { '-' },
        if a & 2 != 0 { 'w' } else { '-' },
        if a & 1 != 0 { 'x' } else { '-' },
    ]
}

/// The `ls -l` style text of the Unix mode bits `file_attributes`.
pub fn readable_file_unix_attributes(file_attributes: u32) -> (s: String)
    ensures
        s@ == spec_unix_attributes_text(file_attributes),
{
    proof {
        reveal_strlit("-");
        reveal_strlit("d");
        reveal_strlit("r");
        reveal_strlit("w");
        reveal_strlit("x");
    }
    let a = file_attributes;
    let mut s = String::new();
    s.append(mark(a & S_IFDIR != 0, "d"));
    s.append(mark(a & 256 != 0, "r"));
    s.append(mark(a & 128 != 0, "w"));
    s.append(mark(a & 64 != 0, "x"));
    s.append(mark(a & 32 != 0, "r"));
    s.append(mark(a & 16 != 0, "w"));
    s.append(mark(a & 8 != 0, "x"));
    s.append(mark(a & 4 != 0, "r"));
    s.append(mark(a & 2 != 0, "w"));
    s.append(mark(a & 1 != 0, "x"));
    assert(s@ =~= spec_unix_attributes_text(file_attributes));
    s
}

/// The letter that the `k`-th permission character shows when its bit is set: `r`, `w`, `x`
/// for read, write and execute, in turn for the owner, the group and the others.
pub open spec fn permission_letter(k: int) -> char {
    if k % 3 == 0 {
        'r'
    } else if k % 3 == 1 {
        'w'
    } else {
        'x'
    }
}

/// The `ls -l` style text of any mode `a` has ten characters: `d` exactly when the directory
/// type bit (0o040000) is set, then nine permission characters, the `k`-th of which shows its
/// letter exactly when bit `0o400 >> k` of `a` is set and `-` otherwise; so the group's write
/// column follows bit 0o020 and the others' write column bit 0o002.
pub proof fn lemma_unix_attributes_bits(a: u32)
    ensures
        spec_unix_attributes_text(a).len() == 10,
        spec_unix_attributes_text(a)[0] == if a & 0o040000u32 != 0 { 'd' } else { '-' },
        forall|k: int|
            0 <= k < 9 ==> #[trigger] spec_unix_attributes_text(a)[1 + k] == if (a >> ((8 - k) as u32))
                & 1u32 == 1u32 {
                permission_letter(k)
            } else {
                '-'
            },
{
    let t = spec_unix_attributes_text(a);
    assert(a & 256u32 != 0 <==> (a >> 8u32) & 1u32 == 1u32) by (bit_vector);
    assert(a & 128u32 != 0 <==> (a >> 7u32) & 1u32 == 1u32) by (bit_vector);
    assert(a & 64u32 != 0 <==> (a >> 6u32) & 1u32 == 1u32) by (bit_vector);
    assert(a & 32u32 != 0 <==> (a >> 5u32) & 1u32 == 1u32) by (bit_vector);
    assert(a & 16u32 != 0 <==> (a >> 4u32) & 1u32 == 1u32) by (bit_vector);
    assert(a & 8u32 != 0 <==> (a >> 3u32) & 1u32 == 1u32) by (bit_vector);
    assert(a & 4u32 != 0 <==> (a >> 2u32) & 1u32 == 1u32) by (bit_vector);
    assert(a & 2u32 != 0 <==> (a >> 1u32) & 1u32 == 1u32) by (bit_vector);
    assert(a & 1u32 != 0 <==> (a >> 0u32) & 1u32 == 1u32) by (bit_vector);
    assert forall|k: int| 0 <= k < 9 implies #[trigger] t[1 + k] == if (a >> ((8 - k) as u32)) & 1u32
        == 1u32 {
        permission_letter(k)
    } else {
        '-'
    } by {
        if k == 0 {
        } else if k == 1 {
        } else if k == 2 {
        } else if k == 3 {
        } else if k == 4 {
        } else if k == 5 {
        } else if k == 6 {
        } else if k == 7 {
        } else {
        }
    }
}

/// The text of MS-DOS attributes: `none` when there is none, `dir` for a directory, and
/// nothing otherwise.
pub open spec fn spec_dos_attributes_text(a: u32) -> Seq<char> {
    if a == 0 {
        "none"@
    } else if a & MS_DIR != 0 {
        "dir"@
    } else {
        ""@
    }
}

/// The text of the MS-DOS attributes `file_attributes`.
pub fn readable_file_dos_attributes(file_attributes: u32) -> (s: &'static str)
    ensures
        s@ == spec_dos_attributes_text(file_attributes),
{
    if file_attributes == 0 {
        return "none";
    }
    if file_attributes & MS_DIR != 0 {
        return "dir";
    }
    ""
}

/// `0x` and the four upper case hexadecimal digits of the field ID `id`.
pub open spec fn spec_id_text(id: u16) -> Seq<char> {
    "0x"@ + left_padded(radix_text(id as nat, 16, true), 4, '0')
}

/// `0x` and the four upper case hexadecimal digits of the field ID `id`.
fn id_string(id: u16) -> (s: String)
    ensures
        s@ == spec_id_text(id),
{
    proof {
        reveal_strlit("0");
    }
    let digits = radix_string(id as u64, 16, true);
    let padded = left_pad(digits.as_str(), 4, "0");
    let mut s = String::from_str("0x");
    s.append(padded.as_str());
    s
}

/// The names of the times whose flags are set, separated by `/`.
pub open spec fn spec_time_names(flags: u8) -> Seq<char> {
    let m = flags & 1 != 0;
    let a = flags & 2 != 0;
    let c = flags & 4 != 0;
    (if m { "modification"@ } else { ""@ }) + (if a {
        (if m { "/"@ } else { ""@ }) + "access"@
    } else {
        ""@
    }) + (if c {
        (if m || a { "/"@ } else { ""@ }) + "creation"@
    } else {
        ""@
    })
}

/// `s` when the flags name more than one time.
pub open spec fn spec_time_plural(flags: u8) -> Seq<char> {
    let m = flags & 1 != 0;
    let a = flags & 2 != 0;
    let c = flags & 4 != 0;
    if (a && m) || (c && (m || a)) {
        "s"@
    } else {
        ""@
    }
}

/// The description of a timestamp field in a central directory report.
pub open spec fn spec_timestamp_display(t: ExtraFieldExtendedTimestamp) -> Seq<char> {
    "- A subfield with ID "@ + spec_id_text(ExtraFieldExtendedTimestamp::HEADER_ID)
        + " (universal time) and "@ + decimal_text(
        crate::archive_common::spec_ts_central_data_size(t) as nat,
    ) + " data bytes.\n  The local extra field has UTC/GMT "@ + spec_time_names(t.flags) + " time"@
        + spec_time_plural(t.flags) + "."@
}

/// The description of a ZIP64 field in a central directory report.
pub open spec fn spec_zip64_display(z: ExtraFieldZIP64ExtendedInformation) -> Seq<char> {
    "- A subfield with ID "@ + spec_id_text(ExtraFieldZIP64ExtendedInformation::HEADER_ID)
        + " (Zip64) and "@ + decimal_text(z.parsed_sized as nat) + " data bytes."@
}

/// The description of a field of unknown kind in a central directory report: its ID, with
/// the wording and the placeholder size of the ZIP64 description.
pub open spec fn spec_unknown_display(u: ExtraFieldUnknown) -> Seq<char> {
    "- A subfield with ID "@ + spec_id_text(u.header_id) + " (Zip64) and -1 data bytes."@
}

/// The description of the field `f` in a central directory report.
pub open spec fn spec_field_display(f: ExtraFieldRecord) -> Seq<char> {
    match f {
        ExtraFieldRecord::ExtendedTimestamp(t) => spec_timestamp_display(t),
        ExtraFieldRecord::Zip64(z) => spec_zip64_display(z),
        ExtraFieldRecord::Unknown(u) => spec_unknown_display(u),
    }
}

impl ExtraFieldExtendedTimestamp {
    /// The description of the field in a central directory report: its ID, its central data
    /// size and the times whose flags are set.
    pub fn display_central(&self) -> (s: String)
        ensures
            s@ == spec_timestamp_display(*self),
    {
        proof {
            reveal_strlit("");
        }
        let m = self.flags & ExtraFieldExtendedTimestamp::MODIFY_TIME_BIT != 0;
        let a = self.flags & ExtraFieldExtendedTimestamp::ACCESS_TIME_BIT != 0;
        let c = self.flags & ExtraFieldExtendedTimestamp::CREATE_TIME_BIT != 0;
        let mut times = String::new();
        let mut any = false;
        let mut plural = "";
        if m {
            times.append("modification");
            any = true;
        }
        let ghost t1: Seq<char> = if m { "modification"@ } else { ""@ };
        assert(times@ =~= t1);
        if a {
            if any {
                times.append("/");
                plural = "s";
            }
            times.append("access");
            any = true;
        }
        let ghost t2: Seq<char> = if a { (if m { "/"@ } else { ""@ }) + "access"@ } else { ""@ };
        assert(times@ =~= t1 + t2);
        if c {
            if any {
                times.append("/");
                plural = "s";
            }
            times.append("creation");
        }
        let ghost t3: Seq<char> = if c { (if m || a { "/"@ } else { ""@ }) + "creation"@ } else { ""@ };
        assert(times@ =~= t1 + t2 + t3);
        assert(times@ =~= spec_time_names(self.flags));
        assert(plural@ == spec_time_plural(self.flags));
        let mut s = String::from_str("- A subfield with ID ");
        let id = id_string(ExtraFieldExtendedTimestamp::HEADER_ID);
        s.append(id.as_str());
        s.append(" (universal time) and ");
        let size = decimal_string(self.central_header_extra_field_data_size() as u64);
        s.append(size.as_str());
        s.append(" data bytes.\n  The local extra field has UTC/GMT ");
        s.append(times.as_str());
        s.append(" time");
        s.append(plural);
        s.append(".");
        s
    }

    /// The UTC date and time of the modification timestamp, as chrono prints it; `None` without
    /// one, or where chrono cannot represent it.
    pub fn modified_time_utc(&self) -> (r: Option<String>)
        ensures
            match self.modify_time {
                Some(t) => match r {
                    Some(s) => chrono_utc_text(t) == Some(s@),
                    None => chrono_utc_text(t) is None,
                },
                None => r is None,
            },
    {
        match self.modify_time {
            Some(time) => utc_text(time),
            None => None,
        }
    }

    /// The local date and time of the modification timestamp, as chrono prints it; `None`
    /// exactly without one. The text depends on the machine's time zone.
    pub fn modified_time_local(&self) -> (r: Option<String>)
        ensures
            r is Some <==> self.modify_time is Some,
    {
        match self.modify_time {
            Some(time) => local_text(time),
            None => None,
        }
    }
}

impl ExtraFieldZIP64ExtendedInformation {
    /// The description of the field in a central directory report: its ID and its data size.
    pub fn display_central(&self) -> (s: String)
        ensures
            s@ == spec_zip64_display(*self),
    {
        let mut s = String::from_str("- A subfield with ID ");
        let id = id_string(ExtraFieldZIP64ExtendedInformation::HEADER_ID);
        s.append(id.as_str());
        s.append(" (Zip64) and ");
        let size = decimal_string(self.parsed_sized as u64);
        s.append(size.as_str());
        s.append(" data bytes.");
        s
    }
}

impl ExtraFieldUnknown {
    /// The description of the field in a central directory report: its ID, worded as the ZIP64
    /// description is, with a placeholder size.
    pub fn display_central(&self) -> (s: String)
        ensures
            s@ == spec_unknown_display(*self),
    {
        let mut s = String::from_str("- A subfield with ID ");
        let id = id_string(self.header_id);
        s.append(id.as_str());
        s.append(" (Zip64) and -1 data bytes.");
        s
    }
}

impl ExtraFieldRecord {
    /// The description of the field in a central directory report.
    pub fn display_central(&self) -> (s: String)
        ensures
            s@ == spec_field_display(*self),
    {
        match self {
            ExtraFieldRecord::ExtendedTimestamp(t) => t.display_central(),
            ExtraFieldRecord::Zip64(z) => z.display_central(),
            ExtraFieldRecord::Unknown(u) => u.display_central(),
        }
    }
}

/// A report line: `label` padded with spaces to 48 characters, then `value`.
pub open spec fn spec_line(label: Seq<char>, value: Seq<char>) -> Seq<char> {
    right_padded(label, 48) + value + "\n"@
}

/// A report line: `label` padded with spaces to 48 characters, then `value`.
fn line(label: &str, value: &str) -> (s: String)
    ensures
        s@ == spec_line(label@, value@),
{
    let mut s = right_pad(label, 48);
    s.append(value);
    s.append("\n");
    s
}

/// The low byte of a version word as `major.minor`: 46 is `4.6`.
pub open spec fn spec_version_text(v: u16) -> Seq<char> {
    let b = (v % 256) as u8;
    decimal_text((b / 10) as nat) + "."@ + decimal_text((b % 10) as nat)
}

/// The low byte of a version word as `major.minor`.
fn version_string(v: u16) -> (s: String)
    ensures
        s@ == spec_version_text(v),
{
    let (major, minor) = ArchiveFileEntry::pretty_version(v);
    let mut s = decimal_string(major as u64);
    s.append(".");
    let m = decimal_string(minor as u64);
    s.append(m.as_str());
    s
}

/// The name of the method that the code `code` stands for, or `unknown (code)`.
pub open spec fn spec_method_text(code: u16) -> Seq<char> {
    match spec_method_of_code(code) {
        Some(m) => spec_label(m),
        None => "unknown ("@ + decimal_text(code as nat) + ")"@,
    }
}

/// The name of the method that the code `code` stands for, or `unknown (code)`.
fn method_string(code: u16) -> (s: String)
    ensures
        s@ == spec_method_text(code),
{
    match CompressionMethod::from_compression_method(code) {
        Ok(m) => String::from_str(m.label()),
        Err(_) => {
            let mut s = String::from_str("unknown (");
            let d = decimal_string(code as u64);
            s.append(d.as_str());
            s.append(")");
            s
        },
    }
}

/// The date and time that `dt` stands for, as chrono prints it.
pub open spec fn spec_datetime_text(dt: DateTimeCS) -> Seq<char> {
    let f = spec_to_time(dt);
    chrono_datetime_text(f.0, f.1, f.2, f.3, f.4, f.5)
}

/// The label of the lines that report the modification time of a timestamp field.
pub open spec fn spec_modtime_label() -> Seq<char> {
    "file last modified on (UT extra field modtime):"@
}

/// The first part of the report of `e`: its name, offset, origin, versions, flags, method and
/// MS-DOS modification time.
pub open spec fn spec_report_head(e: ArchiveFileEntry) -> Seq<char> {
    utf8_lossy_text(e.file_name_as_bytes@) + "\n"@ + "\n"@ + spec_line(
        "offset of local header from start of archive:"@,
        decimal_text(e.offset as nat),
    ) + spec_line(
        ""@,
        "("@ + left_padded(radix_text(e.offset as nat, 16, true), 16, '0') + "h) bytes"@,
    ) + spec_line(
        "file system or operating system of origin:"@,
        spec_system_text(spec_system_from_u8((e.version_made_by / 256) as u8)),
    ) + spec_line("version of encoding software:"@, spec_version_text(e.version_made_by))
        + spec_line(
        "minimum software version required to extract:"@,
        spec_version_text(e.minimum_version_needed_to_extract),
    ) + spec_line(
        "general purpose bit flag:"@,
        "0b"@ + left_padded(radix_text(e.general_purpose_flags as nat, 2, false), 14, '0'),
    ) + spec_line("compression method:"@, spec_method_text(e.compression_method)) + spec_line(
        "file security status:"@,
        if e.general_purpose_flags & 1 != 0 {
            "encrypted"@
        } else {
            "not encrypted"@
        },
    ) + spec_line(
        "extended local header:"@,
        if e.general_purpose_flags & 8 != 0 {
            "yes"@
        } else {
            "no"@
        },
    ) + spec_line(
        "file last modified on (DOS date/time):"@,
        spec_datetime_text(spec_from_msdos(e.last_mod_file_date, e.last_mod_file_time)),
    )
}

/// The lines that report the modification time of the first timestamp field of `e`, if it
/// records one: in local time (the text `local`), then in UTC.
pub open spec fn spec_report_times(e: ArchiveFileEntry, local: Option<Seq<char>>) -> Seq<char> {
    match spec_first_timestamp(e.extra_fields@) {
        Some(i) => match e.extra_fields@[i] {
            ExtraFieldRecord::ExtendedTimestamp(t) => (match local {
                Some(l) => spec_line(spec_modtime_label(), l),
                None => Seq::empty(),
            }) + (match t.modify_time {
                Some(ts) => match chrono_utc_text(ts) {
                    Some(u) => spec_line(spec_modtime_label(), u),
                    None => Seq::empty(),
                },
                None => Seq::empty(),
            }),
            _ => Seq::empty(),
        },
        None => Seq::empty(),
    }
}

/// The Unix mode bits that the external attributes of `e` hold.
pub open spec fn spec_unix_bits(e: ArchiveFileEntry) -> u32 {
    (e.external_file_attributes >> 16u32) & 0xFFFF
}

/// The MS-DOS attributes that the external attributes of `e` hold.
pub open spec fn spec_dos_bits(e: ArchiveFileEntry) -> u32 {
    e.external_file_attributes & 0xFF
}

/// The middle part of the report of `e`: CRC-32, sizes, lengths, disk, file type and
/// attributes.
pub open spec fn spec_report_tail(e: ArchiveFileEntry) -> Seq<char> {
    spec_line(
        "32-bit CRC value (hex):"@,
        left_padded(radix_text(e.crc32 as nat, 16, false), 8, '0'),
    ) + spec_line("compressed size:"@, decimal_text(e.compressed_size as nat) + " bytes"@)
        + spec_line("uncompressed size:"@, decimal_text(e.uncompressed_size as nat) + " bytes"@)
        + spec_line("length of filename:"@, decimal_text(e.file_name_len as nat) + " characters"@)
        + spec_line("length of extra field:"@, decimal_text(e.extra_field_length as nat) + " bytes"@)
        + spec_line(
        "length of file comment:"@,
        decimal_text(spec_file_comment_length(e) as nat) + " characters"@,
    ) + spec_line(
        "disk number on which file begins:"@,
        "disk "@ + decimal_text((e.file_disk_number + 1) as nat),
    ) + spec_line(
        "apparent file type:"@,
        if e.internal_file_attributes & 1 != 0 {
            "text"@
        } else {
            "binary"@
        },
    ) + spec_line(
        "Unix file attributes ("@ + left_padded(radix_text(spec_unix_bits(e) as nat, 8, false), 6, '0')
            + " octal):"@,
        spec_unix_attributes_text(spec_unix_bits(e)),
    ) + spec_line(
        "MS-DOS file attributes ("@ + radix_text(spec_dos_bits(e) as nat, 16, true) + " hex): "@,
        spec_dos_attributes_text(spec_dos_bits(e)),
    )
}

/// The descriptions of the fields `fs`, one per line.
pub open spec fn spec_fields_text(fs: Seq<ExtraFieldRecord>) -> Seq<char>
    decreases fs.len(),
{
    if fs.len() == 0 {
        Seq::empty()
    } else {
        spec_fields_text(fs.drop_last()) + spec_field_display(fs.last()) + "\n"@
    }
}

/// The part of the report of `e` that describes its extra fields, if it has any.
pub open spec fn spec_report_extra(e: ArchiveFileEntry) -> Seq<char> {
    if e.extra_fields@.len() == 0 {
        Seq::empty()
    } else {
        right_padded("\nThe central-directory extra field contains:"@, 48) + "\n"@ + spec_fields_text(
            e.extra_fields@,
        )
    }
}

/// The part of the report of `e` that shows its comment, if it has one.
pub open spec fn spec_report_comment(e: ArchiveFileEntry) -> Seq<char> {
    match e.file_comment {
        Some(c) => "\n------------------------- file comment begins ----------------------------\n"@
            + utf8_lossy_text(c@) + "\n"@
            + "-------------------------- file comment ends -----------------------------\n"@,
        None => Seq::empty(),
    }
}

/// The report of `e`, in which `local` is the local text of its modification timestamp.
#[verifier::opaque]
pub open spec fn spec_entry_report(e: ArchiveFileEntry, local: Option<Seq<char>>) -> Seq<char> {
    spec_report_head(e) + spec_report_times(e, local) + spec_report_tail(e) + spec_report_extra(e)
        + spec_report_comment(e)
}

impl ArchiveFileEntry {
    /// The first part of the report.
    fn report_head(&self) -> (s: String)
        ensures
            s@ == spec_report_head(*self),
    {
        proof {
            reveal_strlit("0");
        }
        let mut s = lossy_utf8(self.file_name_as_bytes.as_slice());
        s.append("\n");
        s.append("\n");
        let v = decimal_string(self.offset);
        let l = line("offset of local header from start of archive:", v.as_str());
        s.append(l.as_str());
        let hex = radix_string(self.offset, 16, true);
        let padded = left_pad(hex.as_str(), 16, "0");
        let mut v = String::from_str("(");
        v.append(padded.as_str());
        v.append("h) bytes");
        let l = line("", v.as_str());
        s.append(l.as_str());
        let origin = FileCompatibilitySystem::from_u8(self.system_origin_code()).to_string();
        let l = line("file system or operating system of origin:", origin.as_str());
        s.append(l.as_str());
        let v = version_string(self.version_made_by);
        let l = line("version of encoding software:", v.as_str());
        s.append(l.as_str());
        let v = version_string(self.minimum_version_needed_to_extract);
        let l = line("minimum software version required to extract:", v.as_str());
        s.append(l.as_str());
        let bin = radix_string(self.general_purpose_flags as u64, 2, false);
        let padded = left_pad(bin.as_str(), 14, "0");
        let mut v = String::from_str("0b");
        v.append(padded.as_str());
        let l = line("general purpose bit flag:", v.as_str());
        s.append(l.as_str());
        let v = method_string(self.compression_method);
        let l = line("compression method:", v.as_str());
        s.append(l.as_str());
        let security = if self.is_encrypted() {
            "encrypted"
        } else {
            "not encrypted"
        };
        let l = line("file security status:", security);
        s.append(l.as_str());
        let extended = if self.extended_local_header() {
            "yes"
        } else {
            "no"
        };
        let l = line("extended local header:", extended);
        s.append(l.as_str());
        let date_time = DateTimeCS::from_msdos(self.last_mod_file_date, self.last_mod_file_time);
        let v = date_time.to_string();
        let l = line("file last modified on (DOS date/time):", v.as_str());
        s.append(l.as_str());
        s
    }

    /// The lines that report the modification time of the first timestamp field, if it records
    /// one; `local` is its local text.
    fn report_times(&self, local: Option<&str>) -> (s: String)
        ensures
            s@ == spec_report_times(*self, match local {
                Some(l) => Some(l@),
                None => None,
            }),
    {
        proof {
            reveal_strlit("file last modified on (UT extra field modtime):");
        }
        let mut s = String::new();
        if let Some(ts) = self.get_extra_field_time_stamp() {
            if let Some(l) = local {
                let ln = line("file last modified on (UT extra field modtime):", l);
                s.append(ln.as_str());
            }
            if let Some(u) = ts.modified_time_utc() {
                let ln = line("file last modified on (UT extra field modtime):", u.as_str());
                s.append(ln.as_str());
            }
            proof {
                let i = spec_first_timestamp(self.extra_fields@).unwrap();
                assert(self.extra_fields@[i] == ExtraFieldRecord::ExtendedTimestamp(*ts));
            }
            assert(s@ =~= spec_report_times(*self, match local {
                Some(l) => Some(l@),
                None => None,
            }));
        }
        s
    }

    /// The middle part of the report.
    fn report_tail(&self) -> (s: String)
        ensures
            s@ == spec_report_tail(*self),
    {
        proof {
            reveal_strlit("0");
        }
        let hex = radix_string(self.crc32 as u64, 16, false);
        let v = left_pad(hex.as_str(), 8, "0");
        let mut s = line("32-bit CRC value (hex):", v.as_str());
        let mut v = decimal_string(self.compressed_size);
        v.append(" bytes");
        let l = line("compressed size:", v.as_str());
        s.append(l.as_str());
        let mut v = decimal_string(self.uncompressed_size);
        v.append(" bytes");
        let l = line("uncompressed size:", v.as_str());
        s.append(l.as_str());
        let mut v = decimal_string(self.file_name_len as u64);
        v.append(" characters");
        let l = line("length of filename:", v.as_str());
        s.append(l.as_str());
        let mut v = decimal_string(self.extra_field_length as u64);
        v.append(" bytes");
        let l = line("length of extra field:", v.as_str());
        s.append(l.as_str());
        let mut v = decimal_string(self.file_comment_length() as u64);
        v.append(" characters");
        let l = line("length of file comment:", v.as_str());
        s.append(l.as_str());
        let mut v = String::from_str("disk ");
        let d = decimal_string(self.file_disk_number as u64 + 1);
        v.append(d.as_str());
        let l = line("disk number on which file begins:", v.as_str());
        s.append(l.as_str());
        let file_type = if self.is_apparently_text_file() {
            "text"
        } else {
            "binary"
        };
        let l = line("apparent file type:", file_type);
        s.append(l.as_str());
        let unix_file_attributes = (self.external_file_attributes >> 16u32) & 0xFFFF;
        let oct = radix_string(unix_file_attributes as u64, 8, false);
        let padded = left_pad(oct.as_str(), 6, "0");
        let mut label = String::from_str("Unix file attributes (");
        label.append(padded.as_str());
        label.append(" octal):");
        let v = readable_file_unix_attributes(unix_file_attributes);
        let l = line(label.as_str(), v.as_str());
        s.append(l.as_str());
        let dos_file_attributes = self.external_file_attributes & 0xFF;
        let hex = radix_string(dos_file_attributes as u64, 16, true);
        let mut label = String::from_str("MS-DOS file attributes (");
        label.append(hex.as_str());
        label.append(" hex): ");
        let l = line(label.as_str(), readable_file_dos_attributes(dos_file_attributes));
        s.append(l.as_str());
        s
    }

    /// The part of the report that describes the extra fields, if any.
    fn report_extra(&self) -> (s: String)
        ensures
            s@ == spec_report_extra(*self),
    {
        let mut s = String::new();
        if self.extra_fields.len() == 0 {
            return s;
        }
        let head = right_pad("\nThe central-directory extra field contains:", 48);
        s.append(head.as_str());
        s.append("\n");
        let ghost start = s@;
        let mut i: usize = 0;
        while i < self.extra_fields.len()
            invariant
                i <= self.extra_fields@.len(),
                s@ == start + spec_fields_text(self.extra_fields@.take(i as int)),
            decreases self.extra_fields@.len() - i,
        {
            let d = self.extra_fields[i].display_central();
            s.append(d.as_str());
            s.append("\n");
            proof {
                assert(self.extra_fields@.take(i + 1).drop_last() =~= self.extra_fields@.take(i as int));
            }
            i = i + 1;
            assert(s@ =~= start + spec_fields_text(self.extra_fields@.take(i as int)));
        }
        assert(self.extra_fields@.take(i as int) =~= self.extra_fields@);
        s
    }

    /// The part of the report that shows the comment, if any.
    fn report_comment(&self) -> (s: String)
        ensures
            s@ == spec_report_comment(*self),
    {
        match &self.file_comment {
            Some(comment) => {
                let mut s = String::from_str(
                    "\n------------------------- file comment begins ----------------------------\n",
                );
                let text = lossy_utf8(comment.as_slice());
                s.append(text.as_str());
                s.append("\n");
                s.append(
                    "-------------------------- file comment ends -----------------------------\n",
                );
                s
            },
            None => String::new(),
        }
    }

    /// Whether the entry's first timestamp field records a modification time, of which a report
    /// gives the local text.
    pub open spec fn spec_has_local_time(self) -> bool {
        match spec_first_timestamp(self.extra_fields@) {
            Some(i) => match self.extra_fields@[i] {
                ExtraFieldRecord::ExtendedTimestamp(t) => t.modify_time is Some,
                _ => false,
            },
            None => false,
        }
    }

    /// The report of the entry, in which `local_time` is the local text of the modification
    /// timestamp that its first timestamp field records.
    pub fn report_with_local_time(&self, local_time: Option<&str>) -> (s: String)
        ensures
            s@ == spec_entry_report(*self, match local_time {
                Some(l) => Some(l@),
                None => None,
            }),
    {
        let mut s = self.report_head();
        let t = self.report_times(local_time);
        s.append(t.as_str());
        let t = self.report_tail();
        s.append(t.as_str());
        let t = self.report_extra();
        s.append(t.as_str());
        let t = self.report_comment();
        s.append(t.as_str());
        proof {
            reveal(spec_entry_report);
        }
        s
    }

    /// The report of the entry: its name, then one line per field that the central directory
    /// records, its extra fields and its comment. The local modification time depends on the
    /// machine's time zone; everything else is stated.
    pub fn to_string(&self) -> (s: String)
        ensures
            exists|local: Option<Seq<char>>|
                s@ == spec_entry_report(*self, local) && (local is Some <==> self.spec_has_local_time()),
    {
        let local = match self.get_extra_field_time_stamp() {
            Some(ts) => ts.modified_time_local(),
            None => None,
        };
        let s = match &local {
            Some(l) => self.report_with_local_time(Some(l.as_str())),
            None => self.report_with_local_time(None),
        };
        proof {
            let l: Option<Seq<char>> = match local {
                Some(l) => Some(l@),
                None => None,
            };
            assert(s@ == spec_entry_report(*self, l));
        }
        s
    }
}

/// The bytes `b` as decimal numbers separated by `, `.
pub open spec fn spec_byte_items(b: Seq<u8>) -> Seq<char>
    decreases b.len(),
{
    if b.len() == 0 {
        Seq::empty()
    } else if b.len() == 1 {
        decimal_text(b[0] as nat)
    } else {
        spec_byte_items(b.drop_last()) + ", "@ + decimal_text(b.last() as nat)
    }
}

/// The bytes `b` as a bracketed list of decimal numbers.
fn byte_list(b: &[u8]) -> (s: String)
    ensures
        s@ == "["@ + spec_byte_items(b@) + "]"@,
{
    let mut items = String::new();
    let mut i: usize = 0;
    while i < b.len()
        invariant
            i <= b@.len(),
            items@ == spec_byte_items(b@.take(i as int)),
        decreases b@.len() - i,
    {
        if i > 0 {
            items.append(", ");
        }
        let d = decimal_string(b[i] as u64);
        items.append(d.as_str());
        proof {
            assert(b@.take(i + 1).drop_last() =~= b@.take(i as int));
            if i == 0 {
                assert(spec_byte_items(b@.take(0)) =~= Seq::<char>::empty());
            }
        }
        i = i + 1;
        assert(items@ =~= spec_byte_items(b@.take(i as int)));
    }
    assert(b@.take(i as int) =~= b@);
    let mut s = String::from_str("[");
    s.append(items.as_str());
    s.append("]");
    s
}

/// The fields of the end records `e`, each named, as the derived debug form lays them out.
pub open spec fn spec_end_text(e: CentralDirectoryEnd) -> Seq<char> {
    "CentralDirectoryEnd { number_of_this_disk: "@ + decimal_text(e.number_of_this_disk as nat)
        + ", number_of_the_disk_with_central_directory: "@ + decimal_text(
        e.number_of_the_disk_with_central_directory as nat,
    ) + ", total_number_of_entries_on_this_disk: "@ + decimal_text(
        e.total_number_of_entries_on_this_disk as nat,
    ) + ", total_number_of_entries_in_the_central_directory: "@ + decimal_text(
        e.total_number_of_entries_in_the_central_directory as nat,
    ) + ", central_directory_size: "@ + decimal_text(e.central_directory_size as nat)
        + ", offset_of_start_of_central_directory: "@ + decimal_text(
        e.offset_of_start_of_central_directory as nat,
    ) + ", z64ecdl_number_of_the_disk_with_the_start_of_the_zip64_end_of_central_directory: "@
        + decimal_text(
        e.z64ecdl_number_of_the_disk_with_the_start_of_the_zip64_end_of_central_directory as nat,
    ) + ", z64ecdl_relative_offset_of_the_zip64_end_of_central_directory_record: "@ + decimal_text(
        e.z64ecdl_relative_offset_of_the_zip64_end_of_central_directory_record as nat,
    ) + ", z64ecdl_total_number_of_disks: "@ + decimal_text(e.z64ecdl_total_number_of_disks as nat)
        + ", archive_comment: "@ + (match e.archive_comment {
        Some(c) => "Some("@ + ("["@ + spec_byte_items(c@) + "]"@) + ")"@,
        None => "None"@,
    }) + " }"@
}

/// Appends `", "`, `name`, `": "` and the decimal digits of `v`.
fn append_field(s: &mut String, name: &str, v: u64)
    ensures
        final(s)@ == old(s)@ + name@ + decimal_text(v as nat),
{
    s.append(name);
    let d = decimal_string(v);
    s.append(d.as_str());
}

impl CentralDirectoryEnd {
    /// The fields of the end records, each named, as the derived debug form lays them out.
    pub fn to_string(&self) -> (s: String)
        ensures
            s@ == spec_end_text(*self),
    {
        let mut s = String::new();
        append_field(&mut s, "CentralDirectoryEnd { number_of_this_disk: ", self.number_of_this_disk as u64);
        append_field(
            &mut s,
            ", number_of_the_disk_with_central_directory: ",
            self.number_of_the_disk_with_central_directory as u64,
        );
        append_field(
            &mut s,
            ", total_number_of_entries_on_this_disk: ",
            self.total_number_of_entries_on_this_disk,
        );
        append_field(
            &mut s,
            ", total_number_of_entries_in_the_central_directory: ",
            self.total_number_of_entries_in_the_central_directory,
        );
        append_field(&mut s, ", central_directory_size: ", self.central_directory_size);
        append_field(
            &mut s,
            ", offset_of_start_of_central_directory: ",
            self.offset_of_start_of_central_directory,
        );
        append_field(
            &mut s,
            ", z64ecdl_number_of_the_disk_with_the_start_of_the_zip64_end_of_central_directory: ",
            self.z64ecdl_number_of_the_disk_with_the_start_of_the_zip64_end_of_central_directory as u64,
        );
        append_field(
            &mut s,
            ", z64ecdl_relative_offset_of_the_zip64_end_of_central_directory_record: ",
            self.z64ecdl_relative_offset_of_the_zip64_end_of_central_directory_record,
        );
        append_field(
            &mut s,
            ", z64ecdl_total_number_of_disks: ",
            self.z64ecdl_total_number_of_disks as u64,
        );
        s.append(", archive_comment: ");
        match &self.archive_comment {
            Some(c) => {
                s.append("Some(");
                let l = byte_list(c.as_slice());
                s.append(l.as_str());
                s.append(")");
            },
            None => {
                s.append("None");
            },
        }
        s.append(" }");
        assert(s@ =~= spec_end_text(*self));
        s
    }
}

/// The part of an archive report that shows the archive comment, or says there is none.
pub open spec fn spec_archive_comment_text(e: CentralDirectoryEnd) -> Seq<char> {
    match e.archive_comment {
        Some(c) => "The zipfile comment is "@ + decimal_text(c@.len()) + " bytes long and contains the following text:\n"@
            + "======================== zipfile comment begins ==========================\n"@
            + utf8_lossy_text(c@) + "\n"@
            + "========================= zipfile comment ends ===========================\n"@,
        None => "There is no zipfile comment.\n"@,
    }
}

/// The reports of the entries `es`, numbered from 1, in which `locals` are the local texts of
/// their modification timestamps.
pub open spec fn spec_entries_report(es: Seq<ArchiveFileEntry>, locals: Seq<Option<Seq<char>>>) -> Seq<char>
    decreases es.len(),
{
    if es.len() == 0 {
        Seq::empty()
    } else {
        spec_entries_report(es.drop_last(), locals.drop_last()) + "Central directory entry #"@
            + decimal_text(es.len()) + "\n"@ + "---------------------------\n"@ + "\n"@
            + spec_entry_report(es.last(), locals.last()) + "\n"@
    }
}

/// The report of an archive whose end records are `e` and whose entries are `es`.
pub open spec fn spec_archive_report(
    e: CentralDirectoryEnd,
    es: Seq<ArchiveFileEntry>,
    locals: Seq<Option<Seq<char>>>,
) -> Seq<char> {
    "Archive:  xxxxxxxxxx.zip\n"@ + spec_archive_comment_text(e) + "\n"@
        + "End-of-central-directory record:\n"@ + "-------------------------------\n"@ + "\n"@
        + spec_end_text(e) + "\n"@ + spec_entries_report(es, locals) + "-- END --\n"@
}

impl ArchiveReader {
    /// The report of the archive: its comment, its end records, then each entry's report. The
    /// local modification times depend on the machine's time zone; everything else is stated.
    pub fn to_string(&self) -> (s: String)
        ensures
            exists|locals: Seq<Option<Seq<char>>>|
                {
                    &&& locals.len() == self.file_entries@.len()
                    &&& forall|k: int|
                        0 <= k < locals.len() ==> (#[trigger] locals[k] is Some
                            <==> self.file_entries@[k].spec_has_local_time())
                    &&& s@ == spec_archive_report(
                        self.central_directory_end,
                        self.file_entries@,
                        locals,
                    )
                },
    {
        let mut s = String::from_str("Archive:  xxxxxxxxxx.zip\n");
        match &self.central_directory_end.archive_comment {
            Some(c) => {
                s.append("The zipfile comment is ");
                let n = decimal_string(c.len() as u64);
                s.append(n.as_str());
                s.append(" bytes long and contains the following text:\n");
                s.append("======================== zipfile comment begins ==========================\n");
                let text = lossy_utf8(c.as_slice());
                s.append(text.as_str());
                s.append("\n");
                s.append("========================= zipfile comment ends ===========================\n");
            },
            None => {
                s.append("There is no zipfile comment.\n");
            },
        }
        s.append("\n");
        s.append("End-of-central-directory record:\n");
        s.append("-------------------------------\n");
        s.append("\n");
        let end = self.central_directory_end.to_string();
        s.append(end.as_str());
        s.append("\n");
        let ghost start = s@;
        assert(start =~= "Archive:  xxxxxxxxxx.zip\n"@ + spec_archive_comment_text(self.central_directory_end) + "\n"@
            + "End-of-central-directory record:\n"@ + "-------------------------------\n"@ + "\n"@
            + spec_end_text(self.central_directory_end) + "\n"@);
        let ghost mut locals: Seq<Option<Seq<char>>> = Seq::empty();
        let mut i: usize = 0;
        while i < self.file_entries.len()
            invariant
                i <= self.file_entries@.len(),
                locals.len() == i,
                forall|k: int|
                    0 <= k < i ==> (#[trigger] locals[k] is Some
                        <==> self.file_entries@[k].spec_has_local_time()),
                s@ == start + spec_entries_report(self.file_entries@.take(i as int), locals),
            decreases self.file_entries@.len() - i,
        {
            s.append("Central directory entry #");
            let n = decimal_string(i as u64 + 1);
            s.append(n.as_str());
            s.append("\n");
            s.append("---------------------------\n");
            s.append("\n");
            let entry = self.file_entries[i].to_string();
            s.append(entry.as_str());
            s.append("\n");
            proof {
                let l = choose|l: Option<Seq<char>>|
                    entry@ == spec_entry_report(self.file_entries@[i as int], l) && (l is Some
                        <==> self.file_entries@[i as int].spec_has_local_time());
                let old_locals = locals;
                locals = locals.push(l);
                let es = self.file_entries@.take(i + 1);
                assert(es.drop_last() =~= self.file_entries@.take(i as int));
                assert(locals.drop_last() =~= old_locals);
                assert(es.last() == self.file_entries@[i as int]);
            }
            i = i + 1;
            assert(s@ =~= start + spec_entries_report(self.file_entries@.take(i as int), locals));
        }
        assert(self.file_entries@.take(i as int) =~= self.file_entries@);
        s.append("-- END --\n");
        assert(s@ =~= spec_archive_report(self.central_directory_end, self.file_entries@, locals));
        s
    }
}

} // verus!

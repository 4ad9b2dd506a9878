use archflow::archive_common::{ArchiveDescriptor, ExtraFieldExtendedTimestamp, ExtraFieldZIP64ExtendedInformation};
use archflow::compress::standard::archive::ZipArchive;
use archflow::compress::FileOptions;
use archflow::compression::CompressionMethod;
use archflow::error::ArchiveError;
use archflow::report::{readable_file_dos_attributes, readable_file_unix_attributes};
use archflow::types::{DateTimeCS, FileCompatibilitySystem};
use archflow::uncompress::ArchiveReader;

fn line(label: &str, value: &str) -> String {
    format!("{: <48}{}\n", label, value)
}

#[test]
fn unix_and_dos_attributes() {
    assert_eq!(readable_file_unix_attributes(0o755), "-rwxr-xr-x");
    assert_eq!(readable_file_unix_attributes(0o644), "-rw-r--r--");
    assert_eq!(readable_file_unix_attributes(0o40755), "drwxr-xr-x");
    assert_eq!(readable_file_unix_attributes(0), "----------");
    assert_eq!(readable_file_dos_attributes(0), "none");
    assert_eq!(readable_file_dos_attributes(0x10), "dir");
    assert_eq!(readable_file_dos_attributes(0x20), "");
}

#[test]
fn system_and_time_texts() {
    assert_eq!(FileCompatibilitySystem::Unix.to_string(), "Unix");
    assert_eq!(FileCompatibilitySystem::Dos.to_string(), "MS-DOS, OS/2 or NT FAT");
    assert_eq!(FileCompatibilitySystem::Unknown(42).to_string(), "unknown (42)");
    assert_eq!(DateTimeCS::from_msdos(0x21, 0).to_string(), "1980-01-01 00:00:00");
    assert_eq!(DateTimeCS::from_msdos(0, 0).to_string(), "1980-01-01 00:00:00");
    assert_eq!(DateTimeCS::from_msdos(0x5a21, 0x8c2e).to_string(), "2025-01-01 17:33:28");
}

#[test]
fn extra_field_descriptions() {
    let t = ExtraFieldExtendedTimestamp::new(Some(1), Some(2), Some(3));
    assert_eq!(
        t.display_central(),
        "- A subfield with ID 0x5455 (universal time) and 5 data bytes.\n  The local extra field has UTC/GMT modification/access/creation times."
    );
    let t = ExtraFieldExtendedTimestamp::new(None, Some(2), None);
    assert_eq!(
        t.display_central(),
        "- A subfield with ID 0x5455 (universal time) and 1 data bytes.\n  The local extra field has UTC/GMT access time."
    );
    let z = ExtraFieldZIP64ExtendedInformation::new(28);
    assert_eq!(z.display_central(), "- A subfield with ID 0x0001 (Zip64) and 28 data bytes.");
    let t = ExtraFieldExtendedTimestamp::new(Some(1582248020), None, None);
    assert_eq!(t.modified_time_utc(), Some("2020-02-21 01:20:20 UTC".to_string()));
    assert!(t.modified_time_local().is_some());
    assert_eq!(ExtraFieldExtendedTimestamp::new(None, None, None).modified_time_utc(), None);
}

#[test]
fn error_messages() {
    assert_eq!(
        ArchiveError::UnsuportedCompressionMethodCode(7).to_string(),
        "The compression method code '7' is not supported"
    );
    assert_eq!(
        ArchiveError::UnsuportedCompressionLevel(CompressionMethod::Deflate()).to_string(),
        "Archive level error for method deflate"
    );
    let e: ArchiveError = std::io::Error::from(std::io::ErrorKind::UnexpectedEof).into();
    assert!(e.to_string().starts_with("Archive error "));
}

const RUST_ZIP_LIB_LZMA: [u8; 172] = [
    0x50, 0x4b, 0x03, 0x04, 0x14, 0x00, 0x00, 0x00, 0x08, 0x00, 0x00, 0x00, 0x21, 0x00, 0x00,
    0x82, 0xea, 0xc6, 0x24, 0x00, 0x00, 0x00, 0x00, 0x04, 0x00, 0x00, 0x13, 0x00, 0x00, 0x00,
    0x73, 0x68, 0x6f, 0x72, 0x74, 0x5f, 0x74, 0x65, 0x78, 0x74, 0x5f, 0x66, 0x69, 0x6c, 0x65,
    0x2e, 0x74, 0x78, 0x74, 0xed, 0xcd, 0xb9, 0x11, 0x00, 0x30, 0x08, 0x03, 0xb0, 0x3e, 0xd3,
    0xc4, 0xfc, 0xec, 0xbf, 0x18, 0x53, 0x70, 0x47, 0xe1, 0x4e, 0x9d, 0x20, 0x6a, 0x1e, 0x59,
    0xfd, 0xb1, 0xa6, 0x07, 0x26, 0x4c, 0x98, 0x5c, 0x4c, 0x06, 0x50, 0x4b, 0x01, 0x02, 0x2e,
    0x03, 0x14, 0x00, 0x00, 0x00, 0x08, 0x00, 0x00, 0x00, 0x21, 0x00, 0x00, 0x82, 0xea, 0xc6,
    0x24, 0x00, 0x00, 0x00, 0x00, 0x04, 0x00, 0x00, 0x13, 0x00, 0x00, 0x00, 0x00, 0x00, 0x00,
    0x00, 0x00, 0x00, 0x00, 0x00, 0xa4, 0x81, 0x00, 0x00, 0x00, 0x00, 0x73, 0x68, 0x6f, 0x72,
    0x74, 0x5f, 0x74, 0x65, 0x78, 0x74, 0x5f, 0x66, 0x69, 0x6c, 0x65, 0x2e, 0x74, 0x78, 0x74,
    0x50, 0x4b, 0x05, 0x06, 0x00, 0x00, 0x00, 0x00, 0x01, 0x00, 0x01, 0x00, 0x41, 0x00, 0x00,
    0x00, 0x55, 0x00, 0x00, 0x00, 0x00, 0x00,
];

fn expected_entry_report() -> String {
    let mut s = String::from("short_text_file.txt\n\n");
    s += &line("offset of local header from start of archive:", "0");
    s += &line("", &format!("({:016X}h) bytes", 0));
    s += &line("file system or operating system of origin:", "Unix");
    s += &line("version of encoding software:", "4.6");
    s += &line("minimum software version required to extract:", "2.0");
    s += &line("general purpose bit flag:", &format!("{:#016b}", 0u16));
    s += &line("compression method:", "deflate");
    s += &line("file security status:", "not encrypted");
    s += &line("extended local header:", "no");
    s += &line("file last modified on (DOS date/time):", "1980-01-01 00:00:00");
    s += &line("32-bit CRC value (hex):", &format!("{:08x}", 0xc6ea8200u32));
    s += &line("compressed size:", "36 bytes");
    s += &line("uncompressed size:", "1024 bytes");
    s += &line("length of filename:", "19 characters");
    s += &line("length of extra field:", "0 bytes");
    s += &line("length of file comment:", "0 characters");
    s += &line("disk number on which file begins:", "disk 1");
    s += &line("apparent file type:", "binary");
    s += &line(&format!("Unix file attributes ({:06o} octal):", 0o100644), "-rw-r--r--");
    s += &line(&format!("MS-DOS file attributes ({:0X} hex): ", 0), "none");
    s
}

#[test]
fn entry_report_matches_the_listing_format() {
    let reader = ArchiveReader::new(&RUST_ZIP_LIB_LZMA).unwrap();
    let report = reader.file_entries[0].to_string();
    println!("{}", report);
    assert_eq!(report, expected_entry_report());
}

#[test]
fn archive_report_matches_the_listing_format() {
    let reader = ArchiveReader::new(&RUST_ZIP_LIB_LZMA).unwrap();
    let report = reader.to_string();
    let mut expected = String::from("Archive:  xxxxxxxxxx.zip\n");
    expected += "The zipfile comment is 0 bytes long and contains the following text:\n";
    expected += "======================== zipfile comment begins ==========================\n";
    expected += "\n";
    expected += "========================= zipfile comment ends ===========================\n\n";
    expected += "End-of-central-directory record:\n-------------------------------\n\n";
    expected += &format!("{:?}\n", reader.central_directory_end);
    expected += "Central directory entry #1\n---------------------------\n\n";
    expected += &expected_entry_report();
    expected += "\n-- END --\n";
    assert_eq!(report, expected);
}

#[test]
fn report_shows_extra_fields_and_comment() {
    let mut archive = ZipArchive::new();
    let mut out = Vec::new();
    let options = FileOptions::default()
        .compression_method(CompressionMethod::Store())
        .set_file_comment("note")
        .time_stamp(Some(1582248020), None, None);
    archive.append("t.txt", &options, b"abc", &mut out).unwrap();
    archive.set_archive_comment("hi");
    archive.finalize(&mut out).unwrap();
    let reader = ArchiveReader::new(&out).unwrap();
    let report = reader.file_entries[0].to_string();
    assert!(report.contains(&line(
        "file last modified on (UT extra field modtime):",
        "2020-02-21 01:20:20 UTC"
    )));
    assert!(report.contains(&format!(
        "{: <48}\n- A subfield with ID 0x5455 (universal time) and 5 data bytes.\n",
        "\nThe central-directory extra field contains:"
    )));
    assert!(report.ends_with(
        "\n------------------------- file comment begins ----------------------------\nnote\n-------------------------- file comment ends -----------------------------\n"
    ));
    let listing = reader.to_string();
    assert!(listing.contains("The zipfile comment is 2 bytes long and contains the following text:\n"));
    let mut desc = ArchiveDescriptor::new(10);
    desc.write_u8(1);
    assert_eq!(desc.len(), 1);
}

#[test]
fn entry_report_gives_local_and_utc_modification_times() {
    let mut entry = archflow::archive_common::ArchiveFileEntry::default();
    entry.extra_fields = vec![archflow::archive_common::ExtraFieldRecord::ExtendedTimestamp(
        ExtraFieldExtendedTimestamp::new(Some(1582248020), None, None),
    )];
    let report = entry.to_string();
    let label = "file last modified on (UT extra field modtime):";
    assert_eq!(report.matches(label).count(), 2);
    assert!(report.contains("2020-02-21 01:20:20 UTC"));

    let mut no_time = archflow::archive_common::ArchiveFileEntry::default();
    no_time.extra_fields = vec![archflow::archive_common::ExtraFieldRecord::ExtendedTimestamp(
        ExtraFieldExtendedTimestamp::new(None, Some(5), None),
    )];
    assert_eq!(no_time.to_string().matches(label).count(), 0);
}

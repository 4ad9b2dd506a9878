use archflow::compress::standard::archive::ZipArchive;
use archflow::compress::tokio::archive::ZipArchive as PrecompressedArchive;
use archflow::compress::FileOptions;
use archflow::compression::CompressionMethod;
use archflow::error::ArchiveError;
use archflow::tools::archive_size;
use archflow::types::FileDateTime;
use archflow::uncompress::ArchiveReader;

fn write_archive(entries: &[(&str, &[u8], CompressionMethod)], streamable: bool) -> Vec<u8> {
    let mut archive = if streamable { ZipArchive::new_streamable() } else { ZipArchive::new() };
    let mut out = Vec::new();
    for (name, content, method) in entries {
        let options = FileOptions::default()
            .compression_method(*method)
            .last_modified_time(FileDateTime::Zero);
        archive.append(name, &options, content, &mut out).unwrap();
        assert_eq!(archive.get_archive_size(), out.len() as u64);
    }
    let size = archive.finalize(&mut out).unwrap();
    assert_eq!(size, out.len() as u64);
    out
}

#[test]
fn streamed_stored_archive_has_the_announced_size() {
    let out = write_archive(
        &[
            ("file1.txt", b"hello\n", CompressionMethod::Store()),
            ("file2.txt", b"world\n", CompressionMethod::Store()),
        ],
        true,
    );
    assert_eq!(out.len(), archive_size(&[("file1.txt", 6), ("file2.txt", 6)]));
    assert_eq!(out.len(), 254);
}

#[test]
fn written_archive_reads_back() {
    let out = write_archive(
        &[
            ("file1.txt", b"hello\n", CompressionMethod::Store()),
            ("dir/file2.txt", b"world\nworld\nworld\n", CompressionMethod::Deflate()),
        ],
        false,
    );
    let reader = ArchiveReader::new(&out).unwrap();
    assert_eq!(reader.file_entries.len(), 2);
    let first = &reader.file_entries[0];
    assert_eq!(first.get_file_name(), "file1.txt");
    assert_eq!(first.crc32, 0x363A3020);
    assert_eq!(first.uncompressed_size, 6);
    assert_eq!(first.compressed_size, 6);
    assert_eq!(first.offset, 0);
    let second = &reader.file_entries[1];
    assert_eq!(second.get_file_name(), "dir/file2.txt");
    assert_eq!(second.uncompressed_size, 18);
    assert_eq!(second.compression_method, 8);
    assert_ne!(second.compressed_size, 18);
    assert_eq!(reader.central_directory_end.total_number_of_entries_in_the_central_directory, 2);
}

#[test]
fn stored_data_follows_the_local_header() {
    let out = write_archive(&[("a.txt", b"abc", CompressionMethod::Store())], true);
    assert_eq!(&out[0..4], &[0x50, 0x4b, 0x03, 0x04]);
    assert_eq!(&out[30..35], b"a.txt");
    assert_eq!(&out[35..38], b"abc");
    assert_eq!(&out[38..42], &[0x50, 0x4b, 0x07, 0x08]);
    // CRC-32 of "abc"
    assert_eq!(&out[42..46], &0x352441C2u32.to_le_bytes());
}

fn data_of(method: CompressionMethod, content: &[u8]) -> Vec<u8> {
    let out = write_archive(&[("x", content, method)], true);
    let reader = ArchiveReader::new(&out).unwrap();
    let e = &reader.file_entries[0];
    let start = 30 + 1;
    out[start..start + e.compressed_size as usize].to_vec()
}

#[test]
fn compressors_transform_the_payload() {
    let content = b"example example example example example".to_vec();
    let deflated = data_of(CompressionMethod::Deflate(), &content);
    assert_ne!(deflated, content);
    assert!(deflated.len() < content.len());
    let bz = data_of(CompressionMethod::BZip2(), &content);
    assert_eq!(&bz[0..3], b"BZh");
    let zs = data_of(CompressionMethod::Zstd(), &content);
    assert_eq!(&zs[0..4], &[0x28, 0xB5, 0x2F, 0xFD]);
    let xz = data_of(CompressionMethod::Xz(), &content);
    assert_eq!(&xz[0..6], &[0xFD, 0x37, 0x7A, 0x58, 0x5A, 0x00]);
}

#[test]
fn lzma_cannot_be_written() {
    let mut archive = ZipArchive::new_streamable();
    let mut out = Vec::new();
    let options = FileOptions::default().compression_method(CompressionMethod::Lzma());
    let r = archive.append("x", &options, b"data", &mut out);
    assert!(matches!(r, Err(ArchiveError::UnsuportedCompressionMethod(_))));
    // the local header is still written
    assert_eq!(&out[0..4], &[0x50, 0x4b, 0x03, 0x04]);
}

#[test]
fn precompressed_entries_and_directories() {
    let mut archive = PrecompressedArchive::new_streamable();
    let mut out = Vec::new();
    let options = FileOptions::default().compression_method(CompressionMethod::Store());
    archive.append("f", &options, b"xyz", Ok(b"xyz".to_vec()), &mut out).unwrap();
    archive.append_directory("d", &options, &mut out).unwrap();
    let size = archive.finalize(&mut out).unwrap();
    assert_eq!(size, out.len() as u64);
    let reader = ArchiveReader::new(&out).unwrap();
    assert_eq!(reader.file_entries.len(), 2);
    assert_eq!(reader.file_entries[1].get_file_name(), "d/");
    assert_eq!(reader.file_entries[1].external_file_attributes, (0o40755 << 16) | 0x10);
}

#[test]
fn timestamp_option_adds_an_extra_field() {
    let mut archive = ZipArchive::new();
    let mut out = Vec::new();
    let options = FileOptions::default()
        .compression_method(CompressionMethod::Store())
        .time_stamp(Some(1582248020), None, None);
    archive.append("t", &options, b"", &mut out).unwrap();
    archive.finalize(&mut out).unwrap();
    let reader = ArchiveReader::new(&out).unwrap();
    let ts = reader.file_entries[0].get_extra_field_time_stamp().unwrap();
    assert_eq!(ts.modify_time(), Some(1582248020));
}

#[test]
fn archive_comment_is_recorded() {
    let mut archive = ZipArchive::new_streamable();
    archive.set_archive_comment("hi");
    let mut out = Vec::new();
    archive.finalize(&mut out).unwrap();
    assert_eq!(out.len(), 24);
    assert_eq!(&out[20..24], &[2, 0, b'h', b'i']);
}

#[test]
fn commented_archive_reads_back() {
    let mut archive = ZipArchive::new_streamable();
    let mut out = Vec::new();
    let options = FileOptions::default().compression_method(CompressionMethod::Deflate());
    archive.append("a.txt", &options, b"aaaaaaaaaaaaaaaa", &mut out).unwrap();
    archive.append("b.txt", &options, b"bbbb", &mut out).unwrap();
    archive.set_archive_comment("an archive comment");
    archive.finalize(&mut out).unwrap();
    let reader = ArchiveReader::new(&out).unwrap();
    assert_eq!(reader.file_entries.len(), 2);
    assert_eq!(reader.file_entries[1].get_file_name(), "b.txt");
    assert_eq!(reader.file_entries[1].uncompressed_size, 4);
    assert_eq!(
        reader.central_directory_end.archive_comment,
        Some(b"an archive comment".to_vec())
    );
}

#[test]
fn bare_last_header_is_not_read() {
    let options = FileOptions::default().compression_method(CompressionMethod::Store());
    let mut single = ZipArchive::new_streamable();
    let mut single_out = Vec::new();
    single.append("", &options, b"x", &mut single_out).unwrap();
    single.finalize(&mut single_out).unwrap();
    assert_eq!(ArchiveReader::new(&single_out).unwrap().file_entries.len(), 1);

    let mut archive = ZipArchive::new_streamable();
    let mut out = Vec::new();
    archive.append("", &options, b"x", &mut out).unwrap();
    archive.append("", &options, b"y", &mut out).unwrap();
    archive.finalize(&mut out).unwrap();
    // the scan stops when no more than one base header remains after an entry
    assert_eq!(ArchiveReader::new(&out).unwrap().file_entries.len(), 1);
}

#[test]
fn large_file_reserves_a_zip64_field() {
    let mut archive = ZipArchive::new();
    let mut out = Vec::new();
    let options = FileOptions::default()
        .compression_method(CompressionMethod::Store())
        .last_modified_time(FileDateTime::Zero)
        .large_file(true);
    archive.append("a.txt", &options, b"abc", &mut out).unwrap();
    // extra field length
    assert_eq!(&out[28..30], &[20, 0]);
    assert_eq!(&out[30..35], b"a.txt");
    // ZIP64 field: ID 0x0001, data size 16, then 16 reserved bytes
    assert_eq!(&out[35..39], &[0x01, 0x00, 0x10, 0x00]);
    assert_eq!(&out[39..55], &[0u8; 16]);
    assert_eq!(&out[55..58], b"abc");
    assert_eq!(out.len(), 58);
    archive.finalize(&mut out).unwrap();
    let reader = ArchiveReader::new(&out).unwrap();
    assert_eq!(reader.file_entries.len(), 1);
    assert_eq!(reader.file_entries[0].get_file_name(), "a.txt");
    assert_eq!(reader.file_entries[0].uncompressed_size, 3);
}

#[test]
fn latest_archive_comment_ends_the_archive() {
    let mut archive = ZipArchive::new_streamable();
    let mut out = Vec::new();
    let options = FileOptions::default()
        .compression_method(CompressionMethod::Store())
        .last_modified_time(FileDateTime::Zero);
    archive.append("a.txt", &options, b"abc", &mut out).unwrap();
    let before = out.len();
    archive.set_archive_comment("first comment");
    archive.set_archive_comment("second");
    assert_eq!(out.len(), before);
    assert_eq!(archive.get_archive_size(), before as u64);
    archive.finalize(&mut out).unwrap();
    let n = out.len();
    assert_eq!(&out[n - 8..n - 6], &[6, 0]);
    assert_eq!(&out[n - 6..], b"second");
}

#[test]
fn streamed_entries_carry_descriptors() {
    let mut archive = ZipArchive::new_streamable();
    let mut out = Vec::new();
    let options = FileOptions::default()
        .compression_method(CompressionMethod::Deflate())
        .last_modified_time(FileDateTime::Zero);
    archive.append("a", &options, b"aaaaaaaaaaaaaaaaaaaa", &mut out).unwrap();
    let first_len = out.len();
    archive.append("b", &options, b"bbbb", &mut out).unwrap();
    for start in [0usize, first_len] {
        assert_eq!(&out[start..start + 4], &[0x50, 0x4b, 0x03, 0x04]);
        let flags = u16::from_le_bytes([out[start + 6], out[start + 7]]);
        assert_ne!(flags & 0x0008, 0);
        assert_eq!(&out[start + 14..start + 26], &[0u8; 12]);
    }
    // the first entry's descriptor ends right before the second header
    assert_eq!(&out[first_len - 16..first_len - 12], &[0x50, 0x4b, 0x07, 0x08]);
    assert_eq!(&out[out.len() - 16..out.len() - 12], &[0x50, 0x4b, 0x07, 0x08]);
}

#[test]
fn patched_archive_is_shorter_by_descriptors() {
    let entries: [(&str, &[u8], CompressionMethod); 3] = [
        ("file1.txt", b"lorem ipsum dolor sit amet", CompressionMethod::Xz()),
        ("file2.txt", b"lorem ipsum dolor sit amet", CompressionMethod::Deflate()),
        ("file4.txt", b"Some string data", CompressionMethod::Store()),
    ];
    let streamed = write_archive(&entries, true);
    let patched = write_archive(&entries, false);
    assert_eq!(streamed.len(), patched.len() + 16 * 3);
    let flags = u16::from_le_bytes([patched[6], patched[7]]);
    assert_eq!(flags & 0x0008, 0);
    let reader = ArchiveReader::new(&patched).unwrap();
    assert_eq!(reader.file_entries.len(), 3);
    assert_eq!(reader.file_entries[2].get_file_name(), "file4.txt");
}

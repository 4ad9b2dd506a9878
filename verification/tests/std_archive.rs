use std::io::Write;

use archflow::compress::standard::archive::ZipArchive;
use archflow::compress::standard::compressor::compress;
use archflow::compress::FileOptions;
use archflow::compression::{CompressionMethod, Level};
use archflow::error::ArchiveError;
use archflow::uncompress::ArchiveReader;

const TEST_ID: &str = "1";
const FILE_TO_COMPRESS: &str = "file1.txt";
const CONTENT: &[u8] = b"Lorem ipsum dolor sit amet, consectetur adipiscing elit.\nLorem ipsum dolor sit amet.\n";

fn compress_file(compressor: CompressionMethod, out_file_name: &str) -> Result<Vec<u8>, ArchiveError> {
    println!("{}", out_file_name);
    let mut archive = ZipArchive::new();
    let mut out = Vec::new();
    let options = FileOptions::default().compression_method(compressor);
    archive.append(FILE_TO_COMPRESS, &options, CONTENT, &mut out)?;
    let size = archive.finalize(&mut out)?;
    println!("archive size = {:?}", size);
    assert_eq!(size, out.len() as u64);
    Ok(out)
}

fn check_reads_back(out: &[u8], method: u16) {
    let reader = ArchiveReader::new(out).unwrap();
    assert_eq!(reader.file_entries.len(), 1);
    assert_eq!(reader.file_entries[0].get_file_name(), FILE_TO_COMPRESS);
    assert_eq!(reader.file_entries[0].uncompressed_size, CONTENT.len() as u64);
    assert_eq!(reader.file_entries[0].compression_method, method);
}

#[test]
fn archivezip_std_test_archive_structure_compress_store() {
    let compressor = CompressionMethod::Store();
    let out_file_name = ["test_", compressor.label(), TEST_ID, ".zip"].join("");
    let out = compress_file(compressor, &out_file_name).unwrap();
    check_reads_back(&out, 0);
}

#[test]
fn archivezip_std_test_archive_structure_zlib_deflate_tokio() {
    let compressor = CompressionMethod::Deflate();
    let out_file_name = ["test_", compressor.label(), TEST_ID, ".zip"].join("");
    let out = compress_file(compressor, &out_file_name).unwrap();
    check_reads_back(&out, 8);
}

#[test]
fn archivezip_std_test_archive_structure_compress_bzip() {
    let compressor = CompressionMethod::BZip2();
    let out_file_name = ["test_", compressor.label(), TEST_ID, ".zip"].join("");
    let out = compress_file(compressor, &out_file_name).unwrap();
    check_reads_back(&out, 12);
}

#[test]
fn archivezip_std_test_archive_structure_compress_lzma() {
    let compressor = CompressionMethod::Lzma();
    let out_file_name = ["test_", compressor.label(), TEST_ID, ".zip"].join("");
    let r = compress_file(compressor, &out_file_name);
    assert!(matches!(r, Err(ArchiveError::UnsuportedCompressionMethod(CompressionMethod::Lzma()))));
}

#[test]
fn archivezip_std_test_archive_structure_compress_zstd() {
    let compressor = CompressionMethod::Zstd();
    let out_file_name = ["test_", compressor.label(), TEST_ID, ".zip"].join("");
    let out = compress_file(compressor, &out_file_name).unwrap();
    check_reads_back(&out, 93);
}

#[test]
fn archivezip_std_test_archive_structure_compress_xz() {
    let compressor = CompressionMethod::Xz();
    let out_file_name = ["test_", compressor.label(), TEST_ID, ".zip"].join("");
    let out = compress_file(compressor, &out_file_name).unwrap();
    check_reads_back(&out, 95);
}

#[test]
fn compressor_test_defate_basic() {
    let x = b"example";

    let mut encoder = flate2::write::ZlibEncoder::new(Vec::new(), flate2::Compression::default());
    encoder.write_all(x).unwrap();
    encoder.flush().unwrap();
    let temp = encoder.finish().unwrap();
    println!("compress len {:?}", temp.len());
    println!("{:02X?}", temp);
    assert_eq!(&temp[0..2], &[0x78, 0x9C]);
}

#[test]
fn compressor_test_defate_compressor() {
    let x = b"example";

    let compressor = CompressionMethod::Deflate();
    let payload = compress(compressor, x, Level::Default).unwrap();

    let temp = payload.data;
    println!("compress len {:?}", temp.len());
    println!("{:X?}", temp);
    assert_eq!(payload.uncompressed_size, 7);
    assert!(payload.is_text);
    assert_eq!(payload.crc32, crc32fast::hash(x));
    let mut plain = flate2::write::DeflateDecoder::new(Vec::new());
    plain.write_all(&temp).unwrap();
    assert_eq!(plain.finish().unwrap(), x.to_vec());
}

#[test]
fn test_zstd_level() {
    let range = zstd::compression_level_range();
    println!("range: {:?}", range);

    let default = zstd::DEFAULT_COMPRESSION_LEVEL;

    println!("range min : {:?}", default);
    assert_eq!(default, 3);
}

#[test]
fn stored_payload_is_kept_and_levels_map() {
    let payload = compress(CompressionMethod::Deflate(), b"\x00\x01", Level::NoCompression).unwrap();
    assert_eq!(payload.data, vec![0, 1]);
    assert!(!payload.is_text);
    let r = compress(CompressionMethod::Unknown(77), b"x", Level::Default);
    assert!(matches!(r, Err(ArchiveError::UnsuportedCompressionMethod(CompressionMethod::Unknown(77)))));
}

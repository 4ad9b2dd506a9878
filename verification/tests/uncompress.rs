use archflow::error::ArchiveError;
use archflow::uncompress::{read_overruns, ArchiveReader};

const RUST_ZIP_LIB_LZMA: [u8; 172] = [
    0x50, 0x4b, 0x03, 0x04, 0x14, 0x00, 0x00, 0x00, 0x08, 0x00, 0x00, 0x00, 0x21, 0x00, 0x00,
    0x82, 0xea, 0xc6, 0x24, 0x00, 0x00, 0x00, 0x00, 0x04, 0x00, 0x00, 0x13, 0x00, 0x00, 0x00,
    0x73, 0x68, 0x6f, 0x72, 0x74, 0x5f, 0x74, 0x65, 0x78, 0x74, 0x5f, 0x66, 0x69, 0x6c, 0x65,
    0x2e, 0x74, 0x78, 0x74, 0xed, 0xcd, 0xb9, 0x11, 0x00, 0x30, 0x08, 0x03, 0xb0, 0x3e, 0xd3,
    0xc4, 0xfc, 0xec, 0xbf, 0x18, 0x53, 0x70, 0x47, 0xe1, 0x4e, 0x9d, 0x20, 0x6a, 0x1e, 0x59,
    0xfd, 0xb1, 0xa6, 0x07, 0x26, 0x4c, 0x98, 0x5c, 0x4c, 0x06, 0x50, 0x4b, 0x01, 0x02, 0x2e,
    0x03, 0x14, 0x00, 0x00, 0x00, 0x08, 0x00, 0x00, 0x00, 0x21, 0x00, 0x00, 0x82, 0xea, 0xc6,
    0x24, 0x00, 0x00, 0x00, 0x00, 0x04, 0x00, 0x00, 0x13, 0x00, 0x00, 0x00, 0x00, 0x00, 0x00,
    0x00, 0x00, 0x00, 0x00, 0x00, 0xa4, 0x81, 0x00, 0x00, 0x00, 0x00, 0x73, 0x68, 0x6f, 0x72,
    0x74, 0x5f, 0x74, 0x65, 0x78, 0x74, 0x5f, 0x66, 0x69, 0x6c, 0x65, 0x2e, 0x74, 0x78, 0x74,
    0x50, 0x4b, 0x05, 0x06, 0x00, 0x00, 0x00, 0x00, 0x01, 0x00, 0x01, 0x00, 0x41, 0x00, 0x00,
    0x00, 0x55, 0x00, 0x00, 0x00, 0x00, 0x00,
];

#[test]
fn test_mem_dump_rust_zip_lib_lzma() -> Result<(), ArchiveError> {
    let vec: Vec<u8> = RUST_ZIP_LIB_LZMA.to_vec();

    let reader = ArchiveReader::new(&vec)?;
    assert_eq!(reader.file_entries.len(), 1);
    let entry = &reader.file_entries[0];
    assert_eq!(entry.get_file_name(), "short_text_file.txt");
    assert_eq!(entry.external_file_attributes, 0x81a4_0000);
    assert_eq!(entry.compressed_size, 0x24);
    assert_eq!(reader.central_directory_end.central_directory_size, 0x41);
    assert_eq!(reader.central_directory_end.offset_of_start_of_central_directory, 0x55);
    Ok(())
}

#[test]
fn reader_rejects_small_input() {
    let res = ArchiveReader::new(&[0u8; 10]);
    assert!(matches!(res, Err(ArchiveError::BadArchiveStructure(_))));
}

#[test]
fn reader_rejects_missing_end_record() {
    let res = ArchiveReader::new(&[0u8; 40]);
    assert!(matches!(res, Err(ArchiveError::BadArchiveStructure(_))));
}

#[test]
fn reader_rejects_directory_out_of_range() {
    let mut vec: Vec<u8> = RUST_ZIP_LIB_LZMA.to_vec();
    let n = vec.len();
    vec[n - 6] = 0xF0;
    let res = ArchiveReader::new(&vec);
    assert!(matches!(res, Err(ArchiveError::IoError(_))));
}

#[test]
fn reader_rejects_unknown_method() {
    let mut vec: Vec<u8> = RUST_ZIP_LIB_LZMA.to_vec();
    vec[0x55 + 10] = 7;
    let res = ArchiveReader::new(&vec);
    assert!(matches!(res, Err(ArchiveError::UnsuportedCompressionMethodCode(7))));
}

#[test]
fn overrunning_archives_are_detected() {
    assert!(!read_overruns(&RUST_ZIP_LIB_LZMA));
    assert!(!read_overruns(&[0u8; 10]));
    let mut vec: Vec<u8> = RUST_ZIP_LIB_LZMA.to_vec();
    let n = vec.len();
    // a comment length that runs past the end
    vec[n - 2] = 5;
    assert!(read_overruns(&vec));
    let mut vec: Vec<u8> = RUST_ZIP_LIB_LZMA.to_vec();
    // a file name length that runs past the central directory
    vec[0x55 + 28] = 0xF0;
    assert!(read_overruns(&vec));
}

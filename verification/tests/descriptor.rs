use archflow::compression::CompressionMethod;
use archflow::constants::LOCAL_FILE_HEADER_SIGNATURE;
use archflow::descriptor::ArchiveDescriptor;

#[test]
fn descriptor_test_write_file_header() {
    let version_needed = CompressionMethod::Deflate().zip_version_needed();
    let compression_method = CompressionMethod::Deflate().zip_code();
    let general_purpose_flags: u16 = 1 << 3 | 1 << 11;
    let time = 0u16;
    let date = 0u16;
    let crc = 0u32;
    let compressed_size = 0u32;
    let uncompressed_size = 0u32;
    let file_name = "file1.txt";
    let file_name_len = file_name.as_bytes().len() as u16;

    println!("file_name {:?} length: {:}", file_name, file_name_len);
    let extra_field_length = 0u16;

    let mut desc = ArchiveDescriptor::new(100);
    desc.write_u32(LOCAL_FILE_HEADER_SIGNATURE);
    desc.write_u16(version_needed);
    desc.write_u16(general_purpose_flags);
    desc.write_u16(compression_method);
    desc.write_u16(time);
    desc.write_u16(date);
    desc.write_u32(crc);
    desc.write_u32(compressed_size);
    desc.write_u32(uncompressed_size);
    desc.write_u16(file_name_len);
    desc.write_u16(extra_field_length);
    desc.write_str(file_name);
    let vec = desc.finish();

    println!("desc len {:} \n {:02X?}", &vec.len(), &vec);
    assert_eq!(vec.len(), 39);

    let entry = ArchiveDescriptor::read_file_descriptor(&vec);

    println!("{:#?}", entry);
    assert_eq!(entry.version_needed, 20);
    assert_eq!(entry.general_purpose_flags, general_purpose_flags);
    assert_eq!(entry.get_file_name(), "file1.txt");
    assert!(matches!(entry.compressor, CompressionMethod::Deflate()));
}

#[test]
fn descriptor_test_mem_dump() {
    let vec: Vec<u8> = vec![
        0x50, 0x4B, 0x03, 0x04, 0x14, 0x00, 0x00, 0x00, 0x08, 0x00, 0x00, 0x00, 0x21, 0x00, 0x1D,
        0x85, 0xB7, 0xB3, 0xB9, 0x36, 0x00, 0x00, 0xDF, 0xE0, 0x3E, 0x00, 0x09, 0x00, 0x00, 0x00,
        0x66, 0x69, 0x6C, 0x65, 0x31, 0x2E, 0x74, 0x78, 0x74, 0xED, 0xCD, 0x39, 0x11, 0x00, 0x20,
        0x0C, 0x00, 0xB0, 0x1D, 0x35, 0x14, 0xCA, 0xE7, 0xDF, 0x18, 0x2A, 0x18, 0xB8, 0xCB, 0x96,
        0x2D, 0xD1, 0x7A, 0x8E, 0xB9, 0xF6, 0xA9, 0xF1, 0x4C, 0x25, 0x24, 0x12, 0x89, 0x44, 0x22,
        0x91, 0x48, 0x24, 0x12, 0x89, 0x44, 0x22, 0x91, 0x48, 0x24, 0x12, 0x89, 0x44, 0x22, 0x91,
        0x48, 0x24, 0x12, 0x89, 0x44, 0x22, 0x91, 0x48, 0x24, 0x12, 0x89, 0x44, 0x22, 0x91, 0x48,
        0x24, 0x12, 0x89, 0x44, 0x22,
    ];

    let entry = ArchiveDescriptor::read_file_descriptor(&vec);

    println!("{:#?}", entry);
    assert_eq!(entry.crc32, 0xB3B7851D);
    assert_eq!(entry.file_name_len, 9);
}

#[test]
fn descriptor_test_mem_dump2() {
    let vec: Vec<u8> = vec![
        0x50, 0x4b, 0x03, 0x04, 0x14, 0x00, 0x00, 0x08, 0x08, 0x00, 0x00, 0x00, 0x00, 0x00, 0x1d,
        0x85, 0xb7, 0xb3, 0xc6, 0x36, 0x00, 0x00, 0xdf, 0xe0, 0x3e, 0x00, 0x09, 0x00, 0x00, 0x00,
        0x66, 0x69, 0x6c, 0x65, 0x31, 0x2e, 0x74, 0x78, 0x74, 0x78, 0x9c, 0xec, 0xcd, 0x39, 0x11,
        0x00, 0x20, 0x0c,
    ];
    let entry = ArchiveDescriptor::read_file_descriptor(&vec);

    println!("{:#?}", entry);
    assert_eq!(entry.compressed_size, 0x36C6);
}

#[test]
fn descriptor_test_mem_dump3() {
    let vec: Vec<u8> = vec![
        0x50, 0x4b, 0x03, 0x04, 0x14, 0x00, 0x00, 0x08, 0x08, 0x00, 0x00, 0x00, 0x00, 0x00, 0x1d,
        0x85, 0xb7, 0xb3, 0xc6, 0x36, 0x00, 0x00, 0xdf, 0xe0, 0x3e, 0x00, 0x09, 0x00, 0x00, 0x00,
        0x66, 0x69, 0x6c, 0x65, 0x31, 0x2e, 0x74, 0x78, 0x74, 0x78, 0x9c, 0xec, 0xcd, 0x39, 0x11,
        0x00, 0x20, 0x0c,
    ];
    let entry = ArchiveDescriptor::read_file_descriptor(&vec);

    println!("{:#?}", entry);

    println!("\nFile descriptor\n{:?}", entry);
    assert_eq!(entry.uncompressed_size, 0x3EE0DF);
}

use archflow::archive_common::{
    ArchiveDescriptor, ArchiveDescriptorReader, ArchiveFileEntry, ExtraField, ExtraFieldExtendedTimestamp,
};
use archflow::compress::common::{build_central_directory_end, SubZipArchiveData};
use archflow::compression::CompressionMethod;
use archflow::constants::LOCAL_FILE_HEADER_SIGNATURE;
use archflow::report::readable_file_unix_attributes;

#[test]
fn archive_common_test_write_file_header() {
    let version_needed = CompressionMethod::Deflate().zip_version_needed();
    let compression_method = CompressionMethod::Deflate().zip_code();
    let general_purpose_flags: u16 = 1 << 3 | 1 << 11;
    let time = 0u16;
    let date = 0u16;
    let crc = 0u32;
    let compressed_size = 0u32;
    let uncompressed_size = 0u32;
    let file_name = "file1.txt";
    let file_name_len = file_name.as_bytes().len() as u16;

    println!("file_name {:?} length: {:}", file_name, file_name_len);
    let extra_field_length = 0u16;

    let mut desc = ArchiveDescriptor::new(100);
    desc.write_u32(LOCAL_FILE_HEADER_SIGNATURE);
    desc.write_u16(version_needed);
    desc.write_u16(general_purpose_flags);
    desc.write_u16(compression_method);
    desc.write_u16(time);
    desc.write_u16(date);
    desc.write_u32(crc);
    desc.write_u32(compressed_size);
    desc.write_u32(uncompressed_size);
    desc.write_u16(file_name_len);
    desc.write_u16(extra_field_length);
    desc.write_bytes(file_name.as_bytes());
    let vec = desc.finish();

    println!("desc len {:} \n {:02X?}", &vec.len(), &vec);

    let entry = ArchiveDescriptor::read_file_descriptor(&vec);

    println!("{:#?}", entry);

    let entry = entry.unwrap();
    assert_eq!(entry.general_purpose_flags, general_purpose_flags);
    assert_eq!(entry.compression_method, 8);
    assert_eq!(entry.file_name_as_bytes, b"file1.txt".to_vec());
}

const MEM_DUMP: [u8; 110] = [
    0x50, 0x4B, 0x03, 0x04, 0x14, 0x00, 0x00, 0x00, 0x08, 0x00, 0x00, 0x00, 0x21, 0x00, 0x1D,
    0x85, 0xB7, 0xB3, 0xB9, 0x36, 0x00, 0x00, 0xDF, 0xE0, 0x3E, 0x00, 0x09, 0x00, 0x00, 0x00,
    0x66, 0x69, 0x6C, 0x65, 0x31, 0x2E, 0x74, 0x78, 0x74, 0xED, 0xCD, 0x39, 0x11, 0x00, 0x20,
    0x0C, 0x00, 0xB0, 0x1D, 0x35, 0x14, 0xCA, 0xE7, 0xDF, 0x18, 0x2A, 0x18, 0xB8, 0xCB, 0x96,
    0x2D, 0xD1, 0x7A, 0x8E, 0xB9, 0xF6, 0xA9, 0xF1, 0x4C, 0x25, 0x24, 0x12, 0x89, 0x44, 0x22,
    0x91, 0x48, 0x24, 0x12, 0x89, 0x44, 0x22, 0x91, 0x48, 0x24, 0x12, 0x89, 0x44, 0x22, 0x91,
    0x48, 0x24, 0x12, 0x89, 0x44, 0x22, 0x91, 0x48, 0x24, 0x12, 0x89, 0x44, 0x22, 0x91, 0x48,
    0x24, 0x12, 0x89, 0x44, 0x22,
];

const MEM_DUMP2: [u8; 48] = [
    0x50, 0x4b, 0x03, 0x04, 0x14, 0x00, 0x00, 0x08, 0x08, 0x00, 0x00, 0x00, 0x00, 0x00, 0x1d,
    0x85, 0xb7, 0xb3, 0xc6, 0x36, 0x00, 0x00, 0xdf, 0xe0, 0x3e, 0x00, 0x09, 0x00, 0x00, 0x00,
    0x66, 0x69, 0x6c, 0x65, 0x31, 0x2e, 0x74, 0x78, 0x74, 0x78, 0x9c, 0xec, 0xcd, 0x39, 0x11,
    0x00, 0x20, 0x0c,
];

#[test]
fn archive_common_test_mem_dump() {
    let vec: Vec<u8> = MEM_DUMP.to_vec();

    let entry = ArchiveDescriptor::read_file_descriptor(&vec);

    println!("{:#?}", entry);

    let entry = entry.unwrap();
    assert_eq!(entry.crc32, 0xB3B7851D);
    assert_eq!(entry.compressed_size, 0x36B9);
    assert_eq!(entry.uncompressed_size, 0x3EE0DF);
    assert_eq!(entry.last_mod_file_date, 0x0021);
}

#[test]
fn archive_common_test_mem_dump2() {
    let vec: Vec<u8> = MEM_DUMP2.to_vec();
    let entry = ArchiveDescriptor::read_file_descriptor(&vec);

    println!("{:#?}", entry);
    assert!(entry.is_ok());
}

#[test]
fn archive_common_test_mem_dump3() {
    let vec: Vec<u8> = MEM_DUMP2.to_vec();
    let entry = ArchiveDescriptor::read_file_descriptor(&vec).unwrap();

    println!("{:#?}", entry);

    println!("\nFile descriptor\n{}", entry.to_string());
    assert_eq!(entry.general_purpose_flags, 0x0800);
    assert!(!entry.extended_local_header());
}

#[test]
fn test_mem_dump_cur_lib_sf() {
    let vec: Vec<u8> = vec![
        0x50, 0x4b, 0x03, 0x04, 0x14, 0x00, 0x00, 0x00, 0x08, 0x00, 0x00, 0x00, 0x00, 0x00,
        0x00, 0x82, 0xea, 0xc6, 0x30, 0x00, 0x00, 0x00, 0x00, 0x04, 0x00, 0x00, 0x13, 0x00,
        0x00, 0x00, 0x73, 0x68, 0x6f, 0x72, 0x74, 0x5f, 0x74, 0x65, 0x78, 0x74, 0x5f, 0x66,
        0x69, 0x6c, 0x65, 0x2e, 0x74, 0x78, 0x74, 0x78, 0x9c, 0xec, 0xcd, 0xb9, 0x11, 0x00,
        0x30, 0x08, 0x03, 0xb0, 0x3e, 0xd3, 0xc4, 0xfc, 0xec, 0xbf, 0x18, 0x53, 0x70, 0x47,
        0xe1, 0x4e, 0x9d, 0x20, 0x6a, 0x1e, 0x59, 0xfd, 0xb1, 0xa6, 0x07, 0x26, 0x4c, 0x98,
        0x5c, 0x4c, 0x06, 0x00, 0x00, 0xff, 0xff, 0x03, 0x00, 0x6b, 0x19, 0xd0, 0x50, 0x50,
        0x4b, 0x01, 0x02, 0x2e, 0x03, 0x14, 0x00, 0x00, 0x00, 0x08, 0x00, 0x00, 0x00, 0x00,
        0x00, 0x00, 0x82, 0xea, 0xc6, 0x30, 0x00, 0x00, 0x00, 0x00, 0x04, 0x00, 0x00, 0x13,
        0x00, 0x00, 0x00, 0x00, 0x00, 0x00, 0x00, 0x00, 0x00, 0x00, 0x00, 0xa4, 0x81, 0x00,
        0x00, 0x00, 0x00, 0x73, 0x68, 0x6f, 0x72, 0x74, 0x5f, 0x74, 0x65, 0x78, 0x74, 0x5f,
        0x66, 0x69, 0x6c, 0x65, 0x2e, 0x74, 0x78, 0x74, 0x50, 0x4b, 0x05, 0x06, 0x00, 0x00,
        0x00, 0x00, 0x01, 0x00, 0x01, 0x00, 0x41, 0x00, 0x00, 0x00, 0x61, 0x00, 0x00, 0x00,
        0x00, 0x00,
    ];
    let entry = ArchiveDescriptor::read_file_descriptor(&vec).unwrap();

    println!("{:#?}", entry);

    println!("\nFile descriptor\n{}", entry.to_string());
    assert_eq!(entry.get_file_name(), "short_text_file.txt");
    assert_eq!(entry.compressed_size, 0x30);
    assert_eq!(entry.uncompressed_size, 0x400);
}

#[test]
fn test_mem_dump_rust_zip_lib_sf() {
    let vec: Vec<u8> = vec![
        0x50, 0x4b, 0x03, 0x04, 0x14, 0x00, 0x00, 0x00, 0x08, 0x00, 0x00, 0x00, 0x21, 0x00,
        0x00, 0x82, 0xea, 0xc6, 0x24, 0x00, 0x00, 0x00, 0x00, 0x04, 0x00, 0x00, 0x13, 0x00,
        0x00, 0x00, 0x73, 0x68, 0x6f, 0x72, 0x74, 0x5f, 0x74, 0x65, 0x78, 0x74, 0x5f, 0x66,
        0x69, 0x6c, 0x65, 0x2e, 0x74, 0x78, 0x74, 0xed, 0xcd, 0xb9, 0x11, 0x00, 0x30, 0x08,
        0x03, 0xb0, 0x3e, 0xd3, 0xc4, 0xfc, 0xec, 0xbf, 0x18, 0x53, 0x70, 0x47, 0xe1, 0x4e,
        0x9d, 0x20, 0x6a, 0x1e, 0x59, 0xfd, 0xb1, 0xa6, 0x07, 0x26, 0x4c, 0x98, 0x5c, 0x4c,
        0x06, 0x50, 0x4b, 0x01, 0x02, 0x2e, 0x03, 0x14, 0x00, 0x00, 0x00, 0x08, 0x00, 0x00,
        0x00, 0x21, 0x00, 0x00, 0x82, 0xea, 0xc6, 0x24, 0x00, 0x00, 0x00, 0x00, 0x04, 0x00,
        0x00, 0x13, 0x00, 0x00, 0x00, 0x00, 0x00, 0x00, 0x00, 0x00, 0x00, 0x00, 0x00, 0xa4,
        0x81, 0x00, 0x00, 0x00, 0x00, 0x73, 0x68, 0x6f, 0x72, 0x74, 0x5f, 0x74, 0x65, 0x78,
        0x74, 0x5f, 0x66, 0x69, 0x6c, 0x65, 0x2e, 0x74, 0x78, 0x74, 0x50, 0x4b, 0x05, 0x06,
        0x00, 0x00, 0x00, 0x00, 0x01, 0x00, 0x01, 0x00, 0x41, 0x00, 0x00, 0x00, 0x55, 0x00,
        0x00, 0x00, 0x00, 0x00,
    ];
    let entry = ArchiveDescriptor::read_file_descriptor(&vec).unwrap();

    println!("{:#?}", entry);

    println!("\nFile descriptor\n{}", entry.to_string());
    assert_eq!(entry.compressed_size, 0x24);
    assert_eq!(entry.last_mod_file_date, 0x21);
}

#[test]
fn test_permision() {
    let val = 0o755;
    println!("{:o} {}", val, readable_file_unix_attributes(val));
    assert_eq!(readable_file_unix_attributes(val), "-rwxr-xr-x");

    let val = 0o644;
    println!("{:o} {}", val, readable_file_unix_attributes(val));
    assert_eq!(readable_file_unix_attributes(val), "-rw-r--r--");
}

const TEST_DATA: Option<i32> = Some(1582248020);

#[test]
fn test_flags() {
    let extrafield = ExtraFieldExtendedTimestamp::new(TEST_DATA, None, None);

    assert_eq!(extrafield.flags, ExtraFieldExtendedTimestamp::MODIFY_TIME_BIT);

    let extrafield = ExtraFieldExtendedTimestamp::new(TEST_DATA, TEST_DATA, TEST_DATA);

    assert_eq!(
        extrafield.flags,
        ExtraFieldExtendedTimestamp::MODIFY_TIME_BIT
            | ExtraFieldExtendedTimestamp::CREATE_TIME_BIT
            | ExtraFieldExtendedTimestamp::ACCESS_TIME_BIT
    );

    let extrafield = ExtraFieldExtendedTimestamp::new(TEST_DATA, None, TEST_DATA);

    assert_eq!(
        extrafield.flags,
        ExtraFieldExtendedTimestamp::MODIFY_TIME_BIT | ExtraFieldExtendedTimestamp::CREATE_TIME_BIT
    );

    let extrafield = ExtraFieldExtendedTimestamp::new(Some(1582248020), TEST_DATA, TEST_DATA);

    assert_eq!(
        extrafield.flags,
        ExtraFieldExtendedTimestamp::MODIFY_TIME_BIT
            | ExtraFieldExtendedTimestamp::ACCESS_TIME_BIT
            | ExtraFieldExtendedTimestamp::CREATE_TIME_BIT
    );

    let extrafield = ExtraFieldExtendedTimestamp::new(None, TEST_DATA, None);

    assert_eq!(extrafield.flags, ExtraFieldExtendedTimestamp::ACCESS_TIME_BIT);

    let extrafield = ExtraFieldExtendedTimestamp::new(None, TEST_DATA, TEST_DATA);

    assert_eq!(
        extrafield.flags,
        ExtraFieldExtendedTimestamp::ACCESS_TIME_BIT | ExtraFieldExtendedTimestamp::CREATE_TIME_BIT
    );
}

#[test]
fn test_write() {
    let extrafield = ExtraFieldExtendedTimestamp::new(TEST_DATA, None, None);

    let size = extrafield.file_header_extra_field_data_size();

    assert_eq!(size, 5);

    let extrafield = ExtraFieldExtendedTimestamp::new(None, None, None);

    let size = extrafield.file_header_extra_field_data_size();
    assert_eq!(size, 1);

    let mut archive_descriptor = ArchiveDescriptor::new(100);

    let archive_file_entry = ArchiveFileEntry::default();

    extrafield.central_header_extra_write_data(&mut archive_descriptor, &archive_file_entry);

    assert!(archive_descriptor.is_empty());

    extrafield.local_header_write_data(&mut archive_descriptor, &archive_file_entry);

    assert!(archive_descriptor.is_empty());

    let extrafield = ExtraFieldExtendedTimestamp::new(TEST_DATA, TEST_DATA, TEST_DATA);

    extrafield.central_header_extra_write_data(&mut archive_descriptor, &archive_file_entry);

    assert!(!archive_descriptor.is_empty());
    assert_eq!(
        archive_descriptor.len(),
        extrafield.central_header_extra_field_size(&archive_file_entry) as usize
    );

    archive_descriptor.clear();
    extrafield.local_header_write_data(&mut archive_descriptor, &archive_file_entry);

    assert!(!archive_descriptor.is_empty());
    assert_eq!(
        archive_descriptor.len(),
        extrafield.local_header_extra_field_size(&archive_file_entry) as usize
    );
}

#[test]
fn timestamp_local_form_parses_back() {
    let entry = ArchiveFileEntry::default();
    let field = ExtraFieldExtendedTimestamp::new(Some(1582248020), Some(-5), None);
    let mut desc = ArchiveDescriptor::new(20);
    field.local_header_write_data(&mut desc, &entry);
    let bytes = desc.finish();
    assert_eq!(bytes.len(), field.local_header_extra_field_size(&entry) as usize);
    let size = u16::from_le_bytes([bytes[2], bytes[3]]);
    assert_eq!(size, 9);
    let mut reader = ArchiveDescriptorReader::new();
    let parsed = ExtraFieldExtendedTimestamp::parse_extra_field(&mut reader, &bytes[4..], size);
    assert_eq!(parsed.flags, field.flags);
    assert_eq!(parsed.modify_time, Some(1582248020));
    assert_eq!(parsed.access_time, Some(-5));
    assert_eq!(parsed.create_time, None);
}

#[test]
fn timestamp_central_form_keeps_modification_only() {
    let entry = ArchiveFileEntry::default();
    let field = ExtraFieldExtendedTimestamp::new(Some(7), Some(8), Some(9));
    let mut desc = ArchiveDescriptor::new(20);
    field.central_header_extra_write_data(&mut desc, &entry);
    let bytes = desc.finish();
    assert_eq!(bytes.len(), 9);
    let mut reader = ArchiveDescriptorReader::new();
    let parsed = ExtraFieldExtendedTimestamp::parse_extra_field(&mut reader, &bytes[4..], 5);
    assert_eq!(parsed.flags, 7);
    assert_eq!(parsed.modify_time, Some(7));
    assert_eq!(parsed.access_time, None);
}

#[test]
fn timestamp_local_form_with_all_three_times() {
    let entry = ArchiveFileEntry::default();
    let field = ExtraFieldExtendedTimestamp::new(Some(100), Some(-200), Some(300));
    let mut desc = ArchiveDescriptor::new(20);
    field.local_header_write_data(&mut desc, &entry);
    let bytes = desc.finish();
    let size = u16::from_le_bytes([bytes[2], bytes[3]]);
    assert_eq!(size, 13);
    let mut reader = ArchiveDescriptorReader::new();
    let parsed = ExtraFieldExtendedTimestamp::parse_extra_field(&mut reader, &bytes[4..], size);
    assert_eq!(parsed.flags, 7);
    assert_eq!(parsed.modify_time, Some(100));
    assert_eq!(parsed.access_time, Some(-200));
    assert_eq!(parsed.create_time, Some(300));
    assert_eq!(reader.get_index(), 13);
}

#[test]
fn big_file_size_gives_zip64_end_records() {
    let mut data = SubZipArchiveData::default();
    let mut entry = ArchiveFileEntry::default();
    entry.uncompressed_size = 0xFFFF_FFFF;
    data.add_archive_file_entry(entry);
    let d = build_central_directory_end(&mut data, 100, 50);
    assert_eq!(d.buffer().len(), 76 + 22);
    assert_eq!(&d.buffer()[0..4], &[0x50, 0x4B, 0x06, 0x06]);
    assert_eq!(&d.buffer()[56..60], &[0x50, 0x4B, 0x06, 0x07]);
    assert_eq!(&d.buffer()[76..80], &[0x50, 0x4B, 0x05, 0x06]);

    let mut small = SubZipArchiveData::default();
    small.add_archive_file_entry(ArchiveFileEntry::default());
    let d = build_central_directory_end(&mut small, 100, 50);
    assert_eq!(d.buffer().len(), 22);
    assert_eq!(&d.buffer()[0..4], &[0x50, 0x4B, 0x05, 0x06]);
}

#[test]
fn invalid_name_bytes_are_replaced() {
    let mut entry = ArchiveFileEntry::default();
    entry.file_name_as_bytes = vec![b'a', 0xFF, b'b'];
    assert_eq!(entry.get_file_name(), "a\u{FFFD}b");
}

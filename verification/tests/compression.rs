use archflow::compress::common::is_text_buf;
use archflow::compression::{CompressionMethod, Level};

#[test]
fn update_general_purpose_bit_flag() {
    assert_eq!(
        CompressionMethod::Deflate().update_general_purpose_bit_flag(0, Level::Default),
        0
    );

    assert_eq!(
        CompressionMethod::Deflate().update_general_purpose_bit_flag(123, Level::Default),
        123
    );

    assert_eq!(
        CompressionMethod::Deflate().update_general_purpose_bit_flag(0, Level::Best),
        CompressionMethod::Deflate().update_general_purpose_bit_flag(0, Level::Precise(1252345))
    );

    assert_eq!(
        CompressionMethod::Deflate().update_general_purpose_bit_flag(0, Level::Best),
        CompressionMethod::Deflate().update_general_purpose_bit_flag(0, Level::Precise(8))
    );

    assert_eq!(
        CompressionMethod::Deflate().update_general_purpose_bit_flag(0, Level::Fastest),
        CompressionMethod::Deflate().update_general_purpose_bit_flag(0, Level::Precise(1))
    );

    assert_eq!(
        CompressionMethod::Deflate().update_general_purpose_bit_flag(0, Level::Fastest),
        CompressionMethod::Deflate().update_general_purpose_bit_flag(0, Level::Precise(2))
    );

    assert_eq!(
        CompressionMethod::Deflate().update_general_purpose_bit_flag(0, Level::Fastest),
        4
    );

    assert_eq!(
        CompressionMethod::Store().update_general_purpose_bit_flag(0, Level::Fastest),
        0
    );
}

#[test]
fn all_text() {
    let res = is_text_buf(b"Some string data");

    assert!(res)
}

#[test]
fn not_all_text() {
    let mut v = b"Some string data".to_vec();
    v.push(3u8);

    let res = is_text_buf(&v);

    assert!(!res)
}

#[test]
fn tab_and_line_breaks_are_text() {
    assert!(is_text_buf(b"\t\n"));
    assert!(is_text_buf(b"\r"));
    assert!(!is_text_buf(b"\x0b\x0c"));
    assert!(!is_text_buf(b""));
    assert!(!is_text_buf(b"\t\x1f"));
}

#[test]
fn compression_codes_and_versions() {
    assert_eq!(CompressionMethod::Store().zip_code(), 0);
    assert_eq!(CompressionMethod::Deflate().zip_code(), 8);
    assert_eq!(CompressionMethod::BZip2().zip_code(), 12);
    assert_eq!(CompressionMethod::Lzma().zip_code(), 14);
    assert_eq!(CompressionMethod::Zstd().zip_code(), 93);
    assert_eq!(CompressionMethod::Xz().zip_code(), 95);
    assert_eq!(CompressionMethod::Deflate().zip_version_needed(), 20);
    assert_eq!(CompressionMethod::BZip2().zip_version_needed(), 46);
    assert!(matches!(
        CompressionMethod::from_compression_method(93),
        Ok(CompressionMethod::Zstd())
    ));
    assert!(CompressionMethod::from_compression_method(7).is_err());
    assert_eq!(
        CompressionMethod::Deflate().update_general_purpose_bit_flag(0, Level::Best),
        2
    );
    assert_eq!(
        CompressionMethod::Deflate().update_general_purpose_bit_flag(0, Level::NoCompression),
        0
    );
}

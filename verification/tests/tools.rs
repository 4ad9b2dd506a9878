use archflow::tools::archive_size;

#[test]
fn archive_size_test() {
    assert_eq!(
        archive_size(&[
            ("file1.txt", b"hello\n".len()),
            ("file2.txt", b"world\n".len()),
        ]),
        254,
    );
    assert_eq!(
        archive_size(&[
            ("file1.txt", b"hello\n".len()),
            ("file2.txt", b"world\n".len()),
            ("file3.txt", b"how are you?\n".len()),
        ]),
        377,
    );
}

#[test]
fn archive_size_of_nothing_is_the_end_record() {
    assert_eq!(archive_size(&[]), 22);
}

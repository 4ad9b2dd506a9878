use std::io::Read;

pub struct MockReader {
    mock_size: usize,
}

impl MockReader {
    pub fn new(size: usize) -> Self {
        Self { mock_size: size }
    }
}

impl Read for MockReader {
    fn read(&mut self, buf: &mut [u8]) -> std::io::Result<usize> {
        let size = buf.len().min(self.mock_size);
        buf.fill(b'0');
        self.mock_size -= size;
        println!("{:0x}", self.mock_size);
        Ok(size)
    }
}

#[test]
fn std_test_reader() {
    let mut buf = [b'a'; 10];

    let mut reader = MockReader::new(105);
    let mut total = 0;

    loop {
        match reader.read(&mut buf) {
            Ok(size) => {
                if size == 0 {
                    break;
                }
                total += size;
                println!("{:?}", buf);
                println!("Read {} bytes", size)
            }
            Err(e) => panic!("Error {:?}", e),
        }
    }
    assert_eq!(total, 105);
}

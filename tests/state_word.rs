use qrwlock::state::{admits_reader, READER_COUNT, WRITER_LOCKED, WRITER_MASK, WRITER_WAITING};

#[test]
fn layout_constants() {
    assert_eq!(WRITER_LOCKED, 0xff);
    assert_eq!(WRITER_WAITING, 1 << 8);
    assert_eq!(WRITER_MASK, WRITER_LOCKED | WRITER_WAITING);
    assert_eq!(READER_COUNT, 1 << 9);
}

#[test]
fn admits_reader_on_idle_and_read_locked_words() {
    assert!(admits_reader(0));
    assert!(admits_reader(READER_COUNT));
    assert!(admits_reader(7 * READER_COUNT));
}

#[test]
fn admits_reader_refuses_writer_bits() {
    assert!(!admits_reader(WRITER_LOCKED));
    assert!(!admits_reader(WRITER_WAITING));
    assert!(!admits_reader(WRITER_WAITING | 3 * READER_COUNT));
    assert!(!admits_reader(WRITER_LOCKED | WRITER_WAITING));
}

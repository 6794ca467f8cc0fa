//! The memory unit: byte and word access, range checks, program
//! loading, clearing and the hexadecimal dump.

use cvere::memory::Memory;
use cvere::VmError;

#[test]
fn test_byte_round_trip() {
    let mut m = Memory::new(65536);
    m.write_byte(0x1234, 0xAB).unwrap();
    assert_eq!(m.read_byte(0x1234).unwrap(), 0xAB);
    assert_eq!(m.read_byte(0x1235).unwrap(), 0x00);
}

#[test]
fn test_word_round_trip_and_endianness() {
    let mut m = Memory::new(65536);
    m.write_word(0x2000, 0xBEEF).unwrap();
    assert_eq!(m.read_word(0x2000).unwrap(), 0xBEEF);
    assert_eq!(m.read_byte(0x2000).unwrap(), 0xEF, "low byte first");
    assert_eq!(m.read_byte(0x2001).unwrap(), 0xBE);

    // Unaligned word accesses are allowed.
    m.write_word(0x2001, 0x1234).unwrap();
    assert_eq!(m.read_word(0x2001).unwrap(), 0x1234);
}

#[test]
fn test_word_round_trip_everywhere_sampled() {
    let mut m = Memory::new(65536);
    let mut a: usize = 0;
    while a < 65535 {
        m.write_word(a, (a % 65536) as u16).unwrap();
        assert_eq!(m.read_word(a).unwrap(), (a % 65536) as u16);
        a += 997;
    }
}

#[test]
fn test_out_of_range_reports() {
    let mut m = Memory::new(65536);
    assert_eq!(m.read_byte(65536), Err(VmError::OutOfRange));
    assert_eq!(m.write_byte(65536, 1), Err(VmError::OutOfRange));
    assert_eq!(m.read_word(65535), Err(VmError::OutOfRange), "the high byte would be outside");
    assert_eq!(m.write_word(65535, 1), Err(VmError::OutOfRange));
    assert!(m.read_byte(65535).is_ok());
    assert!(m.read_word(65534).is_ok());
}

#[test]
fn test_load_program_layout() {
    let mut m = Memory::new(65536);
    m.load_program(&[0xC105, 0xFFFF], 0x100).unwrap();
    assert_eq!(m.read_word(0x100).unwrap(), 0xC105);
    assert_eq!(m.read_word(0x102).unwrap(), 0xFFFF);
    assert_eq!(m.read_word(0x104).unwrap(), 0x0000);
}

#[test]
fn test_load_program_out_of_range() {
    let mut m = Memory::new(65536);
    assert_eq!(
        m.load_program(&[0x1111, 0x2222], 0xFFFC),
        Ok(()),
        "two words exactly fill the top"
    );
    assert_eq!(
        m.load_program(&[0x3333, 0x4444], 0xFFFE),
        Err(VmError::OutOfRange),
        "the second word does not fit"
    );
    assert_eq!(m.read_word(0xFFFE).unwrap(), 0x3333, "words before the failure stay written");
}

#[test]
fn test_clear_and_size() {
    let mut m = Memory::new(256);
    assert_eq!(m.size(), 256);
    m.write_byte(10, 7).unwrap();
    m.clear();
    assert_eq!(m.read_byte(10).unwrap(), 0);
    assert_eq!(m.read_byte(256), Err(VmError::OutOfRange));
}

#[test]
fn test_dump_format() {
    let mut m = Memory::new(65536);
    m.write_byte(0, 0x41).unwrap(); // 'A'
    m.write_byte(1, 0x00).unwrap();
    let d = m.dump(0, 16);
    assert_eq!(
        d,
        "0000: 41 00 00 00 00 00 00 00 00 00 00 00 00 00 00 00  |A...............|\n"
    );
    let short = m.dump(0, 2);
    assert_eq!(short, "0000: 41 00  |A.|\n");
    assert_eq!(m.dump(0, 0), "");
    let two_lines = m.dump(0, 18);
    assert_eq!(two_lines.lines().count(), 2);
}

use emulator::memory::{Memory, MEMORY_SIZE};

#[test]
fn new_memory_is_zero() {
    let memory = Memory::new();
    assert_eq!(memory.read_byte(0x0000), 0);
    assert_eq!(memory.read_byte(0x1234), 0);
    assert_eq!(memory.read_byte(0xFFFF), 0);
    assert_eq!(Memory::default().read_byte(0x8000), 0);
}

#[test]
fn write_then_read_byte() {
    let mut memory = Memory::new();
    memory.write_byte(0x1234, 0xAB);
    assert_eq!(memory.read_byte(0x1234), 0xAB);
    assert_eq!(memory.read_byte(0x1233), 0);
    assert_eq!(memory.read_byte(0x1235), 0);
    memory.write_byte(0xFFFF, 0x01);
    assert_eq!(memory.read_byte(0xFFFF), 0x01);
}

#[test]
fn write_bytes_then_read_bytes() {
    let mut memory = Memory::new();
    memory.write_bytes(0x1000, &[1, 2, 3, 4]);
    assert_eq!(memory.read_bytes(0x1000, 4), vec![1, 2, 3, 4]);
    assert_eq!(memory.read_bytes(0x0FFF, 6), vec![0, 1, 2, 3, 4, 0]);
    assert_eq!(memory.read_bytes(0x1000, 0), Vec::<u8>::new());
}

#[test]
fn write_bytes_wraps_at_the_top_of_memory() {
    let mut memory = Memory::new();
    memory.write_bytes(0xFFFE, &[0xA1, 0xA2, 0xA3, 0xA4]);
    assert_eq!(memory.read_byte(0xFFFE), 0xA1);
    assert_eq!(memory.read_byte(0xFFFF), 0xA2);
    assert_eq!(memory.read_byte(0x0000), 0xA3);
    assert_eq!(memory.read_byte(0x0001), 0xA4);
    assert_eq!(memory.read_byte(0x0002), 0);
}

#[test]
fn read_bytes_wraps_at_the_top_of_memory() {
    let mut memory = Memory::new();
    memory.write_byte(0xFFFF, 7);
    memory.write_byte(0x0000, 8);
    memory.write_byte(0x0001, 9);
    assert_eq!(memory.read_bytes(0xFFFF, 3), vec![7, 8, 9]);
}

#[test]
fn write_bytes_longer_than_memory_keeps_the_last_byte() {
    let mut memory = Memory::new();
    let mut bytes = vec![0x11u8; MEMORY_SIZE];
    bytes.push(0x22);
    bytes.push(0x33);
    memory.write_bytes(0x0010, &bytes);
    assert_eq!(memory.read_byte(0x0010), 0x22);
    assert_eq!(memory.read_byte(0x0011), 0x33);
    assert_eq!(memory.read_byte(0x0012), 0x11);
    assert_eq!(memory.read_byte(0x000F), 0x11);
}

#[test]
fn mut_byte_writes_in_place() {
    let mut memory = Memory::new();
    memory.write_byte(0x0200, 5);
    let byte = memory.mut_byte(0x0200);
    assert_eq!(*byte, 5);
    *byte += 1;
    assert_eq!(memory.read_byte(0x0200), 6);
}

#[test]
fn to_bytes_copies_the_whole_memory() {
    let mut memory = Memory::new();
    memory.write_byte(0x0000, 1);
    memory.write_byte(0xFFFF, 2);
    let bytes = memory.to_bytes();
    assert_eq!(bytes.len(), 0x10000);
    assert_eq!(bytes[0], 1);
    assert_eq!(bytes[0xFFFF], 2);
    assert_eq!(bytes[0x8000], 0);
}

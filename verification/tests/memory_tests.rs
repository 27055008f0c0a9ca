use toycc::constants::{BP, REGISTER_COUNT, SP};
use toycc::memory::Memory;

#[test]
fn new_memory_holds_program_then_zeros() {
    let memory = Memory::new(8, vec![1, 2, 3]);
    assert_eq!(memory.size(), 8);
    assert_eq!(memory.read_bytes(0, 8), vec![1, 2, 3, 0, 0, 0, 0, 0]);
}

#[test]
fn new_memory_sets_stack_and_base_pointer_to_size() {
    let memory = Memory::new(64, vec![]);
    assert_eq!(memory.register(SP), 64);
    assert_eq!(memory.register(BP), 64);
    for i in 0..REGISTER_COUNT {
        if i != SP && i != BP {
            assert_eq!(memory.register(i), 0);
        }
    }
}

#[test]
fn new_memory_with_program_filling_it() {
    let memory = Memory::new(2, vec![7, 9]);
    assert_eq!(memory.read_bytes(0, 2), vec![7, 9]);
}

#[test]
fn read_unsigned_is_little_endian() {
    let memory = Memory::new(8, vec![0x01, 0x02, 0x03, 0x04, 0x05, 0x06, 0x07, 0x08]);
    assert_eq!(memory.read_u64_le(0, 1), 0x01);
    assert_eq!(memory.read_u64_le(0, 2), 0x0201);
    assert_eq!(memory.read_u64_le(0, 4), 0x04030201);
    assert_eq!(memory.read_u64_le(0, 8), 0x0807060504030201);
    assert_eq!(memory.read_u64_le(6, 2), 0x0807);
}

#[test]
fn read_signed_extends_the_sign() {
    let memory = Memory::new(8, vec![0xff, 0xff, 0xff, 0xff, 0xff, 0xff, 0xff, 0xff]);
    assert_eq!(memory.read_i64_le(0, 1), -1);
    assert_eq!(memory.read_i64_le(0, 2), -1);
    assert_eq!(memory.read_i64_le(0, 4), -1);
    assert_eq!(memory.read_i64_le(0, 8), -1);
    let memory = Memory::new(2, vec![0x80, 0x7f]);
    assert_eq!(memory.read_i64_le(0, 1), -128);
    assert_eq!(memory.read_i64_le(1, 1), 127);
    assert_eq!(memory.read_i64_le(0, 2), 0x7f80);
}

#[test]
fn write_unsigned_then_read_gives_value_back() {
    let mut memory = Memory::new(16, vec![]);
    memory.write_u64_le(3, 0x1122334455667788, 8);
    assert_eq!(memory.read_u64_le(3, 8), 0x1122334455667788);
    assert_eq!(memory.read_bytes(3, 8), vec![0x88, 0x77, 0x66, 0x55, 0x44, 0x33, 0x22, 0x11]);
}

#[test]
fn write_unsigned_truncates_to_the_data_size() {
    let mut memory = Memory::new(8, vec![0xaa; 8]);
    memory.write_u64_le(0, 0x1234, 1);
    assert_eq!(memory.read_bytes(0, 8), vec![0x34, 0xaa, 0xaa, 0xaa, 0xaa, 0xaa, 0xaa, 0xaa]);
    memory.write_u64_le(2, 0x123456789, 4);
    assert_eq!(memory.read_u64_le(2, 4), 0x23456789);
    assert_eq!(memory.read_u64_le(6, 2), 0xaaaa);
}

#[test]
fn write_signed_then_read_gives_value_back() {
    let mut memory = Memory::new(8, vec![]);
    memory.write_i64_le(0, -2, 2);
    assert_eq!(memory.read_i64_le(0, 2), -2);
    assert_eq!(memory.read_u64_le(0, 2), 0xfffe);
    memory.write_i64_le(0, i64::MIN, 8);
    assert_eq!(memory.read_i64_le(0, 8), i64::MIN);
    memory.write_i64_le(4, -300, 1);
    assert_eq!(memory.read_u64_le(4, 1), 0xd4);
}

#[test]
fn write_does_not_touch_other_bytes_or_registers() {
    let mut memory = Memory::new(6, vec![1, 2, 3, 4, 5, 6]);
    memory.write_u64_le(2, 0, 2);
    assert_eq!(memory.read_bytes(0, 6), vec![1, 2, 0, 0, 5, 6]);
    assert_eq!(memory.register(SP), 6);
    assert_eq!(memory.register(BP), 6);
}

#[test]
fn write_bytes_then_read_bytes_gives_them_back() {
    let mut memory = Memory::new(10, vec![9; 10]);
    memory.write_bytes(4, &[1, 2, 3]);
    assert_eq!(memory.read_bytes(4, 3), vec![1, 2, 3]);
    assert_eq!(memory.read_bytes(0, 10), vec![9, 9, 9, 9, 1, 2, 3, 9, 9, 9]);
    memory.write_bytes(10, &[]);
    assert_eq!(memory.read_bytes(10, 0), Vec::<u8>::new());
}

#[test]
fn signed_registers_reinterpret_the_bits() {
    let memory = Memory::new(32, vec![]);
    let registers = memory.signed_registers();
    assert_eq!(registers.len(), REGISTER_COUNT);
    assert_eq!(registers[SP], 32);
    assert_eq!(registers[0], 0);
}

#[test]
fn stack_of_fresh_memory_is_empty() {
    let memory = Memory::new(4, vec![1, 2, 3, 4]);
    assert_eq!(memory.stack_bytes(), Vec::<u8>::new());
    assert_eq!(memory.stack_frame_bytes(), Vec::<u8>::new());
}

#[test]
fn signed_write_stores_the_bits_of_an_unsigned_write() {
    for (value, n) in [(-1i64, 1u8), (-300, 2), (i64::MIN, 8), (123456789, 4), (-7, 4)] {
        let mut signed = Memory::new(12, vec![5; 12]);
        let mut unsigned = Memory::new(12, vec![5; 12]);
        signed.write_i64_le(2, value, n);
        unsigned.write_u64_le(2, value as u64, n);
        assert_eq!(signed.read_bytes(0, 12), unsigned.read_bytes(0, 12));
    }
}

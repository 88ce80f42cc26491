use evm_core::mem::Memory;
use evm_core::word::Word;

#[test]
fn fresh_memory_reads_zeros() {
    let mut memory = Memory::new();
    assert_eq!(memory.len(), 0);
    assert_eq!(memory.read(5, 7), vec![0u8; 7]);
    assert_eq!(memory.len(), 12);
    let mut other = Memory::new();
    assert_eq!(other.read32(100), Word::zero());
    assert_eq!(other.len(), 132);
}

#[test]
fn empty_read_does_not_grow() {
    let mut memory = Memory::new();
    assert_eq!(memory.read(1000, 0), Vec::<u8>::new());
    assert_eq!(memory.len(), 0);
}

#[test]
fn write32_is_big_endian() {
    let mut memory = Memory::new();
    memory.write32(2, Word::from_u64(0x0102));
    assert_eq!(memory.len(), 34);
    assert_eq!(memory.memory[33], 0x02);
    assert_eq!(memory.memory[32], 0x01);
    assert_eq!(memory.memory[2], 0x00);
    assert_eq!(memory.read32(2), Word::from_u64(0x0102));
    assert_eq!(memory.read32(3), Word::from_u64(0x010200));
}

#[test]
fn write8_sets_one_byte() {
    let mut memory = Memory::new();
    memory.write8(0, 5);
    assert_eq!(memory.memory, vec![5u8]);
    assert_eq!(memory.read32(0), Word::from_limbs(0, 0, 0, 0x0500_0000_0000_0000));
}

#[test]
fn write_keeps_the_rest() {
    let mut memory = Memory::new();
    memory.write(1, &[1, 2, 3]);
    memory.write(2, &[9]);
    memory.write(50, &[]);
    assert_eq!(memory.memory, vec![0, 1, 9, 3]);
}

#[test]
fn write_with_size_pads_and_truncates() {
    let mut memory = Memory::new();
    memory.write(0, &[7, 7, 7, 7, 7, 7]);
    memory.write_with_size(1, 4, &[1, 2]);
    assert_eq!(memory.memory, vec![7, 1, 2, 0, 0, 7]);
    memory.write_with_size(0, 2, &[4, 5, 6]);
    assert_eq!(memory.memory, vec![4, 5, 2, 0, 0, 7]);
    memory.write_with_size(8, 0, &[1]);
    assert_eq!(memory.len(), 8);
}

#[test]
fn fill_sets_a_span() {
    let mut memory = Memory::new();
    memory.fill(2, 0xaa, 3);
    assert_eq!(memory.memory, vec![0, 0, 0xaa, 0xaa, 0xaa]);
}

#[test]
fn copy_handles_overlap() {
    let mut memory = Memory::new();
    memory.write(0, &[1, 2, 3, 4, 5]);
    memory.copy(1, 0, 4);
    assert_eq!(memory.memory, vec![1, 1, 2, 3, 4]);
    let mut other = Memory::new();
    other.write(0, &[1, 2, 3, 4, 5]);
    other.copy(0, 1, 4);
    assert_eq!(other.memory, vec![2, 3, 4, 5, 5]);
    let mut grow = Memory::new();
    grow.write(0, &[1, 2]);
    grow.copy(4, 0, 2);
    assert_eq!(grow.memory, vec![1, 2, 0, 0, 1, 2]);
}

#[test]
fn ensure_capacity_grows_with_zeros() {
    let mut memory = Memory::new();
    memory.write(0, &[3]);
    memory.ensure_capacity(2, 2);
    assert_eq!(memory.memory, vec![3, 0, 0, 0]);
    memory.ensure_capacity(0, 1);
    assert_eq!(memory.len(), 4);
}

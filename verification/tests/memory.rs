use mos6502::memory::{BlockMemory, BranchMemory, Memory, NullMemory};

fn block(bytes: Vec<u8>, writable: bool) -> Memory {
    Memory::Block(BlockMemory::new(bytes, writable))
}

#[test]
fn null_memory_reads_zero_and_drops_writes() {
    let mut m = Memory::Null(NullMemory::new());
    assert_eq!(m.read(0x0000), 0);
    assert_eq!(m.read(0x1234), 0);
    m.write(0x1234, 0xab);
    assert_eq!(m.read(0x1234), 0);
}

#[test]
fn block_memory_reads_and_writes_in_range() {
    let mut m = block(vec![1, 2, 3], true);
    assert_eq!(m.read(0), 1);
    assert_eq!(m.read(2), 3);
    m.write(1, 0x7f);
    assert_eq!(m.read(1), 0x7f);
}

#[test]
fn block_memory_reads_zero_past_length() {
    let m = block(vec![9], true);
    assert_eq!(m.read(1), 0);
    assert_eq!(m.read(0xffff), 0);
}

#[test]
fn block_memory_drops_writes_past_length() {
    let mut m = block(vec![9], true);
    m.write(5, 0x11);
    assert_eq!(m.read(5), 0);
    assert_eq!(m.read(0), 9);
}

#[test]
fn read_only_block_drops_writes() {
    let mut m = block(vec![0x42], false);
    m.write(0, 0x99);
    assert_eq!(m.read(0), 0x42);
}

#[test]
fn router_delegates_by_start_address() {
    // Regions declared at 0x0000 and 0x8000: a read at 0x7FFF goes to the
    // first region at offset 0x7FFF; a read at 0x8000 goes to the second
    // region at offset 0x0000.
    let mut low = vec![0u8; 0x8000];
    low[0x7fff] = 0xaa;
    let mut high = vec![0u8; 0x8000];
    high[0x0000] = 0xbb;
    let router = BranchMemory::new().map(0x0000, block(low, true)).map(0x8000, block(high, true));
    let m = Memory::Branch(router);
    assert_eq!(m.read(0x7fff), 0xaa);
    assert_eq!(m.read(0x8000), 0xbb);
}

#[test]
fn router_writes_through_selected_region() {
    let low = vec![0u8; 0x8000];
    let high = vec![0u8; 0x8000];
    let router = BranchMemory::new().map(0x0000, block(low, true)).map(0x8000, block(high, true));
    let mut m = Memory::Branch(router);
    m.write(0x7fff, 0x11);
    m.write(0x8000, 0x22);
    assert_eq!(m.read(0x7fff), 0x11);
    assert_eq!(m.read(0x8000), 0x22);
    // Offsets are region-relative: byte 0 of the high region changed, not
    // byte 0 of the low one.
    assert_eq!(m.read(0x0000), 0);
}

#[test]
fn router_unmapped_below_first_region() {
    let router = BranchMemory::new().map(0x4000, block(vec![0x55; 16], true));
    let mut m = Memory::Branch(router);
    assert_eq!(m.read(0x3fff), 0);
    m.write(0x3fff, 0x77);
    assert_eq!(m.read(0x3fff), 0);
    assert_eq!(m.read(0x4000), 0x55);
}

#[test]
fn router_later_equal_start_shadows_earlier() {
    let router = BranchMemory::new()
        .map(0x1000, block(vec![0x01; 16], true))
        .map(0x1000, block(vec![0x02; 16], true));
    let m = Memory::Branch(router);
    assert_eq!(m.read(0x1000), 0x02);
}

#[test]
fn router_nests() {
    let inner = BranchMemory::new().map(0x0000, block(vec![0xcd; 4], true));
    let outer = BranchMemory::new().map(0x2000, Memory::Branch(inner));
    let m = Memory::Branch(outer);
    assert_eq!(m.read(0x2001), 0xcd);
    assert_eq!(m.read(0x1fff), 0);
}

#[test]
fn router_tick_and_reset_keep_contents() {
    let router = BranchMemory::new().map(0x0000, block(vec![5, 6, 7], true));
    let mut m = Memory::Branch(router);
    m.tick();
    m.reset();
    assert_eq!(m.read(0), 5);
    assert_eq!(m.read(2), 7);
}

use agon_bus::machine::AgonMachine;
use agon_bus::MEM_SIZE;
use agon_bus::OPEN_BUS;

#[test]
fn write_then_read_returns_value() {
    let mut m = AgonMachine::new();
    m.poke(0, 0x12);
    m.poke(0x3FFFF, 0x34);
    m.poke(0x40000, 0x56);
    m.poke((MEM_SIZE - 1) as u32, 0x78);
    assert_eq!(m.peek(0), 0x12);
    assert_eq!(m.peek(0x3FFFF), 0x34);
    assert_eq!(m.peek(0x40000), 0x56);
    assert_eq!(m.peek((MEM_SIZE - 1) as u32), 0x78);
}

#[test]
fn memory_starts_zeroed() {
    let m = AgonMachine::new();
    assert_eq!(m.peek(0), 0);
    assert_eq!(m.peek(1234), 0);
    assert_eq!(m.peek((MEM_SIZE - 1) as u32), 0);
}

#[test]
fn write_elsewhere_leaves_cell() {
    let mut m = AgonMachine::new();
    m.poke(100, 0xAA);
    m.poke(101, 0xBB);
    m.poke(99, 0xCC);
    assert_eq!(m.peek(100), 0xAA);
}

#[test]
fn out_of_range_read_is_open_bus() {
    let m = AgonMachine::new();
    assert_eq!(m.peek(MEM_SIZE as u32), OPEN_BUS);
    assert_eq!(m.peek(0xFFFF_FFFF), OPEN_BUS);
}

#[test]
fn out_of_range_write_is_discarded() {
    let mut m = AgonMachine::new();
    m.poke(7, 0x42);
    m.poke(MEM_SIZE as u32, 0x99);
    m.poke(0xFFFF_FFFF, 0x99);
    assert_eq!(m.peek(7), 0x42);
    assert_eq!(m.peek(0), 0);
    assert_eq!(m.peek(MEM_SIZE as u32), OPEN_BUS);
}

use agon_bus::machine::AgonMachine;
use iz80::Cpu;
use iz80::Machine;

/// Adapter between the CPU engine and the bus. The engine puts the
/// accumulator on the high byte of the port address bus, as real silicon
/// does; the emulated peripherals decode only the low byte.
struct Harness {
    bus: AgonMachine,
}

impl Machine for Harness {
    fn peek(&mut self, address: u16) -> u8 {
        self.bus.peek(address as u32)
    }

    fn poke(&mut self, address: u16, value: u8) {
        self.bus.poke(address as u32, value);
    }

    fn port_in(&mut self, address: u16) -> u8 {
        self.bus.port_in(address & 0xFF)
    }

    fn port_out(&mut self, address: u16, value: u8) {
        self.bus.port_out(address & 0xFF, value);
    }
}

#[test]
fn out_instruction_reaches_outbound_queue() {
    let mut harness = Harness { bus: AgonMachine::new() };
    // Load-immediate 0x41 into the accumulator, then output it to the
    // transmit-data port.
    let image = vec![0x3E, 0x41, 0xD3, 0xC0];
    assert_eq!(harness.bus.load_image(&image), Ok(()));
    let mut cpu = Cpu::new();
    cpu.registers().set_pc(0);
    cpu.execute_instruction(&mut harness);
    cpu.execute_instruction(&mut harness);
    assert_eq!(harness.bus.receive_outbound(), Some(0x41));
    assert_eq!(harness.bus.receive_outbound(), None);
}

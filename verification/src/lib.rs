//! Bus and transport substrate of a two-processor retro computer.
//!
//! The crate models the main CPU's view of the machine: a flat ROM+RAM
//! address space, a 64K port register file with a few synthetic
//! (hardware-emulated) registers, and the unidirectional byte queues that
//! link the CPU to its display co-processor. Loading a firmware image and
//! the host-side event decoding are covered too; the CPU instruction
//! engine, rendering and real I/O live outside the crate.

use vstd::prelude::*;

pub mod host;
pub mod laws;
pub mod machine;
pub mod transport;

verus! {

/// Bytes of the firmware region at the bottom of the address space.
pub const ROM_SIZE: usize = 0x40000;

/// Bytes of general RAM above the firmware region.
pub const RAM_SIZE: usize = 0x80000;

/// Total addressable memory: firmware region plus RAM.
pub const MEM_SIZE: usize = ROM_SIZE + RAM_SIZE;

/// Number of port registers (one byte each).
pub const PORT_COUNT: usize = 65536;

/// Value a read outside the valid address range returns (open bus).
pub const OPEN_BUS: u8 = 0xFF;

/// Port of the UART0 clear-to-send status: reads as "ready" (zero).
pub const UART0_CTS_PORT: u16 = 0xA2;

/// Port of the UART0 line-status register: reads as "transmit empty".
pub const UART0_LSR_PORT: u16 = 0xC5;

/// Value the line-status register always reads: transmit buffer empty.
pub const LSR_TX_EMPTY: u8 = 0x40;

/// Port of the low byte of timer 0: reads as zero (no timer is modeled).
pub const TIMER0_LOW_PORT: u16 = 0x81;

/// Port of the high byte of timer 0: reads as zero.
pub const TIMER0_HIGH_PORT: u16 = 0x82;

/// Port of the UART0 transmit-holding register: a write sends the byte
/// to the co-processor over the outbound transport queue.
pub const UART0_THR_PORT: u16 = 0xC0;

} // verus!

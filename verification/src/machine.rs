//! The machine as the CPU engine sees it: memory, ports, and the
//! transport queues toward the display co-processor.

use vstd::prelude::*;

use crate::transport::Transport;
use crate::LSR_TX_EMPTY;
use crate::MEM_SIZE;
use crate::OPEN_BUS;
use crate::PORT_COUNT;
use crate::TIMER0_HIGH_PORT;
use crate::TIMER0_LOW_PORT;
use crate::UART0_CTS_PORT;
use crate::UART0_LSR_PORT;
use crate::UART0_THR_PORT;

verus! {

/// Why the machine could not be brought up.
#[derive(Clone, Copy, Debug, PartialEq, Eq, Structural)]
pub enum StartupError {
    /// The firmware image is strictly larger than `MEM_SIZE`.
    ImageTooLarge,
    /// The firmware image could not be read from storage.
    ImageUnreadable,
}

impl StartupError {
    /// Distinct non-zero process exit status for each startup failure.
    pub fn exit_code(&self) -> (code: i32)
        ensures
            code == (if *self is ImageTooLarge { 1int } else { 2int }),
    {
        match self {
            StartupError::ImageTooLarge => 1,
            StartupError::ImageUnreadable => 2,
        }
    }
}

/// Mathematical state of the machine: memory, port file and the two
/// transport directions as plain byte sequences.
#[verifier::ext_equal]
pub struct MachineView {
    pub mem: Seq<u8>,
    pub io: Seq<u8>,
    pub outbound: Seq<u8>,
    pub inbound: Seq<u8>,
}

impl MachineView {
    /// Both stores have their fixed hardware sizes.
    pub open spec fn wf(&self) -> bool {
        &&& self.mem.len() == MEM_SIZE
        &&& self.io.len() == PORT_COUNT
    }
}

/// What a memory read at `address` returns: the stored byte inside the
/// valid range, the open-bus constant outside it.
pub open spec fn spec_peek(m: MachineView, address: u32) -> u8 {
    if address < MEM_SIZE {
        m.mem[address as int]
    } else {
        OPEN_BUS
    }
}

/// What a memory write at `address` does: updates the cell inside the
/// valid range, is discarded outside it; nothing else changes.
pub open spec fn spec_poke(m: MachineView, address: u32, value: u8) -> MachineView {
    if address < MEM_SIZE {
        MachineView { mem: m.mem.update(address as int, value), ..m }
    } else {
        m
    }
}

/// The synthetic port registers: their reads never consult stored state.
pub open spec fn spec_is_synthetic(address: u16) -> bool {
    ||| address == UART0_CTS_PORT
    ||| address == UART0_LSR_PORT
    ||| address == TIMER0_LOW_PORT
    ||| address == TIMER0_HIGH_PORT
}

/// The hardware-emulated constant each synthetic register reads as.
pub open spec fn spec_synthetic_value(address: u16) -> u8 {
    if address == UART0_LSR_PORT {
        LSR_TX_EMPTY
    } else {
        0
    }
}

/// What a port read returns: the synthetic constant on a synthetic
/// register, else the stored byte (zero when never written).
pub open spec fn spec_port_in(m: MachineView, address: u16) -> u8 {
    if spec_is_synthetic(address) {
        spec_synthetic_value(address)
    } else {
        m.io[address as int]
    }
}

/// What a port write does: stores the byte; a write to the transmit
/// register additionally appends the byte to the outbound queue.
pub open spec fn spec_port_out(m: MachineView, address: u16, value: u8) -> MachineView {
    if address == UART0_THR_PORT {
        MachineView {
            io: m.io.update(address as int, value),
            outbound: m.outbound.push(value),
            ..m
        }
    } else {
        MachineView { io: m.io.update(address as int, value), ..m }
    }
}

/// A zero-filled byte vector of the asked length.
fn zero_vec(n: usize) -> (v: Vec<u8>)
    ensures
        v@.len() == n,
        forall|i: int| 0 <= i < n ==> v@[i] == 0u8,
{
    let mut v: Vec<u8> = Vec::new();
    let mut k: usize = 0;
    while k < n
        invariant
            k <= n,
            v@.len() == k,
            forall|i: int| 0 <= i < k ==> v@[i] == 0u8,
        decreases n - k,
    {
        v.push(0);
        k = k + 1;
    }
    v
}

/// The emulated machine's bus-visible state: the flat ROM+RAM store, the
/// port register file, and the two transport directions.
///
/// The outbound queue carries bytes toward the co-processor; its consumer
/// is whoever drains it with [`AgonMachine::receive_outbound`]. The
/// inbound queue (co-processor toward CPU) is deliberately inert: no port
/// read consults it and no data-ready status bit exists, matching the
/// modeled hardware, so bytes sent into it stay queued.
pub struct AgonMachine {
    mem: Vec<u8>,
    io: Vec<u8>,
    outbound: Transport,
    inbound: Transport,
}

impl View for AgonMachine {
    type V = MachineView;

    closed spec fn view(&self) -> MachineView {
        MachineView { mem: self.mem@, io: self.io@, outbound: self.outbound@, inbound: self.inbound@ }
    }
}

impl AgonMachine {
    /// The stores have their fixed hardware sizes.
    pub open spec fn wf(&self) -> bool {
        self@.wf()
    }

    /// Returns a new machine: memory and ports zero-filled, both
    /// transport queues empty.
    pub fn new() -> (m: AgonMachine)
        ensures
            m.wf(),
            forall|i: int| 0 <= i < MEM_SIZE ==> m@.mem[i] == 0u8,
            forall|i: int| 0 <= i < PORT_COUNT ==> m@.io[i] == 0u8,
            m@.outbound == Seq::<u8>::empty(),
            m@.inbound == Seq::<u8>::empty(),
    {
        AgonMachine {
            mem: zero_vec(MEM_SIZE),
            io: zero_vec(PORT_COUNT),
            outbound: Transport::new(),
            inbound: Transport::new(),
        }
    }

    /// Memory read. Out-of-range addresses read as the open-bus constant
    /// rather than faulting.
    pub fn peek(&self, address: u32) -> (value: u8)
        requires
            self.wf(),
        ensures
            value == spec_peek(self@, address),
    {
        if (address as usize) < MEM_SIZE {
            self.mem[address as usize]
        } else {
            OPEN_BUS
        }
    }

    /// Memory write. Out-of-range writes are silently discarded; no other
    /// cell, port or queue changes.
    pub fn poke(&mut self, address: u32, value: u8)
        requires
            old(self).wf(),
        ensures
            final(self).wf(),
            final(self)@ == spec_poke(old(self)@, address, value),
    {
        if (address as usize) < MEM_SIZE {
            self.mem[address as usize] = value;
        }
    }

    /// Port read: the fixed constant on a synthetic register, else the
    /// last value written to that port, zero when never written.
    pub fn port_in(&self, address: u16) -> (value: u8)
        requires
            self.wf(),
        ensures
            value == spec_port_in(self@, address),
    {
        if address == UART0_CTS_PORT {
            0
        } else if address == UART0_LSR_PORT {
            LSR_TX_EMPTY
        } else if address == TIMER0_LOW_PORT {
            0
        } else if address == TIMER0_HIGH_PORT {
            0
        } else {
            self.io[address as usize]
        }
    }

    /// Port write: stores the byte; a write to the transmit register also
    /// enqueues the byte on the outbound queue, one byte per write, in
    /// write order.
    pub fn port_out(&mut self, address: u16, value: u8)
        requires
            old(self).wf(),
        ensures
            final(self).wf(),
            final(self)@ == spec_port_out(old(self)@, address, value),
    {
        if address == UART0_THR_PORT {
            self.outbound.send(value);
        }
        self.io[address as usize] = value;
    }

    /// Copies a firmware image into memory starting at address zero.
    /// An image strictly larger than `MEM_SIZE` is rejected whole: the
    /// machine is left exactly as it was, no partial write happens.
    pub fn load_image(&mut self, image: &[u8]) -> (r: Result<(), StartupError>)
        requires
            old(self).wf(),
        ensures
            final(self).wf(),
            image@.len() > MEM_SIZE ==> r == Err::<(), StartupError>(StartupError::ImageTooLarge)
                && final(self)@ == old(self)@,
            image@.len() <= MEM_SIZE ==> {
                &&& r == Ok::<(), StartupError>(())
                &&& forall|i: int| 0 <= i < image@.len() ==> final(self)@.mem[i] == image@[i]
                &&& forall|i: int|
                    image@.len() <= i < MEM_SIZE ==> final(self)@.mem[i] == old(self)@.mem[i]
                &&& final(self)@.io == old(self)@.io
                &&& final(self)@.outbound == old(self)@.outbound
                &&& final(self)@.inbound == old(self)@.inbound
            },
    {
        if image.len() > MEM_SIZE {
            return Err(StartupError::ImageTooLarge);
        }
        let mut k: usize = 0;
        while k < image.len()
            invariant
                k <= image@.len() <= MEM_SIZE,
                self.wf(),
                forall|i: int| 0 <= i < k ==> self@.mem[i] == image@[i],
                forall|i: int| k <= i < MEM_SIZE ==> self@.mem[i] == old(self)@.mem[i],
                self@.io == old(self)@.io,
                self@.outbound == old(self)@.outbound,
                self@.inbound == old(self)@.inbound,
            decreases image@.len() - k,
        {
            self.mem[k] = image[k];
            k = k + 1;
        }
        Ok(())
    }

    /// Takes the oldest byte waiting toward the co-processor, if any;
    /// memory, ports and the inbound queue are untouched.
    pub fn receive_outbound(&mut self) -> (r: Option<u8>)
        ensures
            old(self)@.outbound.len() == 0 ==> r is None && final(self)@ == old(self)@,
            old(self)@.outbound.len() > 0 ==> r == Some(old(self)@.outbound[0])
                && final(self)@ == (MachineView { outbound: old(self)@.outbound.skip(1), ..old(self)@ }),
    {
        self.outbound.try_receive()
    }

    /// Number of bytes waiting toward the co-processor.
    pub fn outbound_len(&self) -> (n: usize)
        ensures
            n == self@.outbound.len(),
    {
        self.outbound.len()
    }

    /// Appends one byte on the queue toward the CPU. The receive path is
    /// deliberately inert (see the type's documentation): the byte is
    /// queued and nothing of the port file changes.
    pub fn send_inbound(&mut self, byte: u8)
        ensures
            final(self)@ == (MachineView { inbound: old(self)@.inbound.push(byte), ..old(self)@ }),
    {
        self.inbound.send(byte);
    }

    /// Number of bytes queued toward the CPU and never consumed.
    pub fn inbound_len(&self) -> (n: usize)
        ensures
            n == self@.inbound.len(),
    {
        self.inbound.len()
    }
}

} // verus!

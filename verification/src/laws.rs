//! The bus guarantees, stated and proved once over the machine model:
//! write/read round trips, containment of out-of-range accesses, the
//! synthetic-register and plain-port read rules, and the exact FIFO
//! content of the outbound transport under arbitrary interleavings.

use vstd::prelude::*;

use crate::machine::spec_is_synthetic;
use crate::machine::spec_peek;
use crate::machine::spec_poke;
use crate::machine::spec_port_in;
use crate::machine::spec_port_out;
use crate::machine::spec_synthetic_value;
use crate::machine::MachineView;
use crate::MEM_SIZE;
use crate::OPEN_BUS;
use crate::PORT_COUNT;
use crate::UART0_THR_PORT;

verus! {

/// Writing an in-range address and reading it back, with no intervening
/// write to that address, yields the written value: a write to any other
/// address leaves the read unchanged.
pub proof fn lemma_write_then_read(m: MachineView, address: u32, value: u8)
    requires
        m.wf(),
        address < MEM_SIZE,
    ensures
        spec_peek(spec_poke(m, address, value), address) == value,
        forall|other: u32, w: u8|
            other != address ==> spec_peek(spec_poke(m, other, w), address) == spec_peek(m, address),
{
}

/// An out-of-range read returns the open-bus constant, and an
/// out-of-range write changes nothing: every subsequent read, in range
/// or not, sees the machine as it was.
pub proof fn lemma_out_of_range_access(m: MachineView, address: u32, value: u8)
    requires
        m.wf(),
        address >= MEM_SIZE,
    ensures
        spec_peek(m, address) == OPEN_BUS,
        spec_poke(m, address, value) == m,
{
}

/// A synthetic register reads as its fixed constant, no matter what was
/// written to that same port before.
pub proof fn lemma_synthetic_port_fixed(m: MachineView, address: u16, value: u8)
    requires
        m.wf(),
        spec_is_synthetic(address),
    ensures
        spec_port_in(m, address) == spec_synthetic_value(address),
        spec_port_in(spec_port_out(m, address, value), address) == spec_synthetic_value(address),
{
}

/// A plain (non-synthetic) port reads zero while every port cell is still
/// zero, reads the last value written to it, and is not disturbed by a
/// write to any other port.
pub proof fn lemma_plain_port_reads(m: MachineView, address: u16, value: u8)
    requires
        m.wf(),
        !spec_is_synthetic(address),
    ensures
        (forall|i: int| 0 <= i < PORT_COUNT ==> m.io[i] == 0u8) ==> spec_port_in(m, address)
            == 0u8,
        spec_port_in(spec_port_out(m, address, value), address) == value,
        forall|other: u16, w: u8|
            other != address ==> spec_port_in(spec_port_out(m, other, w), address) == spec_port_in(
                m,
                address,
            ),
{
}

/// One mutating step the CPU engine can take against the bus. Reads
/// (memory or port) take the machine immutably and cannot move it, so a
/// sequence of these steps captures every interleaving that matters.
pub enum BusOp {
    /// A memory write: address and value.
    Poke(u32, u8),
    /// A port write: port address and value.
    PortOut(u16, u8),
}

/// The machine after one bus step.
pub open spec fn apply_op(m: MachineView, op: BusOp) -> MachineView {
    match op {
        BusOp::Poke(address, value) => spec_poke(m, address, value),
        BusOp::PortOut(address, value) => spec_port_out(m, address, value),
    }
}

/// The machine after a whole sequence of bus steps, first step first.
pub open spec fn apply_ops(m: MachineView, ops: Seq<BusOp>) -> MachineView
    decreases ops.len(),
{
    if ops.len() == 0 {
        m
    } else {
        apply_ops(apply_op(m, ops[0]), ops.skip(1))
    }
}

/// The bytes a sequence of bus steps sends to the co-processor: exactly
/// the values written to the transmit port, in step order.
pub open spec fn transmitted(ops: Seq<BusOp>) -> Seq<u8>
    decreases ops.len(),
{
    if ops.len() == 0 {
        Seq::<u8>::empty()
    } else {
        let rest = transmitted(ops.skip(1));
        match ops[0] {
            BusOp::PortOut(address, value) => if address == UART0_THR_PORT {
                seq![value] + rest
            } else {
                rest
            },
            BusOp::Poke(_, _) => rest,
        }
    }
}

/// FIFO law of the outbound transport: after any sequence of bus steps,
/// the outbound queue holds what it held before, followed by exactly the
/// bytes written to the transmit port, in write order — however the
/// transmit writes were interleaved with unrelated memory or port
/// operations.
pub proof fn lemma_transmit_order(m: MachineView, ops: Seq<BusOp>)
    ensures
        apply_ops(m, ops).outbound == m.outbound + transmitted(ops),
    decreases ops.len(),
{
    if ops.len() == 0 {
        assert(m.outbound + transmitted(ops) =~= m.outbound);
    } else {
        let m1 = apply_op(m, ops[0]);
        lemma_transmit_order(m1, ops.skip(1));
        match ops[0] {
            BusOp::PortOut(address, value) => {
                if address == UART0_THR_PORT {
                    assert(m1.outbound =~= m.outbound + seq![value]);
                    assert((m.outbound + seq![value]) + transmitted(ops.skip(1)) =~= m.outbound + (
                    seq![value] + transmitted(ops.skip(1))));
                }
            },
            BusOp::Poke(_, _) => {},
        }
    }
}

/// The step sequence that writes the given bytes to the transmit port,
/// one write per byte, in order.
pub open spec fn thr_writes(bytes: Seq<u8>) -> Seq<BusOp> {
    bytes.map_values(|b: u8| BusOp::PortOut(UART0_THR_PORT, b))
}

/// Writing bytes to the transmit port transmits exactly those bytes.
pub proof fn lemma_thr_writes_transmitted(bytes: Seq<u8>)
    ensures
        transmitted(thr_writes(bytes)) == bytes,
    decreases bytes.len(),
{
    if bytes.len() == 0 {
        assert(transmitted(thr_writes(bytes)) =~= bytes);
    } else {
        lemma_thr_writes_transmitted(bytes.skip(1));
        assert(thr_writes(bytes).skip(1) =~= thr_writes(bytes.skip(1)));
        assert(seq![bytes[0]] + bytes.skip(1) =~= bytes);
    }
}

/// Sending bytes `b1, …, bn` through the transmit port appends exactly
/// `[b1, …, bn]` to the outbound queue, in that order.
pub proof fn lemma_transmit_exact(m: MachineView, bytes: Seq<u8>)
    ensures
        apply_ops(m, thr_writes(bytes)).outbound == m.outbound + bytes,
{
    lemma_transmit_order(m, thr_writes(bytes));
    lemma_thr_writes_transmitted(bytes);
}

} // verus!

//! One direction of the serial-style link between the two processors.

use vstd::prelude::*;

verus! {

/// An ordered, unbounded queue of bytes with one producer and one
/// consumer. Bytes leave in exactly the order they entered (FIFO);
/// nothing relates two queues of opposite direction to each other.
pub struct Transport {
    queue: Vec<u8>,
}

impl View for Transport {
    type V = Seq<u8>;

    closed spec fn view(&self) -> Seq<u8> {
        self.queue@
    }
}

impl Transport {
    /// An empty queue.
    pub fn new() -> (t: Transport)
        ensures
            t@ == Seq::<u8>::empty(),
    {
        Transport { queue: Vec::new() }
    }

    /// Appends one byte at the back; never fails, never blocks.
    pub fn send(&mut self, byte: u8)
        ensures
            final(self)@ == old(self)@.push(byte),
    {
        self.queue.push(byte);
    }

    /// Takes the oldest byte, or returns `None` when the queue is empty.
    pub fn try_receive(&mut self) -> (r: Option<u8>)
        ensures
            old(self)@.len() == 0 ==> r is None && final(self)@ == old(self)@,
            old(self)@.len() > 0 ==> r == Some(old(self)@[0]) && final(self)@ == old(self)@.skip(1),
    {
        if self.queue.len() == 0 {
            None
        } else {
            let byte = self.queue.remove(0);
            Some(byte)
        }
    }

    /// Number of bytes waiting in the queue.
    pub fn len(&self) -> (n: usize)
        ensures
            n == self@.len(),
    {
        self.queue.len()
    }
}

} // verus!

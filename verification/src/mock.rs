//! An in-memory bus transport for exercising the driver.
//!
//! [`MockBus`] implements [`Bus`] by recording every transaction it is asked
//! to perform, and can be switched into a failing mode in which it still
//! records the attempt but reports [`MockBusError`], the way a real
//! transport surfaces a bus fault.

use vstd::prelude::*;

use crate::bus::Bus;

verus! {

/// The failure value [`MockBus`] reports while it is set to refuse writes.
#[derive(Clone, Copy, Debug, PartialEq, Eq, Structural)]
pub struct MockBusError;

/// A bus transport that keeps every attempted write in memory.
pub struct MockBus {
    writes: Vec<(u8, Vec<u8>)>,
    fail: bool,
}

impl MockBus {
    /// Creates a transport with an empty transaction log that accepts
    /// every write.
    pub fn new() -> (r: Self)
        ensures
            r.issued() == Seq::<(u8, Seq<u8>)>::empty(),
            r.ready(),
    {
        let r = MockBus { writes: Vec::new(), fail: false };
        proof {
            assert(r.issued() =~= Seq::<(u8, Seq<u8>)>::empty());
        }
        r
    }

    /// Switches the transport between accepting and refusing writes.
    /// A refused write is still recorded in the log.
    pub fn set_failing(&mut self, fail: bool)
        ensures
            final(self).issued() == old(self).issued(),
            final(self).ready() == !fail,
    {
        self.fail = fail;
    }

    /// Number of write transactions attempted so far.
    pub fn write_count(&self) -> (r: usize)
        ensures
            r == self.issued().len(),
    {
        self.writes.len()
    }

    /// Peer address of the `i`-th attempted transaction.
    pub fn write_address(&self, i: usize) -> (r: u8)
        requires
            i < self.issued().len(),
        ensures
            r == self.issued()[i as int].0,
    {
        self.writes[i].0
    }

    /// Payload length of the `i`-th attempted transaction.
    pub fn write_len(&self, i: usize) -> (r: usize)
        requires
            i < self.issued().len(),
        ensures
            r == self.issued()[i as int].1.len(),
    {
        self.writes[i].1.len()
    }

    /// Byte `j` of the payload of the `i`-th attempted transaction.
    pub fn write_byte(&self, i: usize, j: usize) -> (r: u8)
        requires
            i < self.issued().len(),
            j < self.issued()[i as int].1.len(),
        ensures
            r == self.issued()[i as int].1[j as int],
    {
        self.writes[i].1[j]
    }
}

impl Bus for MockBus {
    type Error = MockBusError;

    closed spec fn issued(&self) -> Seq<(u8, Seq<u8>)> {
        self.writes@.map_values(|w: (u8, Vec<u8>)| (w.0, w.1@))
    }

    closed spec fn ready(&self) -> bool {
        !self.fail
    }

    fn write(&mut self, address: u8, bytes: &[u8]) -> (r: Result<(), MockBusError>) {
        let payload = vstd::slice::slice_to_vec(bytes);
        self.writes.push((address, payload));
        proof {
            assert(self.issued() =~= old(self).issued().push((address, bytes@)));
        }
        if self.fail {
            Err(MockBusError)
        } else {
            Ok(())
        }
    }
}

} // verus!

//! The LED-controller driver proper.
//!
//! [`Tlc59208`] owns the bus transport, the chip's peer address, and the
//! eight-byte shadow of desired channel values. The setters mutate only the
//! shadow; [`Tlc59208::setup`], [`Tlc59208::off`] and [`Tlc59208::update`]
//! each put exactly one transaction on the wire, with the payloads stated in
//! [`crate::shadow`].

use vstd::prelude::*;

use crate::bus::Bus;
use crate::shadow::{
    all_off, aux_shadow, rgb_shadow, set_shadow, setup_payload, update_payload, AUTO_INCREMENT_REG,
    CONTROL_REG,
};

verus! {

/// Driver for the 8-channel PWM LED controller.
pub struct Tlc59208<B: Bus> {
    bus: B,
    address: u8,
    state: [u8; 8],
}

impl<B: Bus> Tlc59208<B> {
    /// The in-memory shadow of the eight desired channel values. It may
    /// diverge from the chip's registers until the next `update` or `off`.
    pub closed spec fn shadow(&self) -> Seq<u8> {
        self.state@
    }

    /// The chip's bus address, fixed at construction.
    pub closed spec fn addr(&self) -> u8 {
        self.address
    }

    /// The owned bus transport, for speaking about its transaction log.
    pub closed spec fn transport(&self) -> B {
        self.bus
    }

    /// Borrows the owned bus transport, for inspecting it (with
    /// [`crate::mock::MockBus`], its transaction log) without giving up
    /// the driver.
    pub fn bus_ref(&self) -> (r: &B)
        ensures
            r == self.transport(),
    {
        &self.bus
    }

    /// Creates a new driver that owns `bus` and talks to the peer at
    /// `address`, with all channels shadowed at zero.
    ///
    /// No bus transaction is issued, and with the current logic the call
    /// cannot fail; the fallible signature is kept so that callers are
    /// ready for validation being added here.
    pub fn new(bus: B, address: u8) -> (r: Result<Self, B::Error>)
        ensures
            r is Ok,
            r matches Ok(d) ==> d.shadow() == all_off() && d.addr() == address && d.transport()
                == bus,
    {
        let tlc59208 = Tlc59208 { bus, address, state: [0; 8] };
        proof {
            assert(tlc59208.state@ =~= all_off());
        }
        Ok(tlc59208)
    }

    /// Writes the fixed configuration payload in one transaction: register
    /// auto-increment on, default timing mode, all PWM registers zeroed,
    /// full group brightness, zero group blink period, individual
    /// PWM-controlled output mode for all channels, default sub-addresses
    /// and all-call address.
    ///
    /// The shadow is neither read nor changed. A transport failure is
    /// returned verbatim, with no retry.
    pub fn setup(&mut self) -> (r: Result<(), B::Error>)
        ensures
            final(self).shadow() == old(self).shadow(),
            final(self).addr() == old(self).addr(),
            final(self).transport().issued() == old(self).transport().issued().push(
                (old(self).addr(), setup_payload()),
            ),
            r is Ok <==> old(self).transport().ready(),
    {
        let data: [u8; 19] = [
            CONTROL_REG,
            0x81,
            0x03,
            0x00,
            0x00,
            0x00,
            0x00,
            0x00,
            0x00,
            0x00,
            0x00,
            0xFF,
            0x00,
            0xAA,
            0xAA,
            0x92,
            0x94,
            0x98,
            0xD0,
        ];
        proof {
            assert(data@ =~= setup_payload());
        }
        self.bus.write(self.address, &data)
    }

    /// Overwrites the shadow value of one channel; a channel index outside
    /// 0..=7 is silently ignored. No bus transaction is issued.
    pub fn set(&mut self, channel: u8, value: u8)
        ensures
            final(self).shadow() == set_shadow(old(self).shadow(), channel, value),
            final(self).addr() == old(self).addr(),
            final(self).transport() == old(self).transport(),
    {
        if channel < 8 {
            self.state[channel as usize] = value;
        }
    }

    /// Stores a color triple in one RGB group of the shadow, in
    /// device-wiring order: the group's first index takes blue, the second
    /// green, the third red. Group 1 is the block at indices 4..=6; any
    /// other group value selects the block at indices 0..=2. No bus
    /// transaction is issued.
    pub fn rgb(&mut self, group: u8, rgb: (u8, u8, u8))
        ensures
            final(self).shadow() == rgb_shadow(old(self).shadow(), group, rgb.0, rgb.1, rgb.2),
            final(self).addr() == old(self).addr(),
            final(self).transport() == old(self).transport(),
    {
        let (r, g, b) = rgb;
        let offset: usize = if group == 1 {
            4
        } else {
            0
        };
        self.state[offset] = b;
        self.state[offset + 1] = g;
        self.state[offset + 2] = r;
    }

    /// Overwrites the auxiliary shadow slot of one group: group 0 owns
    /// index 3, group 1 owns index 7, any other group value is a no-op.
    /// No bus transaction is issued.
    pub fn aux(&mut self, group: u8, value: u8)
        ensures
            final(self).shadow() == aux_shadow(old(self).shadow(), group, value),
            final(self).addr() == old(self).addr(),
            final(self).transport() == old(self).transport(),
    {
        if group == 0 {
            self.state[3] = value;
        } else if group == 1 {
            self.state[7] = value;
        }
    }

    /// Resets all eight shadow values to zero, then flushes them to the
    /// device exactly as [`Tlc59208::update`] does.
    ///
    /// The local reset is unconditional and precedes the fallible write: a
    /// failed `off` still leaves the in-memory shadow at all-zero even
    /// though the device may not reflect it.
    pub fn off(&mut self) -> (r: Result<(), B::Error>)
        ensures
            final(self).shadow() == all_off(),
            final(self).addr() == old(self).addr(),
            final(self).transport().issued() == old(self).transport().issued().push(
                (old(self).addr(), update_payload(all_off())),
            ),
            r is Ok <==> old(self).transport().ready(),
    {
        self.state = [0; 8];
        proof {
            assert(self.state@ =~= all_off());
        }
        self.update()
    }

    /// Flushes the shadow to the device in one transaction: the
    /// auto-increment PWM base register address followed by the eight
    /// shadow bytes verbatim, in index order.
    ///
    /// The shadow is left unchanged whether or not the transport accepts
    /// the write; a transport failure is returned verbatim, with no retry
    /// and no read-back.
    pub fn update(&mut self) -> (r: Result<(), B::Error>)
        ensures
            final(self).shadow() == old(self).shadow(),
            final(self).addr() == old(self).addr(),
            final(self).transport().issued() == old(self).transport().issued().push(
                (old(self).addr(), update_payload(old(self).shadow())),
            ),
            r is Ok <==> old(self).transport().ready(),
    {
        let mut payload: [u8; 9] = [0; 9];
        payload[0] = AUTO_INCREMENT_REG;
        let mut i: usize = 0;
        while i < 8
            invariant
                i <= 8,
                payload@.len() == 9,
                payload@[0] == AUTO_INCREMENT_REG,
                self == old(self),
                forall|j: int| 0 <= j < i ==> payload@[j + 1] == self.state@[j],
            decreases 8 - i,
        {
            payload[i + 1] = self.state[i];
            i += 1;
        }
        proof {
            assert(payload@ =~= update_payload(self.state@));
        }
        self.bus.write(self.address, &payload)
    }
}

} // verus!

//! The register-level port abstraction: three registers — direction,
//! output-state, and input-state — with one bit per pin, and the minimal
//! read-modify-write operations that change exactly one pin while preserving
//! every sibling bit.
//!
//! Raw hardware addresses are an opaque binding: the type stores them at
//! construction and never exposes them for arithmetic. The register contents
//! themselves live in an in-memory register file with the same masking
//! semantics as the hardware, wired as a loopback harness: a pin configured
//! as output is observed at the level it drives, while a pin configured as
//! input is observed at the externally driven line level.

use vstd::prelude::*;

use crate::bits::bit_set;
use crate::bits::lemma_with_bit_other;
use crate::bits::lemma_with_bit_same;
use crate::bits::with_bit;

pub mod portb;

verus! {

/// The mathematical model of a port: the three bound register addresses and
/// the three register contents.
pub ghost struct PortView {
    /// Address bound to the data-direction register.
    pub ddr_addr: u16,
    /// Address bound to the output-state register.
    pub port_addr: u16,
    /// Address bound to the input-state register.
    pub pin_addr: u16,
    /// Contents of the data-direction register: 1 = output, 0 = input.
    pub ddr: u8,
    /// Contents of the output-state register: the level driven on each pin
    /// whose direction bit is output.
    pub out: u8,
    /// The externally driven line level, observed on each pin whose
    /// direction bit is input.
    pub line: u8,
}

impl PortView {
    /// The contents of the read-only input-state register: each output pin
    /// is observed at its driven level, each input pin at the external line
    /// level.
    pub open spec fn input_reg(self) -> u8 {
        (self.out & self.ddr) | (self.line & !self.ddr)
    }

    /// The observed level of one pin: the driven level when its direction
    /// bit is output, the external line level when it is input.
    pub open spec fn level_of(self, pin: u8) -> bool {
        if bit_set(self.ddr, pin) {
            bit_set(self.out, pin)
        } else {
            bit_set(self.line, pin)
        }
    }
}

/// Represents one 8-bit port of the microcontroller: a data-direction
/// register, an output-state register and a read-only input-state register,
/// bound to three fixed, non-overlapping addresses for the lifetime of the
/// port.
///
/// Pin indices are in [0, 7]; the hardware leaves an out-of-range index
/// undefined (the shift silently wraps), so every pin operation requires a
/// pin index below 8.
pub struct Port {
    ddr_addr: u16,
    port_addr: u16,
    pin_addr: u16,
    ddr: u8,
    out: u8,
    line: u8,
}

impl View for Port {
    type V = PortView;

    closed spec fn view(&self) -> PortView {
        PortView {
            ddr_addr: self.ddr_addr,
            port_addr: self.port_addr,
            pin_addr: self.pin_addr,
            ddr: self.ddr,
            out: self.out,
            line: self.line,
        }
    }
}

impl Port {
    /// The port's invariant: the three register addresses refer to distinct,
    /// non-overlapping locations.
    pub open spec fn wf(self) -> bool {
        self@.ddr_addr != self@.port_addr && self@.ddr_addr != self@.pin_addr
            && self@.port_addr != self@.pin_addr
    }

    /// Creates a new Port instance bound to three register addresses.
    ///
    /// The caller must supply the addresses of distinct, non-overlapping
    /// register locations of the target chip; they are stored once and never
    /// reassigned. All registers start cleared, as after a chip reset.
    pub fn new(ddr_addr: u16, port_addr: u16, pin_addr: u16) -> (port: Self)
        requires
            ddr_addr != port_addr,
            ddr_addr != pin_addr,
            port_addr != pin_addr,
        ensures
            port.wf(),
            port@.ddr_addr == ddr_addr,
            port@.port_addr == port_addr,
            port@.pin_addr == pin_addr,
            port@.ddr == 0,
            port@.out == 0,
            port@.line == 0,
    {
        Port { ddr_addr, port_addr, pin_addr, ddr: 0, out: 0, line: 0 }
    }

    /// Sets the direction of a pin (input or output): reads the direction
    /// register, sets or clears exactly bit `pin`, and writes the result
    /// back. Every other bit of the register, and both other registers, are
    /// preserved bit-for-bit.
    pub fn set_pin_mode(&mut self, pin: u8, is_output: bool)
        requires
            pin < 8,
        ensures
            final(self)@.ddr == with_bit(old(self)@.ddr, pin, is_output),
            final(self)@.out == old(self)@.out,
            final(self)@.line == old(self)@.line,
            final(self)@.ddr_addr == old(self)@.ddr_addr,
            final(self)@.port_addr == old(self)@.port_addr,
            final(self)@.pin_addr == old(self)@.pin_addr,
            bit_set(final(self)@.ddr, pin) == is_output,
            forall|other: u8|
                other < 8 && other != pin ==> bit_set(final(self)@.ddr, other) == bit_set(
                    old(self)@.ddr,
                    other,
                ),
    {
        let current: u8 = self.ddr;
        let updated: u8 = if is_output {
            current | (1u8 << pin)
        } else {
            current & !(1u8 << pin)
        };
        self.ddr = updated;
        proof {
            lemma_with_bit_same(current, pin, is_output);
            assert forall|other: u8| other < 8 && other != pin implies bit_set(
                final(self)@.ddr,
                other,
            ) == bit_set(old(self)@.ddr, other) by {
                lemma_with_bit_other(current, pin, other, is_output);
            }
        }
    }

    /// Sets the output state of a pin (high or low) with the same
    /// read-modify-write discipline, applied to the output-state register.
    /// Only meaningful when the pin's direction bit is output; no runtime
    /// check is performed — on an input-configured pin the stored bit still
    /// changes but the observed level does not, matching the hardware.
    pub fn set_pin_state(&mut self, pin: u8, is_high: bool)
        requires
            pin < 8,
        ensures
            final(self)@.out == with_bit(old(self)@.out, pin, is_high),
            final(self)@.ddr == old(self)@.ddr,
            final(self)@.line == old(self)@.line,
            final(self)@.ddr_addr == old(self)@.ddr_addr,
            final(self)@.port_addr == old(self)@.port_addr,
            final(self)@.pin_addr == old(self)@.pin_addr,
            bit_set(final(self)@.out, pin) == is_high,
            forall|other: u8|
                other < 8 && other != pin ==> bit_set(final(self)@.out, other) == bit_set(
                    old(self)@.out,
                    other,
                ),
    {
        let current: u8 = self.out;
        let updated: u8 = if is_high {
            current | (1u8 << pin)
        } else {
            current & !(1u8 << pin)
        };
        self.out = updated;
        proof {
            lemma_with_bit_same(current, pin, is_high);
            assert forall|other: u8| other < 8 && other != pin implies bit_set(
                final(self)@.out,
                other,
            ) == bit_set(old(self)@.out, other) by {
                lemma_with_bit_other(current, pin, other, is_high);
            }
        }
    }

    /// Reads the observed input state of a pin: one read of the input-state
    /// register, no write. Valid regardless of the pin's configured
    /// direction — an output pin is observed at its driven level, an input
    /// pin at the externally driven line level.
    pub fn read_pin(&self, pin: u8) -> (high: bool)
        requires
            pin < 8,
        ensures
            high == self@.level_of(pin),
            high == bit_set(self@.input_reg(), pin),
    {
        let value: u8 = (self.out & self.ddr) | (self.line & !self.ddr);
        let high: bool = value & (1u8 << pin) != 0;
        proof {
            lemma_input_reg_level(self.ddr, self.out, self.line, pin);
        }
        high
    }

    /// Drives the external line of a pin high or low, as a loopback test
    /// harness does: the level is observed through `read_pin` on any pin
    /// whose direction bit is input. The three registers are unchanged.
    pub fn drive_line(&mut self, pin: u8, is_high: bool)
        requires
            pin < 8,
        ensures
            final(self)@.line == with_bit(old(self)@.line, pin, is_high),
            final(self)@.ddr == old(self)@.ddr,
            final(self)@.out == old(self)@.out,
            final(self)@.ddr_addr == old(self)@.ddr_addr,
            final(self)@.port_addr == old(self)@.port_addr,
            final(self)@.pin_addr == old(self)@.pin_addr,
    {
        let current: u8 = self.line;
        self.line = if is_high {
            current | (1u8 << pin)
        } else {
            current & !(1u8 << pin)
        };
    }

    /// The current contents of the data-direction register.
    pub fn direction_register(&self) -> (value: u8)
        ensures
            value == self@.ddr,
    {
        self.ddr
    }

    /// The current contents of the output-state register.
    pub fn output_register(&self) -> (value: u8)
        ensures
            value == self@.out,
    {
        self.out
    }

    /// The current contents of the read-only input-state register.
    pub fn input_register(&self) -> (value: u8)
        ensures
            value == self@.input_reg(),
    {
        (self.out & self.ddr) | (self.line & !self.ddr)
    }
}

/// Bit `pin` of the composed input-state register is the driven output level
/// where the direction bit is output, and the external line level where it
/// is input.
pub proof fn lemma_input_reg_level(ddr: u8, out: u8, line: u8, pin: u8)
    by (bit_vector)
    requires
        pin < 8,
    ensures
        bit_set((out & ddr) | (line & !ddr), pin) == if bit_set(ddr, pin) {
            bit_set(out, pin)
        } else {
            bit_set(line, pin)
        },
{
}

/// Round trip: after configuring a pin as output and driving it high, the
/// observed level of that pin is high; after then driving it low, the
/// observed level is low — whatever the external line holds.
pub proof fn lemma_round_trip(regs: PortView, pin: u8)
    requires
        pin < 8,
    ensures
        ({
            let ddr_out = with_bit(regs.ddr, pin, true);
            let driven_high = PortView { ddr: ddr_out, out: with_bit(regs.out, pin, true), ..regs };
            let driven_low = PortView {
                ddr: ddr_out,
                out: with_bit(driven_high.out, pin, false),
                ..regs
            };
            driven_high.level_of(pin) && !driven_low.level_of(pin)
        }),
{
    lemma_with_bit_same(regs.ddr, pin, true);
    lemma_with_bit_same(regs.out, pin, true);
    lemma_with_bit_same(with_bit(regs.out, pin, true), pin, false);
}

} // verus!

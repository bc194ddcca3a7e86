//! The concrete binding for port group B of the target chip: the three
//! chip-defined register addresses, and a constructor that binds them.

use vstd::prelude::*;

use crate::port::Port;

verus! {

/// Address of the data-direction register of port B.
pub const DDRB: u16 = 0x24;

/// Address of the output-state register of port B.
pub const PORTB: u16 = 0x25;

/// Address of the read-only input-state register of port B.
pub const PINB: u16 = 0x23;

/// Binds a fresh `Port` to the three fixed register addresses of port B,
/// with every register cleared as after a chip reset.
pub fn init() -> (port: Port)
    ensures
        port.wf(),
        port@.ddr_addr == DDRB,
        port@.port_addr == PORTB,
        port@.pin_addr == PINB,
        port@.ddr == 0,
        port@.out == 0,
        port@.line == 0,
{
    Port::new(DDRB, PORTB, PINB)
}

} // verus!

//! Register-level driver for the ACS37800 current/voltage/power sensor.
//!
//! The chip is reached over a two-wire addressable bus: every register
//! transaction selects a one-byte register address and then moves a 4-byte
//! payload (one status query moves a single byte).  This crate holds the
//! bit-exact register layouts with their encode/decode logic, the device
//! controller that sequences bus transactions and locks writes to the
//! protected configuration area, and a scripted bus for exercising the
//! controller without hardware.  Unit conversion into volts, amps and watts
//! uses floating point and is left to the caller.

use vstd::prelude::*;

pub mod registers;
pub mod bus;
pub mod driver;
pub mod sim;

verus! {

/// Reverse the order of the four bytes of a register payload.
///
/// Configuration register writes hand the device the payload most-significant
/// byte first, while the wire order elsewhere is least-significant first, so
/// write paths pass an encoded payload through this swap.
pub fn swap_bytes(input: [u8; 4]) -> (output: [u8; 4])
    ensures
        output@ == input@.reverse(),
{
    let output = [input[3], input[2], input[1], input[0]];
    proof {
        assert(output@ =~= input@.reverse());
    }
    output
}

} // verus!

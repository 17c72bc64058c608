//! What goes over the bus: the sensor's address, its register addresses and
//! the two frame formats.
//!
//! A configuration write is three bytes: the address of the configuration
//! register, the new value and a padding byte of zero. A register read writes
//! the one-byte register address and reads two bytes back, low byte first.
use vstd::prelude::*;

verus! {

/// The sensor's 7-bit bus address.
pub const DEVICE_ADDRESS: u8 = 0x10;

/// Address of the configuration register.
pub const CONFIG: u8 = 0x00;

/// Address of the UVA data register.
pub const UVA: u8 = 0x07;

/// Address of the UVB data register.
pub const UVB: u8 = 0x09;

/// Address of the first compensation data register.
pub const UVCOMP1: u8 = 0x0A;

/// Address of the second compensation data register.
pub const UVCOMP2: u8 = 0x0B;

/// Address of the device ID register.
pub const DEVICE_ID: u8 = 0x0C;

/// The bytes of a configuration write that sets the register to `value`.
pub open spec fn config_frame_bytes(value: u8) -> Seq<u8> {
    seq![CONFIG, value, 0u8]
}

/// Builds the frame of a configuration write that sets the register to
/// `value`.
pub fn config_frame(value: u8) -> (frame: [u8; 3])
    ensures
        frame@ == config_frame_bytes(value),
{
    let frame: [u8; 3] = [CONFIG, value, 0];
    assert(frame@ =~= seq![CONFIG, value, 0u8]);
    frame
}

/// The 16-bit value whose low byte is `low` and whose high byte is `high`.
pub open spec fn little_endian(low: u8, high: u8) -> u16 {
    (low as u16) | ((high as u16) << 8)
}

/// Decodes the two bytes that a register read returned: the first is the low
/// byte of the value, the second the high byte.
pub fn register_value(response: &[u8; 2]) -> (value: u16)
    ensures
        value == little_endian(response[0], response[1]),
        value == response[0] + 256 * response[1],
{
    let low: u16 = response[0] as u16;
    let high: u16 = response[1] as u16;
    let value: u16 = low | (high << 8);
    assert(value == low + 256 * high) by (bit_vector)
        requires
            value == low | (high << 8),
            low < 256,
            high < 256,
    ;
    value
}

/// Little-endian decoding loses nothing: the value is `low + 256 * high`, and
/// both bytes can be read back from it.
pub proof fn lemma_little_endian(low: u8, high: u8)
    ensures
        little_endian(low, high) == low + 256 * high,
        little_endian(low, high) & 0xff == low,
        little_endian(low, high) >> 8 == high,
{
    let l: u16 = low as u16;
    let h: u16 = high as u16;
    let v: u16 = l | (h << 8);
    assert(v == l + 256 * h && v & 0xff == l && v >> 8 == h) by (bit_vector)
        requires
            v == l | (h << 8),
            l < 256,
            h < 256,
    ;
}

} // verus!

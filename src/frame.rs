use vstd::prelude::*;

use crate::color::{Color, millivolts_of, color_for_voltage, raw_to_millivolts, voltage_to_color};
use crate::timing::PulseCode;

verus! {

/// Entries in one frame: 24 data bits and the delimiter.
pub const BUFFER_SIZE: usize = 25;

/// Data bits in one frame: 3 channels of 8 bits.
pub const DATA_BITS: usize = 24;

/// The entry that ends a frame: both phases low and of zero length.
pub open spec fn delimiter() -> PulseCode {
    PulseCode { level1: false, length1: 0, level2: false, length2: 0 }
}

/// The byte sent in position `k` of a frame: green, then red, then blue.
pub open spec fn channel_byte(color: Color, k: int) -> u8 {
    if k == 0 {
        color.g
    } else if k == 1 {
        color.r
    } else {
        color.b
    }
}

/// Bit `i` of `byte`, counting from the most significant (`i == 0`) down.
pub open spec fn msb_bit(byte: u8, i: int) -> bool {
    (byte >> ((7 - i) as u8)) & 1u8 == 1u8
}

/// The `j`-th bit on the wire for `color`.
pub open spec fn frame_bit(color: Color, j: int) -> bool {
    msb_bit(channel_byte(color, j / 8), j % 8)
}

/// Entry `j` of the frame for `color`, given the pulses for 0 and 1.
pub open spec fn frame_slot(color: Color, zero: PulseCode, one: PulseCode, j: int) -> PulseCode {
    if j < DATA_BITS {
        if frame_bit(color, j) {
            one
        } else {
            zero
        }
    } else {
        delimiter()
    }
}

/// Writes the frame for `color` into `rmt_buffer`: the 24 bits of green, red
/// and blue, each most significant bit first, as `pulses.1` for a 1 and
/// `pulses.0` for a 0, then the delimiter.
pub fn ws2812_encode(
    color: Color,
    pulses: (PulseCode, PulseCode),
    rmt_buffer: &mut [PulseCode; BUFFER_SIZE],
)
    ensures
        forall|j: int|
            0 <= j < BUFFER_SIZE ==> #[trigger] final(rmt_buffer)@[j] == frame_slot(
                color,
                pulses.0,
                pulses.1,
                j,
            ),
        forall|j: int|
            0 <= j < DATA_BITS ==> #[trigger] final(rmt_buffer)@[j] == pulses.0
                || final(rmt_buffer)@[j] == pulses.1,
        final(rmt_buffer)@[DATA_BITS as int] == delimiter(),
{
    let mut idx: usize = 0;
    while idx < DATA_BITS
        invariant
            0 <= idx <= DATA_BITS,
            rmt_buffer@.len() == BUFFER_SIZE,
            forall|j: int|
                0 <= j < idx ==> #[trigger] rmt_buffer@[j] == frame_slot(
                    color,
                    pulses.0,
                    pulses.1,
                    j,
                ),
        decreases DATA_BITS - idx,
    {
        let byte: u8 = if idx < 8 {
            color.g
        } else if idx < 16 {
            color.r
        } else {
            color.b
        };
        let bit: u8 = (idx % 8) as u8;
        let is_set = (byte >> (7 - bit)) & 1 == 1;
        assert(byte == channel_byte(color, idx as int / 8));
        assert(is_set == frame_bit(color, idx as int));
        rmt_buffer[idx] = if is_set {
            pulses.1
        } else {
            pulses.0
        };
        idx += 1;
    }
    rmt_buffer[DATA_BITS] = PulseCode { level1: false, length1: 0, level2: false, length2: 0 };
}

/// The computing part of one sensing cycle: turns a raw reading into
/// millivolts, maps that to a color, and writes the color's frame into
/// `rmt_buffer`. Returns the voltage and the color.
pub fn process_sample(
    raw: u16,
    pulses: (PulseCode, PulseCode),
    rmt_buffer: &mut [PulseCode; BUFFER_SIZE],
) -> (r: (u32, Color))
    ensures
        r.0 as int == millivolts_of(raw as int),
        r.1 == color_for_voltage(r.0 as int),
        forall|j: int|
            0 <= j < BUFFER_SIZE ==> #[trigger] final(rmt_buffer)@[j] == frame_slot(
                r.1,
                pulses.0,
                pulses.1,
                j,
            ),
{
    let voltage_mv = raw_to_millivolts(raw);
    let color = voltage_to_color(voltage_mv);
    ws2812_encode(color, pulses, rmt_buffer);
    (voltage_mv, color)
}

} // verus!

use vstd::prelude::*;

verus! {

/// Voltage (mV) at or below which the field reads as a strong north pole: pure red.
pub const MIN_VOLTAGE_MV: u32 = 500;

/// Voltage (mV) at or above which the field reads as a strong south pole: pure blue.
pub const MAX_VOLTAGE_MV: u32 = 2800;

/// Largest raw code of the 12-bit converter.
pub const ADC_MAX_CODE: u32 = 4095;

/// Voltage (mV) that the largest raw code stands for.
pub const ADC_FULL_SCALE_MV: u32 = 3300;

/// A color with 8 bits per channel.
#[derive(Clone, Copy, Debug, PartialEq, Eq, Structural)]
pub struct Color {
    pub r: u8,
    pub g: u8,
    pub b: u8,
}

impl Color {
    pub fn new(r: u8, g: u8, b: u8) -> (c: Color)
        ensures
            c.r == r,
            c.g == g,
            c.b == b,
    {
        Color { r, g, b }
    }
}

/// Millivolts that a raw converter reading stands for, truncated.
pub open spec fn millivolts_of(raw: int) -> int {
    (raw * ADC_FULL_SCALE_MV) / ADC_MAX_CODE as int
}

/// The voltage clamped into the calibrated range.
pub open spec fn clamp_mv(v: int) -> int {
    if v < MIN_VOLTAGE_MV {
        MIN_VOLTAGE_MV as int
    } else if v > MAX_VOLTAGE_MV {
        MAX_VOLTAGE_MV as int
    } else {
        v
    }
}

/// Red channel: `255 * (1 - t)` rounded half up, where
/// `t = (clamp(v) - 500) / (2800 - 500)`.
pub open spec fn red_for(v: int) -> int {
    let span = (MAX_VOLTAGE_MV - MIN_VOLTAGE_MV) as int;
    (2 * 255 * (MAX_VOLTAGE_MV - clamp_mv(v)) + span) / (2 * span)
}

/// Blue channel: `255 * t` rounded half up, with `t` as for red.
pub open spec fn blue_for(v: int) -> int {
    let span = (MAX_VOLTAGE_MV - MIN_VOLTAGE_MV) as int;
    (2 * 255 * (clamp_mv(v) - MIN_VOLTAGE_MV) + span) / (2 * span)
}

/// The color that a voltage maps to: red fading into blue across the calibrated range.
pub open spec fn color_for_voltage(v: int) -> Color {
    Color { r: red_for(v) as u8, g: 0, b: blue_for(v) as u8 }
}

proof fn lemma_channel_range(v: int)
    ensures
        0 <= red_for(v) <= 255,
        0 <= blue_for(v) <= 255,
        v <= MIN_VOLTAGE_MV ==> red_for(v) == 255 && blue_for(v) == 0,
        v >= MAX_VOLTAGE_MV ==> red_for(v) == 0 && blue_for(v) == 255,
{
    let c = clamp_mv(v);
    assert(500 <= c <= 2800);
    let nr = 510 * (2800 - c) + 2300;
    let nb = 510 * (c - 500) + 2300;
    assert(0 <= nr <= 510 * 2300 + 2300);
    assert(0 <= nb <= 510 * 2300 + 2300);
    assert(red_for(v) == nr / 4600);
    assert(blue_for(v) == nb / 4600);
    vstd::arithmetic::div_mod::lemma_div_is_ordered(nr, (510 * 2300 + 2300) as int, 4600);
    vstd::arithmetic::div_mod::lemma_div_is_ordered(nb, (510 * 2300 + 2300) as int, 4600);
    assert((510int * 2300 + 2300) / 4600 == 255);
    assert(2300int / 4600 == 0);
}

/// Converts a raw 12-bit converter reading into millivolts, truncated.
pub fn raw_to_millivolts(raw: u16) -> (r: u32)
    ensures
        r as int == millivolts_of(raw as int),
{
    (raw as u32 * ADC_FULL_SCALE_MV) / ADC_MAX_CODE
}

/// Maps a voltage onto a color: pure red at or below 500 mV, pure blue at or
/// above 2800 mV, and a linear blend (green always off) in between.
pub fn voltage_to_color(voltage_mv: u32) -> (c: Color)
    ensures
        c == color_for_voltage(voltage_mv as int),
        voltage_mv <= MIN_VOLTAGE_MV ==> c == (Color { r: 255, g: 0, b: 0 }),
        voltage_mv >= MAX_VOLTAGE_MV ==> c == (Color { r: 0, g: 0, b: 255 }),
{
    proof {
        lemma_channel_range(voltage_mv as int);
    }
    let v: u32 = if voltage_mv < MIN_VOLTAGE_MV {
        MIN_VOLTAGE_MV
    } else if voltage_mv > MAX_VOLTAGE_MV {
        MAX_VOLTAGE_MV
    } else {
        voltage_mv
    };
    let span: u32 = MAX_VOLTAGE_MV - MIN_VOLTAGE_MV;
    let r: u32 = (2 * 255 * (MAX_VOLTAGE_MV - v) + span) / (2 * span);
    let b: u32 = (2 * 255 * (v - MIN_VOLTAGE_MV) + span) / (2 * span);
    Color { r: r as u8, g: 0, b: b as u8 }
}

/// Across the calibrated range, a higher voltage never gives more red nor
/// less blue.
pub proof fn lemma_color_monotone(v1: int, v2: int)
    requires
        MIN_VOLTAGE_MV <= v1 < v2 <= MAX_VOLTAGE_MV,
    ensures
        color_for_voltage(v1).r >= color_for_voltage(v2).r,
        color_for_voltage(v1).b <= color_for_voltage(v2).b,
{
    lemma_channel_range(v1);
    lemma_channel_range(v2);
    vstd::arithmetic::div_mod::lemma_div_is_ordered(
        510 * (2800 - v2) + 2300,
        510 * (2800 - v1) + 2300,
        4600,
    );
    vstd::arithmetic::div_mod::lemma_div_is_ordered(
        510 * (v1 - 500) + 2300,
        510 * (v2 - 500) + 2300,
        4600,
    );
}

/// The mapping has no hidden state: the same voltage always gives the same color.
pub proof fn lemma_color_deterministic(v1: int, v2: int)
    requires
        v1 == v2,
    ensures
        color_for_voltage(v1) == color_for_voltage(v2),
{
}

} // verus!

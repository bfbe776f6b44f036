//! Drives one addressable RGB LED from a Hall-effect sensor: the pulse
//! timing of the LED's line protocol, the frame encoder, and the mapping from
//! a converter reading to a color.

pub mod color;
pub mod frame;
pub mod timing;

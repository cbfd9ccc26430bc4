//! Single-pixel driver for WS2812-class addressable LEDs: HSV to RGB
//! conversion and the encoding of a colour as a one-wire pulse train.

pub mod color;
pub mod pulse;

pub use color::{InvalidRange, Rgb};
pub use pulse::{encode, encode_word, pulse_ticks, BitTiming, EncodeError, Level, Pulse};

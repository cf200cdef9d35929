//! Driver logic for the WeAct 1.54-inch 200x200 four-color (black, white,
//! red, yellow) e-paper display.
//!
//! The library holds the packed framebuffer and the controller protocol.
//! Each hardware operation (`reset`, `init`, `power_on`, `power_off`,
//! `flush`) is a [`sequence::Procedure`]: a state machine that names the next
//! bus or pin action to perform and is told the outcome of each one. The
//! caller performs the actions on its SPI device, pins and delay source.
//!
//! ```text
//! new -> reset -> init -> power_on -> [draw] -> flush -> power_off
//! ```

/// Four-color pixel type (`WBRYColor`) and conversion helpers.
pub mod color;

/// Pixel access on the packed framebuffer.
pub mod display;

/// The display driver: framebuffer, peripherals, constants and error types.
pub mod driver;

/// Two-bit pixel packing within framebuffer bytes.
pub mod packing;

/// Controller command sequences and the state machine that runs them.
pub mod sequence;

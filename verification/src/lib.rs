//! Driver core for ST7735/ST7306-class TFT display controllers.
//!
//! The library is the addressing and command-sequencing layer of the driver:
//! the power/sleep state machine, the address-window mapping, the packed
//! monochrome framebuffer encoding, and the byte-oriented command protocol.
//! Every operation is pure: instead of touching hardware it returns the exact
//! sequence of bus operations ([`bus::BusOp`]) that the hardware glue must
//! perform, so the whole protocol layer can be verified.

pub mod bus;
pub mod color;
pub mod direct;
pub mod fps;
pub mod instruction;
pub mod orientation;
pub mod packed;
pub mod power;

pub use color::{Color565, PixelDraw};
pub use direct::ST7735;
pub use packed::ST7306;
pub use fps::{FpsConfig, HpmFps, LpmFps};
pub use instruction::Instruction;
pub use orientation::Orientation;
pub use power::PowerMode;

//! Pixel pipeline of a 16-bit console's picture processing unit, with the
//! cartridge loader and the front end decisions of the emulator around it.
//!
//! A pixel is composed from up to four tiled backgrounds and a layer of
//! sprites, masked by two windows, combined with a second screen or a fixed
//! colour by saturating colour math, and dimmed by a brightness level.
//! Every function carries a contract over a mathematical model of the
//! hardware: [`ppu::PpuView`] holds the registers, the three video memories
//! and the position of the beam, and the colour of a pixel is a function of
//! it and of the sprite cache of the line.
//!
//! * [`bits`]: single bits of registers, little-endian words
//! * [`color`]: the native colour format, colour math, brightness, the
//!   display format
//! * [`window`]: the window masks
//! * [`ppu`]: the unit's state and its model
//! * [`chr`]: tiles stored as bitplanes, decoding and encoding
//! * [`bg`]: background layers
//! * [`sprites`]: the sprite layer
//! * [`rendering`]: layer order, colour math, pixels and frames
//! * [`rom`]: cartridge images and their address maps
//! * [`frontend`]: events, actions and the keyboard as a controller

pub mod bg;
pub mod bits;
pub mod chr;
pub mod color;
pub mod frontend;
pub mod ppu;
pub mod rendering;
pub mod rom;
pub mod sprites;
pub mod window;

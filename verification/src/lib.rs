//! Driver library for a grid-style USB HID control surface: report decoding,
//! a bit-packed monochrome framebuffer, LED state tracking, and a small
//! retained-mode widget tree, all with verified contracts.

pub mod canvas;
pub mod colour;
pub mod controller;
pub mod decoder;
pub mod driver;
pub mod error;
pub mod events;
pub mod font;
pub mod leds;
pub mod list_panel;
pub mod pad;
pub mod surface;
pub mod tab_panel;
pub mod text_panel;
pub mod transport;

mod rng;

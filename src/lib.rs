//! A falling-coin demo for a small SPI display: push buttons drop coins into a
//! shared list, and a render pass turns the list into drawing commands.
//!
//! Everything that decides what is shown lives here and is verified; driving
//! the display, the buttons and the scheduler is left to the caller.

pub mod coin;
pub mod render;
pub mod store;

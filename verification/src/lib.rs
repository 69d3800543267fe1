//! Driver core for a six-colour 800x480 electrophoretic panel.
//!
//! The crate holds everything the driver decides or computes: the palette
//! and its nearest-colour quantiser, the framebuffer and its nibble packing,
//! the vendor command table, and the protocol engine that sequences reset,
//! initialisation and refresh.  The engine never touches hardware: it hands
//! out one [`bus::Action`] at a time and is told what came of it through a
//! [`bus::Event`].  Whoever owns the lines and the serial channel performs
//! the actions:
//!
//! ```text
//! let mut action = driver.show();
//! loop {
//!     let event = /* perform `action`; stop at Complete or Fail */;
//!     action = driver.step(event);
//! }
//! ```

use vstd::prelude::*;

pub mod bus;
pub mod command;
pub mod engine;
pub mod error;
pub mod gallery;
pub mod inky;
pub mod packing;
pub mod palette;
pub mod raster;
pub mod sequence;
pub mod sync;
pub mod transport;
pub mod watchdog;
pub mod wire;

verus! {

/// Width of the panel in pixels.
pub const WIDTH: usize = 800;

/// Height of the panel in pixels.
pub const HEIGHT: usize = 480;

/// Panel resolution as `(width, height)`.
pub const RESOLUTION: (i32, i32) = (800, 480);

} // verus!

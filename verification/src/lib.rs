//! On-board user LEDs over open-drain GPIO lines.
//!
//! The crate has two layers. [`gpio`] models the port's pins: four
//! statically distinct pin types, their transition into open-drain
//! output mode, and the downgrade that erases the static position into
//! one runtime-indexed handle. [`led`] owns four downgraded pins as a
//! fixed-order collection and exposes the per-LED operations `on`,
//! `off` and `toggle`, addressed by position or by color.

pub mod gpio;
pub mod led;

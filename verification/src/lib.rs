//! Viewport tracking for a text-editing surface.
//!
//! A [`controller::Controller`] keeps a rectangular window, the viewport,
//! over the text of a [`model::Model`] while the cursor moves and the
//! surface is resized.  It reports whether a movement scrolled the viewport
//! and which parts of the screen a resize has newly exposed.  The geometry
//! is that of [`region::Region`].

pub mod cells;
pub mod controller;
pub mod digits;
pub mod model;
pub mod movement;
pub mod region;
pub mod text;

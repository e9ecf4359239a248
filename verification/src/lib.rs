//! Core logic of a small interactive demo: a circle is moved across the
//! screen with the W/A/S/D keys, with triangular on-screen arrow buttons
//! that react to touches and mouse clicks, or with both at once.
//!
//! The library holds everything that can be stated and proved: the
//! point-in-triangle hit test for the arrow buttons, the fixed button
//! geometry, and the per-frame position update.  Screen coordinates are
//! fixed-point integers (see [`geometry::PIXEL`]), so every statement about
//! them is exact.  Windowing, rendering and raw input stay outside; each
//! frame they are condensed into an [`input::InputSnapshot`] and handed to
//! [`state::update`].

pub mod geometry;
pub mod input;
pub mod regions;
pub mod state;

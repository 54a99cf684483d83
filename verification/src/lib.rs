//! A retained-mode UI layout and rendering core.
//!
//! The crate maintains a tree of rectangular panels and elements described in
//! normalized coordinates, turns that tree into GPU-consumable vertex data at
//! deterministic byte offsets, resolves pointer input into UI events, and
//! positions text labels.
//!
//! All coordinates are exact fixed-point numbers so that every transform is
//! deterministic and drift-free: a normalized coordinate `x` stands for the
//! fraction `x / SCALE`, a panel device coordinate `v` for `v / (2 * SCALE)`
//! pixels, and a vertex device coordinate `v` for `v / (2 * SCALE * SCALE)`
//! pixels. The host converts these to floating point only at the GPU boundary.

pub mod color;
pub mod definitions;
pub mod geometry;
pub mod interface;
pub mod pack;
pub mod text;

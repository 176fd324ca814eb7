//! Layout, indexing and interaction logic of a grid-based visualizer.
//!
//! Everything here works on integers, booleans and plain collections: the
//! grid's marker arithmetic, the slot allocator used for instanced rendering,
//! focus and interaction state machines, and the small value types around them.
//! Pixel values, colors and other floating-point quantities live with the
//! embedding application, which converts at the edges.

pub mod button;
pub mod content_panel;
pub mod coord;
pub mod diagnostics;
pub mod engen;
pub mod focus;
pub mod grid;
pub mod icon;
pub mod images;
pub mod instance;
pub mod interaction;
pub mod job;
pub mod resource;
pub mod touch;

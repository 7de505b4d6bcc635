//! A minimal freehand drawing surface.
//!
//! The crate holds the stroke model shared by two front-ends: a native
//! windowed raster renderer and a web-embedded vector renderer. Strokes are
//! polylines accumulated from pointer samples; rendering replays them either
//! as a frame description for a raster canvas or as vector path data strings.

pub mod geometry;
pub mod native;
pub mod pad;
pub mod path_data;

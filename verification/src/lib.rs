//! Antialiased rasterisation of ellipses and rectangles, a content-addressed
//! cache of the rasterised shapes, and texture-grouped batching of the quads
//! that draw them.

pub mod batch;
pub mod cache;
pub mod pixels;
pub mod renderer;
pub mod shape;
pub mod trace;

//! A small path tracer's verified core: the frame buffer and its PPM encoding,
//! the scene query's choice of the nearest hit, the partition of an image into
//! per-pixel render tasks with their seeds, and the rule that bounds the
//! light-transport recursion.
pub mod image;
pub mod ppm;
pub mod render;
pub mod scene;
pub mod vector;

//! Renders a sky-gradient image by casting one ray per pixel through a
//! pinhole camera, and encodes it in the plain-text P3 pixel-map format.
//!
//! All geometry and colour arithmetic is exact: coordinates and colour
//! channels are ratios of integers, so every value the renderer writes is
//! pinned down by the contracts of the modules below.
pub mod camera;
pub mod color;
pub mod ppm;
pub mod render;
pub mod shade;
pub mod vector;

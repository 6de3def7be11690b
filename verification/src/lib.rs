//! Mesh generation for cubic voxel chunks, and the state of the program that
//! shows them.
//!
//! A chunk is a grid of cubes. The library builds the eight corner vertices of
//! every cube, the triangle indices that stitch them into faces, and the flat
//! little-endian byte buffers that a graphics device consumes. Beside the mesh
//! it keeps what the program around it decides by: the keys that are down, the
//! motion of the mouse, the time between frames and the tiles on the screen.
//!
//! Nothing in the library computes with floating-point numbers: coordinates
//! are whole numbers, and what the device reads as single-precision numbers is
//! written as their bit patterns.

pub mod byteops;
pub mod ext;
pub mod indices;
pub mod input;
pub mod scene;
pub mod single;
pub mod time;
pub mod vertex;
pub mod world;

//! A small voxel-diorama ray tracer with a verified core.
//!
//! The engine casts rays from a camera through a dense 3-D grid of typed
//! blocks, finds the first solid surface each ray crosses (including
//! partial-volume shapes such as slabs and stairs), and shades the hit with a
//! simplified physically-inspired lighting model plus a procedural sky.
//!
//! All geometry and shading runs on signed 16.16 fixed-point scalars (see
//! [`fixed`]), so every numeric step is exact integer arithmetic with proved
//! bounds. Window handling, texture decoding and the camera orbit live
//! outside the library; they hand plain values in and take packed colors out.

pub mod block;
pub mod fixed;
pub mod lighting;
pub mod material;
pub mod raycast;
pub mod sky;
pub mod texture;
pub mod uv;
pub mod vec3;
pub mod world;

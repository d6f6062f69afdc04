//! Verified core of a noise-image service: palettes, colour ordering,
//! image assembly, seed handling and the request rules.

pub mod palettes;
pub mod color;
pub mod canvas;
pub mod seed;
pub mod values;
pub mod blend;
pub mod render;

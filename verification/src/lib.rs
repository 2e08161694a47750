//! A retained-mode UI styling core: a clamped unit-interval scalar with an
//! exact fixed-point composition algebra, a styled-surface data model whose
//! opacity scales multiplicatively through every nested layer without
//! mutation, and the exact pixel-to-NDC rectangle mapping used when a
//! rendered offscreen layer is blitted into a destination target.

pub mod background;
pub mod blit;
pub mod border;
pub mod color;
pub mod geometry;
pub mod gradient;
pub mod percent;
pub mod shadow;
pub mod stroke;
pub mod surface;

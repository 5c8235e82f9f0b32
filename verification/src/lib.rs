//! A minimal real-time simulation core for a tile-based 2D scene:
//! a fixed-capacity entity store with bitmask-tagged components, a software
//! rasterizer drawing into a packed-pixel framebuffer, and a per-frame
//! update/render cycle with slide animation and a two-mode state machine.

pub mod appearance;
pub mod board;
pub mod circle;
pub mod colour;
pub mod constants;
pub mod framebuffer;
pub mod game;
pub mod input;
pub mod state;

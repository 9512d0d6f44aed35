//! The decisions of a small renderer that draws one textured cube: the mesh
//! and its buffer layout, the bookkeeping of the movement keys, and what to
//! do about each window event and each frame. The calls into the graphics
//! device are left to the caller, who is told what to perform.

use vstd::prelude::*;

pub mod camera;
pub mod controller;
pub mod dispatch;
pub mod event;
pub mod render;
pub mod state;
pub mod texture;
pub mod upload;
pub mod vertex;

//! A multi-pass renderer for lit, shadowed 3D scenes, as a verified frame
//! planner: from a scene it derives the exact sequence of GPU passes of one
//! frame, and proves the ordering, clear and depth-state rules of that sequence.
pub mod math;
pub mod structs;

pub mod pipeline;

pub mod three;

pub mod texture;
pub mod light_mapping;

pub mod view_renderer;
pub mod body_render;

pub mod err;
pub mod drawer;

pub mod depth;

pub mod res;
pub mod surface;

pub mod readback;

pub mod vision;
pub mod bytes;
pub mod binding;

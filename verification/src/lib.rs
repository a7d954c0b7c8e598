//! A verified voxel ray tracer core: fixed-point vector algebra, slab-method
//! ray/cube intersection, recursive Phong-style shading with reflection and
//! refraction, shadow and emissive lighting, an orbiting camera, and a
//! quality-tiered, data-parallel render pass.

pub mod fx;
pub mod vec3;
pub mod color;
pub mod material;
pub mod quality;
pub mod cube;
pub mod light;
pub mod textures;
pub mod par;
pub mod shade;
pub mod camera;
pub mod render;

//! Integer core of a distance-field renderer: colours and blending, surface
//! materials, the control of the sphere-march loop, and the compositing of
//! reflections along a chain of marches.

pub mod color;
pub mod material;
pub mod march;
pub mod shading;

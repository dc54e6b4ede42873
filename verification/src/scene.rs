//! The scene as the controller sees it: one camera transform it writes
//! a scale into, one quad bound to the SDF-circle material, and the
//! startup routine that builds both.

use vstd::prelude::*;

use crate::units::SCALE_ONE;

verus! {

/// Linear RGB color in fixed-point units: `SCALE_ONE` is full intensity.
#[derive(Clone, Copy, Debug, PartialEq, Eq, Structural)]
pub struct ColorRgb {
    pub red: u64,
    pub green: u64,
    pub blue: u64,
}

/// The GPU-bound parameters of the SDF-circle material: a color and an
/// optional explicit radius, absent where the shader infers the
/// silhouette from the quad bounds. Immutable after creation.
#[derive(Clone, Copy, Debug, PartialEq, Eq)]
pub struct MaterialDescriptor {
    pub color: ColorRgb,
    /// Circle radius in micro-units, where the variant of the shader
    /// that takes one is used.
    pub radius_micros: Option<u64>,
}

/// Builds a material descriptor. Construction cannot fail, and the
/// descriptor is never mutated afterwards: it holds exactly the values
/// it was given.
pub fn create_material(color: ColorRgb, radius_micros: Option<u64>) -> (m: MaterialDescriptor)
    ensures
        m.color == color,
        m.radius_micros == radius_micros,
{
    MaterialDescriptor { color, radius_micros }
}

/// The fixed reference to the fragment-shader program that consumes the
/// material's uniforms.
pub fn fragment_shader_path() -> (p: &'static str)
    ensures
        p@ == "shaders/sdf_circle.wgsl"@,
{
    "shaders/sdf_circle.wgsl"
}

/// The camera transform as the controller sees it: a position and a
/// uniform fixed-point scale. The controller only ever writes the scale.
#[derive(Clone, Copy, Debug, PartialEq, Eq, Structural)]
pub struct CameraState {
    pub pos_x_micros: i64,
    pub pos_y_micros: i64,
    /// Uniform scale factor of the camera's view, in fixed point.
    pub scale: u64,
}

/// The one quad entity: its center, its extent, and its material.
#[derive(Clone, Copy, Debug, PartialEq, Eq)]
pub struct QuadDescriptor {
    pub pos_x_micros: i64,
    pub pos_y_micros: i64,
    pub width_micros: u64,
    pub height_micros: u64,
    pub material: MaterialDescriptor,
}

/// The whole scene: exactly one camera and one shape, for the life of
/// the process. The controller never creates or destroys either; it
/// only mutates the camera's scale.
#[derive(Clone, Copy, Debug, PartialEq, Eq)]
pub struct Scene {
    pub camera: CameraState,
    pub quad: QuadDescriptor,
}

/// Builds the startup scene: one camera at the origin with scale 1.0,
/// and one 100 by 100 quad centered at (0, -50), bound to a yellow
/// SDF-circle material without an explicit radius.
pub fn setup() -> (s: Scene)
    ensures
        s.camera.pos_x_micros == 0,
        s.camera.pos_y_micros == 0,
        s.camera.scale == SCALE_ONE,
        s.quad.pos_x_micros == 0,
        s.quad.pos_y_micros == -50_000_000,
        s.quad.width_micros == 100_000_000,
        s.quad.height_micros == 100_000_000,
        s.quad.material.color == (ColorRgb { red: SCALE_ONE, green: SCALE_ONE, blue: 0 }),
        s.quad.material.radius_micros is None,
{
    let material = create_material(
        ColorRgb { red: SCALE_ONE, green: SCALE_ONE, blue: 0 },
        None,
    );
    Scene {
        camera: CameraState { pos_x_micros: 0, pos_y_micros: 0, scale: SCALE_ONE },
        quad: QuadDescriptor {
            pos_x_micros: 0,
            pos_y_micros: -50_000_000,
            width_micros: 100_000_000,
            height_micros: 100_000_000,
            material,
        },
    }
}

} // verus!

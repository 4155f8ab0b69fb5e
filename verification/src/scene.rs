//! The scene model the editor builds.
//!
//! Geometry and materials are held as plain values: positions and sizes
//! in fixed-point micro-units, colors as quantized 8-bit triples, and
//! each object holding the index of its material in the scene's flat
//! material table. The geometric evaluation of these values is the
//! external ray-tracing collaborator's concern.

use vstd::prelude::*;

use crate::color::DisplayPixel;

verus! {

/// A point or direction, three fixed-point components in micro-units.
#[derive(Clone, Copy, Debug, PartialEq, Eq, Structural)]
pub struct Vec3Fixed {
    pub x: i64,
    pub y: i64,
    pub z: i64,
}

/// The material kinds the editor offers.
#[derive(Clone, Copy, Debug, PartialEq, Eq, Structural)]
pub enum MaterialType {
    Lambertian,
    Metal,
    Dielectric,
    Normal,
}

impl MaterialType {
    /// The label each material kind is shown under.
    pub fn display_name(&self) -> (r: &'static str)
        ensures
            match self {
                MaterialType::Lambertian => r@ == "Diffuse"@,
                MaterialType::Metal => r@ == "Metal"@,
                MaterialType::Normal => r@ == "Debug"@,
                MaterialType::Dielectric => r@ == "Glass"@,
            },
    {
        match self {
            MaterialType::Lambertian => "Diffuse",
            MaterialType::Metal => "Metal",
            MaterialType::Normal => "Debug",
            MaterialType::Dielectric => "Glass",
        }
    }
}

/// A saved material: its kind with the values that kind needs. The
/// roughness and the index of refraction are fixed-point micro-units.
#[derive(Clone, Copy, Debug, PartialEq, Eq, Structural)]
pub enum SceneMaterial {
    Lambertian { albedo: DisplayPixel },
    Metal { albedo: DisplayPixel, roughness: i64 },
    Dielectric { ior: i64 },
    Normal,
}

/// A saved object: its geometry and the index of its material in the
/// scene's material table.
#[derive(Clone, Copy, Debug, PartialEq, Eq, Structural)]
pub enum SceneObject {
    Sphere { center: Vec3Fixed, radius: i64, material: usize },
    Plane { origin: Vec3Fixed, normal: Vec3Fixed, material: usize },
}

/// The sky kinds the editor offers.
#[derive(Clone, Copy, Debug, PartialEq, Eq, Structural)]
pub enum SkyType {
    Solid,
    Gradient,
}

/// The saved sky: one solid color, or a vertical gradient.
#[derive(Clone, Copy, Debug, PartialEq, Eq, Structural)]
pub enum SkyModel {
    Solid { color: DisplayPixel },
    Gradient { start: DisplayPixel, end: DisplayPixel },
}

} // verus!

//! The terminal/scattering split of the material model.
//!
//! A material either scatters an incoming ray onward (with a colour
//! attenuation) or ends the path in pure emission. Which of the two happens
//! is decided by the material's kind alone; the numeric scattering math
//! lives in the application around this crate.

use vstd::prelude::*;

verus! {

/// The kinds of material the renderer knows. Each material value of the
/// application carries one of these tags beside its numeric parameters.
#[derive(Clone, Copy, Debug, PartialEq, Eq, Structural)]
pub enum MaterialKind {
    /// Diffuse surface: scatters about the normal, tinted by a texture.
    Lambertian,
    /// Mirror with optional fuzz: scatters along the reflection.
    Metal,
    /// Clear medium with a refractive index: reflects or refracts.
    Dielectric,
    /// Light source: never scatters, only emits.
    DiffuseLight,
    /// Volume phase function: scatters in a uniformly random direction.
    Isotropic,
}

impl MaterialKind {
    /// Whether this kind of material scatters the incoming ray onward.
    /// Every kind does, except a diffuse light, which is terminal.
    pub fn scatters(self) -> (r: bool)
        ensures
            r == (self != MaterialKind::DiffuseLight),
    {
        match self {
            MaterialKind::DiffuseLight => false,
            _ => true,
        }
    }

    /// Whether this kind of material emits light of its own. Only a diffuse
    /// light does; every other kind emits black.
    pub fn emits(self) -> (r: bool)
        ensures
            r == (self == MaterialKind::DiffuseLight),
    {
        match self {
            MaterialKind::DiffuseLight => true,
            _ => false,
        }
    }
}

} // verus!

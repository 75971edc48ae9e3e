//! Traits that let generic geometry code work over any 2D/3D vector representation
//! and any floating-point scalar width, with the behaviour of every operation stated
//! as a contract over the scalar's own arithmetic.
//!
//! - [`scalar`]: the scalar capability, [`GenericScalar`].
//! - [`coords`]: named-axis access, [`HasXY`] and [`HasXYZ`].
//! - [`approx_eq`]: tolerance-based equality of whole vectors, [`Approx`].
//! - [`vector`]: the full vector algebra, [`GenericVector2`] and [`GenericVector3`].
//! - [`vectors`]: plain coordinate storage implementing all of them.
//! - [`laws`]: what holds of every implementation.
pub mod approx_eq;
pub mod coords;
pub mod laws;
pub mod scalar;
pub mod vector;
pub mod vectors;

pub use approx_eq::Approx;
pub use coords::{HasXY, HasXYZ};
pub use scalar::GenericScalar;
pub use vector::{GenericVector2, GenericVector3};
pub use vectors::{Vector2, Vector3};

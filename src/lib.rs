//! Reference-frame conversion of positions: frame-tagged position types and
//! the chains of elemental rotations that take a TEME position into ITRS.
//!
//! A rotation chain is a sequence of elemental rotations read as a matrix
//! product from left to right: the chain `[a, b, c]` stands for `a · b · c`,
//! so the last rotation is the first one applied to a column vector. Every
//! matrix is row-major, and an elemental rotation by a positive angle turns
//! the frame (vectors turn by the negated angle).

mod frame;
mod rotation;
mod transform;

pub use frame::{BCRS, GCRS, ICRS, ITRS, TEME};
pub use rotation::{compose, transposed, Angle, AngleSource, Axis, Rotation};
pub use transform::{
    earth_rotation, polar_motion, polar_motion_matrix, teme_to_itrs_matrix_rotations,
    teme_to_itrs_rotations, without_sources,
};

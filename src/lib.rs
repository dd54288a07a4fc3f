//! Posture classification for foldable devices: a hinge angle is mapped to
//! one of four usage postures.

pub mod angle;
pub mod posture;
pub mod commands;

pub use angle::Angle;
pub use posture::PostureType;
pub use commands::{read_hinge_angle, read_posture_type};

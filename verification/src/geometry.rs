//! Per-object derivative caches for the position vector and the orientation
//! quaternion.

pub mod quaternion;
pub mod vector;

//! A planar geometry kernel for particle simulations: points, displacement
//! vectors and recursive rectangular quadrant decomposition, over exact
//! fixed-point coordinates.

pub mod num;
pub mod point;
pub mod rect;
pub mod vector;

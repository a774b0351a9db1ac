//! Simulation and navigation core for a small solar-system flight demo.
//!
//! All geometry is carried in fixed-point integers: lengths in thousandths of
//! a world unit, angles in thousandths of a radian. The crate covers orbital
//! motion of the celestial bodies, nearest-waypoint selection, the
//! collision-avoidance reset of the observer's viewpoint, and the warp state
//! machine; a surrounding render loop supplies input and draws the result.

pub mod body;
pub mod math;
pub mod navigator;
pub mod trig;
pub mod warp;
pub mod waypoints;
pub mod world;

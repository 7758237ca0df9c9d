//! Camera controllers: each folds a frame's events into camera motion.

pub mod pan_zoom;
pub mod rotation;
pub mod zoom;
pub mod map_control;
pub mod bev_control;
pub mod follower_control;
pub mod fly_control;

//! Interactive camera control and depth-buffer picking on integer world
//! coordinates.
//!
//! Every length is a whole number of world units and every screen quantity a
//! whole number of physical pixels; the host chooses how fine a world unit is.
//! Quotients are taken once per formula and rounded toward zero, except that
//! a zoom by a factor above one rounds away from zero, so that every zoom
//! step moves. Each contract can thus name the exact integer that a call
//! produces.

pub mod app;
pub mod arith;
pub mod vector;
pub mod window;
pub mod camera;
pub mod control;
pub mod event;
pub mod io;
pub mod renderer;

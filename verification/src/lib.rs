//! Discrete decisions of the surface triangulation: which kinds of surface
//! get Steiner points and in what grid, which parameter samples seed the
//! closest-point search on an extrusion curve, and when that Newton search
//! stops.  The floating-point geometry that follows these decisions lives in
//! the application crate under app/.

pub mod kind;
pub mod newton;
pub mod sampling;
pub mod steiner;

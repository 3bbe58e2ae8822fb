//! Native display backends.
pub mod egl;
pub mod headless;

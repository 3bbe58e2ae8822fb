//! Context-creation configuration, and the decisions of the headless
//! (off-screen, EGL pbuffer) display backend.
pub mod conf;
pub mod native;

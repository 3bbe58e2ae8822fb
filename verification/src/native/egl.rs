//! The EGL attribute names and values that the headless backend hands to EGL
//! (values as the Khronos `EGL/egl.h` header defines them).
use vstd::prelude::*;

verus! {

pub const EGL_PBUFFER_BIT: i32 = 0x0001;
pub const EGL_ALPHA_SIZE: i32 = 0x3021;
pub const EGL_BLUE_SIZE: i32 = 0x3022;
pub const EGL_GREEN_SIZE: i32 = 0x3023;
pub const EGL_RED_SIZE: i32 = 0x3024;
pub const EGL_DEPTH_SIZE: i32 = 0x3025;
pub const EGL_STENCIL_SIZE: i32 = 0x3026;
pub const EGL_SURFACE_TYPE: i32 = 0x3033;
pub const EGL_NONE: i32 = 0x3038;
pub const EGL_HEIGHT: i32 = 0x3056;
pub const EGL_WIDTH: i32 = 0x3057;
pub const EGL_CONTEXT_CLIENT_VERSION: i32 = 0x3098;

} // verus!

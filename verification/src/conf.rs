//! Context creation configuration
//!
//! A [`Conf`] describes a hardware and platform specific setup, mostly video
//! display settings. Every `Default` here states, in its contract, each field
//! of the value that it builds.
//!
//! ## High DPI rendering
//!
//! `Conf::high_dpi` requests a full-resolution framebuffer on HighDPI
//! displays. It is `false` by default: the application then renders to a
//! lower-resolution framebuffer that the window system composer upscales.
use vstd::prelude::*;

verus! {

/// How an OpenGL context is obtained on X11.
#[derive(Debug)]
pub enum LinuxX11Gl {
    /// Use libGLX.so/libGLX.so.0 only; without libGLX, panic right away.
    GLXOnly,
    /// Use libEGL.so/libEGL.so.0 only; without libEGL, panic right away.
    EGLOnly,
    /// Use libGLX, and libEGL where libGLX is missing. The default option.
    GLXWithEGLFallback,
    /// Use libEGL, and libGLX where libEGL is missing.
    EGLWithGLXFallback,
}

/// Which display server protocol is used on Linux.
#[derive(Debug)]
pub enum LinuxBackend {
    X11Only,
    WaylandOnly,
    X11WithWaylandFallback,
    WaylandWithX11Fallback,
}

/// Rendering backend selection
#[derive(Debug, Clone, Copy, PartialEq, Eq, Structural)]
pub enum RenderingBackend {
    /// OpenGL backend (default)
    OpenGL,
    /// Vulkan backend (if available)
    Vulkan,
}

impl Default for RenderingBackend {
    /// OpenGL.
    fn default() -> (r: Self)
        ensures
            r == RenderingBackend::OpenGL,
    {
        RenderingBackend::OpenGL
    }
}

/// OpenGL version configuration for context creation
#[derive(Debug, Clone, Copy, PartialEq, Eq, Structural)]
pub struct GlVersion {
    /// Major version (e.g., 4 for OpenGL 4.6)
    pub major: u32,
    /// Minor version (e.g., 6 for OpenGL 4.6)
    pub minor: u32,
}

impl GlVersion {
    /// The version `major.minor`, as a value.
    pub open spec fn spec_version(major: u32, minor: u32) -> GlVersion {
        GlVersion { major, minor }
    }

    /// Create a new OpenGL version
    pub fn new(major: u32, minor: u32) -> (r: Self)
        ensures
            r == Self::spec_version(major, minor),
    {
        GlVersion { major, minor }
    }

    /// OpenGL 4.1 - maximum version supported on macOS
    pub fn gl_4_1() -> (r: Self)
        ensures
            r == Self::spec_version(4, 1),
    {
        GlVersion { major: 4, minor: 1 }
    }

    /// OpenGL 4.6 - maximum version on modern Windows/Linux
    pub fn gl_4_6() -> (r: Self)
        ensures
            r == Self::spec_version(4, 6),
    {
        GlVersion { major: 4, minor: 6 }
    }

    /// OpenGL 4.0 - modern features with wider hardware support
    pub fn gl_4_0() -> (r: Self)
        ensures
            r == Self::spec_version(4, 0),
    {
        GlVersion { major: 4, minor: 0 }
    }

    /// OpenGL 3.3 - widely supported minimum for modern features
    pub fn gl_3_3() -> (r: Self)
        ensures
            r == Self::spec_version(3, 3),
    {
        GlVersion { major: 3, minor: 3 }
    }

    /// OpenGL 3.2 - core profile, good compatibility
    pub fn gl_3_2() -> (r: Self)
        ensures
            r == Self::spec_version(3, 2),
    {
        GlVersion { major: 3, minor: 2 }
    }

    /// OpenGL 3.0 - older hardware support
    pub fn gl_3_0() -> (r: Self)
        ensures
            r == Self::spec_version(3, 0),
    {
        GlVersion { major: 3, minor: 0 }
    }

    /// OpenGL 2.1 - legacy version for very old hardware
    pub fn gl_2_1() -> (r: Self)
        ensures
            r == Self::spec_version(2, 1),
    {
        GlVersion { major: 2, minor: 1 }
    }
}

impl Default for GlVersion {
    /// OpenGL 4.1, the highest version that macOS supports, for
    /// cross-platform compatibility.
    fn default() -> (r: Self)
        ensures
            r == GlVersion::spec_version(4, 1),
    {
        GlVersion::gl_4_1()
    }
}

/// Platform specific settings.
#[derive(Debug)]
pub struct Platform {
    /// On X11 there are two ways to get an OpenGL context: libglx.so and
    /// libegl.so. Default: GLXWithEGLFallback.
    pub linux_x11_gl: LinuxX11Gl,
    /// Wayland or X11. Default: X11Only (the Wayland implementation is too
    /// unstable for now).
    pub linux_backend: LinuxBackend,
    /// A swap interval to ask the OS for, where the platform allows it: a
    /// hint for the GPU driver, not a way to limit FPS. Default: none.
    pub swap_interval: Option<i32>,
    /// Whether the framebuffer should have an alpha channel. Default: false.
    pub framebuffer_alpha: bool,
    /// Multisample anti-aliasing configuration
    pub multisample_antialiasing: MultisampleConfig,
    /// Rendering backend selection. Default: OpenGL.
    pub rendering_backend: RenderingBackend,
    /// Desired OpenGL version. Default: 4.1 (the highest version that macOS
    /// supports, widely available on Windows/Linux).
    pub opengl_version: GlVersion,
}

/// Multisample anti-aliasing configuration
#[derive(Debug, Copy, Clone)]
pub struct MultisampleConfig {
    pub sample_count: i32,
    pub enabled: bool,
}

impl Default for MultisampleConfig {
    /// One sample, disabled.
    fn default() -> (r: MultisampleConfig)
        ensures
            r.sample_count == 1,
            !r.enabled,
    {
        MultisampleConfig { sample_count: 1, enabled: false }
    }
}

impl Platform {
    /// The default platform settings, field by field.
    pub open spec fn is_default(self) -> bool {
        &&& self.linux_x11_gl == LinuxX11Gl::GLXWithEGLFallback
        &&& self.linux_backend == LinuxBackend::X11Only
        &&& self.swap_interval is None
        &&& !self.framebuffer_alpha
        &&& self.multisample_antialiasing.sample_count == 1
        &&& !self.multisample_antialiasing.enabled
        &&& self.rendering_backend == RenderingBackend::OpenGL
        &&& self.opengl_version == GlVersion::spec_version(4, 1)
    }
}

impl Default for Platform {
    fn default() -> (r: Platform)
        ensures
            r.is_default(),
    {
        Platform {
            linux_x11_gl: LinuxX11Gl::GLXWithEGLFallback,
            swap_interval: None,
            linux_backend: LinuxBackend::X11Only,
            framebuffer_alpha: false,
            rendering_backend: RenderingBackend::OpenGL,
            multisample_antialiasing: MultisampleConfig::default(),
            opengl_version: GlVersion::default(),
        }
    }
}

/// Icon image in three levels of detail.
///
/// Printing its pixel data is not meaningful, so it has no `Debug` here;
/// `app/` gives the debug form, which names the type alone.
#[derive(Clone)]
pub struct Icon {
    /// 16 * 16 image of RGBA pixels (each 4 * u8) in row-major order.
    pub small: [u8; 1024],
    /// 32 x 32 image of RGBA pixels (each 4 * u8) in row-major order.
    pub medium: [u8; 4096],
    /// 64 x 64 image of RGBA pixels (each 4 * u8) in row-major order.
    pub big: [u8; 16384],
}

impl Icon {
    /// An icon made of the three given images.
    pub fn new(small: [u8; 1024], medium: [u8; 4096], big: [u8; 16384]) -> (r: Icon)
        ensures
            r.small == small,
            r.medium == medium,
            r.big == big,
    {
        Icon { small, medium, big }
    }

    /// The built-in window icon. The logo's pixel data is not among this
    /// library's sources, so the value is only named here: contracts can say
    /// that an icon is the built-in one, and nothing of its pixels.
    pub closed spec fn builtin() -> Icon {
        Icon {
            small: vstd::array::spec_array_fill_for_copy_type::<u8, 1024>(0u8),
            medium: vstd::array::spec_array_fill_for_copy_type::<u8, 4096>(0u8),
            big: vstd::array::spec_array_fill_for_copy_type::<u8, 16384>(0u8),
        }
    }

    /// The library's built-in window icon ([`Icon::builtin`]), in its three
    /// sizes. An application that wants a particular picture builds it with
    /// [`Icon::new`].
    pub fn miniquad_logo() -> (r: Icon)
        ensures
            r == Icon::builtin(),
            r.small@.len() == 16 * 16 * 4,
            r.medium@.len() == 32 * 32 * 4,
            r.big@.len() == 64 * 64 * 4,
    {
        Icon { small: [0u8; 1024], medium: [0u8; 4096], big: [0u8; 16384] }
    }
}

/// Configuration of a window or, with `headless`, of an off-screen context.
///
/// It holds an [`Icon`], which has no `Debug` here; `app/` gives the debug
/// form.
pub struct Conf {
    /// Title of the window, defaults to an empty string.
    pub window_title: String,
    /// The preferred width of the window, ignored on wasm/android.
    ///
    /// Default: 800
    pub window_width: i32,
    /// The preferred height of the window, ignored on wasm/android.
    ///
    /// Default: 600
    pub window_height: i32,
    /// Whether the rendering canvas is full-resolution on HighDPI displays.
    ///
    /// Default: false
    pub high_dpi: bool,
    /// Whether the window should be created in fullscreen mode, ignored on wasm/android.
    ///
    /// Default: false
    pub fullscreen: bool,
    /// MSAA sample count
    ///
    /// Default: 1
    pub sample_count: i32,
    /// Determines if the application user can resize the window.
    ///
    /// Default: true
    pub window_resizable: bool,
    /// The window icon, used as the taskbar and titlebar icon on Windows.
    ///
    /// Default: the built-in icon ([`Icon::miniquad_logo`]).
    pub icon: Option<Icon>,
    /// Platform specific settings. Hints to OS for context creation,
    /// driver-specific settings etc.
    pub platform: Platform,
    /// Whether to render off-screen, with no window. Default: false.
    pub headless: bool,
}

impl Conf {
    /// The default configuration, field by field.
    pub open spec fn is_default(self) -> bool {
        &&& self.window_title@ == Seq::<char>::empty()
        &&& self.window_width == 800
        &&& self.window_height == 600
        &&& !self.high_dpi
        &&& !self.fullscreen
        &&& self.sample_count == 1
        &&& self.window_resizable
        &&& self.icon == Some(Icon::builtin())
        &&& self.platform.is_default()
        &&& !self.headless
    }
}

impl Default for Conf {
    fn default() -> (r: Conf)
        ensures
            r.is_default(),
    {
        Conf {
            window_title: String::new(),
            window_width: 800,
            window_height: 600,
            high_dpi: false,
            fullscreen: false,
            sample_count: 1,
            window_resizable: true,
            icon: Some(Icon::miniquad_logo()),
            platform: Platform::default(),
            headless: false,
        }
    }
}

/// A version value carries exactly the numbers it was made from.
pub proof fn lemma_version_numbers(major: u32, minor: u32)
    ensures
        GlVersion::spec_version(major, minor).major == major,
        GlVersion::spec_version(major, minor).minor == minor,
{
}

/// The default configuration, field by field: an untitled, resizable,
/// windowed 800x600 configuration without high-DPI rendering, with one MSAA
/// sample, the built-in icon, and the default platform settings, which are
/// GLX with EGL fallback, X11 only, no swap interval, no framebuffer alpha,
/// one disabled multisample, the OpenGL backend and OpenGL 4.1.
pub proof fn lemma_default_conf_fields(c: Conf, p: Platform)
    requires
        c.is_default(),
        p.is_default(),
    ensures
        c.window_title@.len() == 0,
        c.window_width == 800,
        c.window_height == 600,
        !c.high_dpi,
        !c.fullscreen,
        c.sample_count == 1,
        c.window_resizable,
        !c.headless,
        c.icon == Some(Icon::builtin()),
        c.platform.linux_x11_gl == p.linux_x11_gl,
        c.platform.linux_backend == p.linux_backend,
        c.platform.swap_interval == p.swap_interval,
        c.platform.framebuffer_alpha == p.framebuffer_alpha,
        c.platform.multisample_antialiasing.sample_count == p.multisample_antialiasing.sample_count,
        c.platform.multisample_antialiasing.enabled == p.multisample_antialiasing.enabled,
        c.platform.rendering_backend == p.rendering_backend,
        c.platform.opengl_version == p.opengl_version,
        p.linux_x11_gl == LinuxX11Gl::GLXWithEGLFallback,
        p.linux_backend == LinuxBackend::X11Only,
        p.swap_interval == None::<i32>,
        !p.framebuffer_alpha,
        p.multisample_antialiasing.sample_count == 1,
        !p.multisample_antialiasing.enabled,
        p.rendering_backend == RenderingBackend::OpenGL,
        p.opengl_version.major == 4,
        p.opengl_version.minor == 1,
{
}

} // verus!

use miniquad::conf::{Conf, GlVersion, Icon, LinuxBackend, LinuxX11Gl, MultisampleConfig, Platform, RenderingBackend};

#[test]
fn gl_version_new_keeps_both_numbers() {
    let v = GlVersion::new(3, 7);
    assert_eq!(v.major, 3);
    assert_eq!(v.minor, 7);
}

#[test]
fn gl_version_presets() {
    assert_eq!(GlVersion::gl_4_6(), GlVersion { major: 4, minor: 6 });
    assert_eq!(GlVersion::gl_4_1(), GlVersion { major: 4, minor: 1 });
    assert_eq!(GlVersion::gl_4_0(), GlVersion { major: 4, minor: 0 });
    assert_eq!(GlVersion::gl_3_3(), GlVersion { major: 3, minor: 3 });
    assert_eq!(GlVersion::gl_3_2(), GlVersion { major: 3, minor: 2 });
    assert_eq!(GlVersion::gl_3_0(), GlVersion { major: 3, minor: 0 });
    assert_eq!(GlVersion::gl_2_1(), GlVersion { major: 2, minor: 1 });
}

#[test]
fn gl_version_default_is_4_1() {
    assert_eq!(GlVersion::default(), GlVersion::gl_4_1());
    assert_eq!(GlVersion::default(), GlVersion::new(4, 1));
}

#[test]
fn rendering_backend_default_is_opengl() {
    assert_eq!(RenderingBackend::default(), RenderingBackend::OpenGL);
    assert_ne!(RenderingBackend::default(), RenderingBackend::Vulkan);
}

#[test]
fn multisample_default_is_one_sample_disabled() {
    let m = MultisampleConfig::default();
    assert_eq!(m.sample_count, 1);
    assert!(!m.enabled);
}

#[test]
fn platform_default_fields() {
    let p = Platform::default();
    assert!(matches!(p.linux_x11_gl, LinuxX11Gl::GLXWithEGLFallback));
    assert!(matches!(p.linux_backend, LinuxBackend::X11Only));
    assert_eq!(p.swap_interval, None);
    assert!(!p.framebuffer_alpha);
    assert_eq!(p.multisample_antialiasing.sample_count, 1);
    assert!(!p.multisample_antialiasing.enabled);
    assert_eq!(p.rendering_backend, RenderingBackend::OpenGL);
    assert_eq!(p.opengl_version, GlVersion { major: 4, minor: 1 });
}

#[test]
fn conf_default_fields() {
    let c = Conf::default();
    assert_eq!(c.window_title, "");
    assert_eq!(c.window_width, 800);
    assert_eq!(c.window_height, 600);
    assert!(!c.high_dpi);
    assert!(!c.fullscreen);
    assert_eq!(c.sample_count, 1);
    assert!(c.window_resizable);
    assert!(c.icon.is_some());
    assert!(!c.headless);
    assert_eq!(c.platform.opengl_version, GlVersion::default());
    assert_eq!(c.platform.rendering_backend, RenderingBackend::OpenGL);
}

#[test]
fn builtin_icon_sizes() {
    let icon = Icon::miniquad_logo();
    assert_eq!(icon.small.len(), 16 * 16 * 4);
    assert_eq!(icon.medium.len(), 32 * 32 * 4);
    assert_eq!(icon.big.len(), 64 * 64 * 4);
    let c = Conf::default();
    let default_icon = c.icon.unwrap();
    assert_eq!(default_icon.big.len(), 64 * 64 * 4);
}

#[test]
fn icon_new_keeps_images() {
    let mut small = [0u8; 1024];
    small[3] = 255;
    let mut medium = [1u8; 4096];
    medium[4095] = 7;
    let big = [9u8; 16384];
    let icon = Icon::new(small, medium, big);
    assert_eq!(icon.small[3], 255);
    assert_eq!(icon.small[0], 0);
    assert_eq!(icon.medium[4095], 7);
    assert_eq!(icon.medium[0], 1);
    assert!(icon.big.iter().all(|b| *b == 9));
}

#[test]
fn default_icon_is_the_builtin_icon() {
    let c = Conf::default();
    let default_icon = c.icon.unwrap();
    let logo = Icon::miniquad_logo();
    assert_eq!(default_icon.small, logo.small);
    assert_eq!(default_icon.medium, logo.medium);
    assert_eq!(default_icon.big, logo.big);
}

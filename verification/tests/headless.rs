use miniquad::conf::Conf;
use miniquad::native::egl::{
    EGL_ALPHA_SIZE, EGL_BLUE_SIZE, EGL_CONTEXT_CLIENT_VERSION, EGL_DEPTH_SIZE, EGL_GREEN_SIZE,
    EGL_HEIGHT, EGL_NONE, EGL_PBUFFER_BIT, EGL_RED_SIZE, EGL_STENCIL_SIZE, EGL_SURFACE_TYPE,
    EGL_WIDTH,
};
use miniquad::native::headless::{
    chosen_config, config_attributes_for, config_capacity, initialization_error_text,
    surface_attributes_for, teardown_calls, TeardownCall, context_attributes, first_setup_step, pbuffer_config_attributes, pbuffer_surface_attributes,
    setup_progress, HeadlessDisplay, LoopAction, LoopEvent, NativeDisplayData, SetupError,
    SetupReport, SetupStep,
};

fn display(width: i32, height: i32) -> HeadlessDisplay {
    let mut conf = Conf::default();
    conf.window_width = width;
    conf.window_height = height;
    HeadlessDisplay::new(&conf)
}

#[test]
fn egl_constant_values() {
    assert_eq!(EGL_PBUFFER_BIT, 0x0001);
    assert_eq!(EGL_ALPHA_SIZE, 0x3021);
    assert_eq!(EGL_SURFACE_TYPE, 0x3033);
    assert_eq!(EGL_NONE, 0x3038);
    assert_eq!(EGL_WIDTH, 0x3057);
    assert_eq!(EGL_HEIGHT, 0x3056);
    assert_eq!(EGL_CONTEXT_CLIENT_VERSION, 0x3098);
}

#[test]
fn config_attributes_with_alpha() {
    let v = pbuffer_config_attributes(true);
    assert_eq!(
        v,
        vec![
            EGL_SURFACE_TYPE, EGL_PBUFFER_BIT, EGL_RED_SIZE, 8, EGL_GREEN_SIZE, 8, EGL_BLUE_SIZE, 8,
            EGL_ALPHA_SIZE, 8, EGL_DEPTH_SIZE, 16, EGL_STENCIL_SIZE, 0, EGL_NONE,
        ]
    );
}

#[test]
fn config_attributes_without_alpha() {
    let v = pbuffer_config_attributes(false);
    assert_eq!(v.len(), 15);
    assert_eq!(v[8], EGL_ALPHA_SIZE);
    assert_eq!(v[9], 0);
    assert_eq!(v[14], EGL_NONE);
}

#[test]
fn surface_and_context_attributes() {
    assert_eq!(pbuffer_surface_attributes(800, 600), [EGL_WIDTH, 800, EGL_HEIGHT, 600, EGL_NONE]);
    assert_eq!(pbuffer_surface_attributes(-5, 7), [EGL_WIDTH, -5, EGL_HEIGHT, 7, EGL_NONE]);
    assert_eq!(context_attributes(), [EGL_CONTEXT_CLIENT_VERSION, 2, EGL_NONE]);
}

#[test]
fn setup_all_steps_succeed_in_order() {
    assert_eq!(first_setup_step(), SetupStep::GetDisplay);
    assert_eq!(setup_progress(SetupReport::Display { null: false }), Ok(Some(SetupStep::Initialize)));
    assert_eq!(setup_progress(SetupReport::Initialize { status: 1 }), Ok(Some(SetupStep::ChooseConfig)));
    assert_eq!(
        setup_progress(SetupReport::ChooseConfig { status: 1, num_configs: 3 }),
        Ok(Some(SetupStep::CreatePbufferSurface))
    );
    assert_eq!(setup_progress(SetupReport::PbufferSurface { null: false }), Ok(Some(SetupStep::CreateContext)));
    assert_eq!(setup_progress(SetupReport::Context { null: false }), Ok(Some(SetupStep::MakeCurrent)));
    assert_eq!(setup_progress(SetupReport::MakeCurrent { status: 1 }), Ok(None));
}

#[test]
fn setup_errors_and_messages() {
    let cases = [
        (SetupReport::Display { null: true }, SetupError::GetDisplayFailed, "eglGetDisplay failed"),
        (SetupReport::Initialize { status: 0 }, SetupError::InitializeFailed, "eglInitialize failed"),
        (
            SetupReport::ChooseConfig { status: 0, num_configs: 4 },
            SetupError::ChooseConfigFailed,
            "eglChooseConfig failed",
        ),
        (
            SetupReport::ChooseConfig { status: 1, num_configs: 0 },
            SetupError::NoSuitableConfig,
            "No suitable EGL config found",
        ),
        (
            SetupReport::PbufferSurface { null: true },
            SetupError::CreatePbufferSurfaceFailed,
            "eglCreatePbufferSurface failed",
        ),
        (SetupReport::Context { null: true }, SetupError::CreateContextFailed, "eglCreateContext failed"),
        (SetupReport::MakeCurrent { status: 0 }, SetupError::MakeCurrentFailed, "eglMakeCurrent failed"),
    ];
    for (report, error, message) in cases {
        assert_eq!(setup_progress(report), Err(error));
        assert_eq!(error.message(), message);
    }
}

#[test]
fn setup_choose_config_status_checked_before_count() {
    assert_eq!(
        setup_progress(SetupReport::ChooseConfig { status: 0, num_configs: 0 }),
        Err(SetupError::ChooseConfigFailed)
    );
    // Only a count of exactly zero is refused.
    assert_eq!(
        setup_progress(SetupReport::ChooseConfig { status: 1, num_configs: -1 }),
        Ok(Some(SetupStep::CreatePbufferSurface))
    );
}

#[test]
fn display_takes_the_configured_size() {
    let d = display(800, 600);
    assert_eq!(d.screen_size(), (800, 600));
    assert!(!d.data().quit_requested);
    assert!(!d.data().quit_ordered);
    assert!(!d.high_dpi());
}

#[test]
fn display_size_wraps_negative_values() {
    let d = display(-1, -2);
    assert_eq!(d.screen_size(), (u32::MAX, u32::MAX - 1));
    let d = display(i32::MIN, 0);
    assert_eq!(d.screen_size(), (0x8000_0000, 0));
}

#[test]
fn native_display_data_default() {
    assert_eq!(NativeDisplayData::default(), NativeDisplayData { quit_requested: false, quit_ordered: false });
}

#[test]
fn request_then_cancel_restores_flags() {
    let mut d = display(10, 10);
    d.request_quit();
    assert!(d.data().quit_requested);
    d.cancel_quit();
    assert_eq!(d.data(), NativeDisplayData::default());
    assert_eq!(d.screen_size(), (10, 10));
}

#[test]
fn order_quit_ends_loop_and_stays() {
    let mut d = display(10, 10);
    assert_eq!(d.loop_step(LoopEvent::IterationStart), LoopAction::RunFrame);
    d.order_quit();
    d.order_quit();
    d.cancel_quit();
    assert!(d.data().quit_ordered);
    assert_eq!(d.loop_step(LoopEvent::IterationStart), LoopAction::Exit);
    assert_eq!(d.loop_step(LoopEvent::FrameDone), LoopAction::Continue);
}

#[test]
fn standing_request_becomes_order() {
    let mut d = display(10, 10);
    assert_eq!(d.loop_step(LoopEvent::IterationStart), LoopAction::RunFrame);
    d.request_quit();
    assert_eq!(d.loop_step(LoopEvent::FrameDone), LoopAction::DeliverQuitEvent);
    assert!(!d.data().quit_ordered);
    // The application leaves the request standing.
    assert_eq!(d.loop_step(LoopEvent::QuitEventHandled), LoopAction::Continue);
    assert!(d.data().quit_ordered);
    assert_eq!(d.loop_step(LoopEvent::IterationStart), LoopAction::Exit);
}

#[test]
fn cancelled_request_keeps_running() {
    let mut d = display(10, 10);
    d.request_quit();
    assert_eq!(d.loop_step(LoopEvent::FrameDone), LoopAction::DeliverQuitEvent);
    // The application cancels in its quit_requested_event.
    d.cancel_quit();
    assert_eq!(d.loop_step(LoopEvent::QuitEventHandled), LoopAction::Continue);
    assert!(!d.data().quit_ordered);
    assert_eq!(d.loop_step(LoopEvent::IterationStart), LoopAction::RunFrame);
    assert_eq!(d.loop_step(LoopEvent::FrameDone), LoopAction::Continue);
}

#[test]
fn window_operations_change_nothing() {
    let mut d = display(640, 480);
    d.request_quit();
    d.set_cursor_grab(true);
    d.show_mouse(false);
    d.set_window_size(1, 2);
    d.set_fullscreen(true);
    d.clipboard_set("text");
    assert_eq!(d.clipboard_get(), None);
    assert_eq!(d.screen_size(), (640, 480));
    assert!(d.data().quit_requested);
    assert!(!d.data().quit_ordered);
}

#[test]
fn attributes_follow_the_configuration() {
    let mut conf = Conf::default();
    assert_eq!(config_attributes_for(&conf)[9], 0);
    assert_eq!(surface_attributes_for(&conf), [EGL_WIDTH, 800, EGL_HEIGHT, 600, EGL_NONE]);
    conf.platform.framebuffer_alpha = true;
    conf.window_width = 320;
    conf.window_height = 200;
    assert_eq!(config_attributes_for(&conf), pbuffer_config_attributes(true));
    assert_eq!(config_attributes_for(&conf)[9], 8);
    assert_eq!(surface_attributes_for(&conf), [EGL_WIDTH, 320, EGL_HEIGHT, 200, EGL_NONE]);
}

#[test]
fn initialization_error_texts() {
    assert_eq!(
        initialization_error_text(SetupError::NoSuitableConfig),
        "Headless EGL initialization error: No suitable EGL config found"
    );
    assert_eq!(
        initialization_error_text(SetupError::MakeCurrentFailed),
        "Headless EGL initialization error: eglMakeCurrent failed"
    );
}

#[test]
fn teardown_order() {
    assert_eq!(
        teardown_calls(),
        vec![
            TeardownCall::ReleaseCurrent,
            TeardownCall::DestroySurface,
            TeardownCall::DestroyContext,
            TeardownCall::Terminate,
        ]
    );
}

#[test]
fn config_choice() {
    assert_eq!(config_capacity(), 32);
    let mut configs = [0u64; 32];
    configs[0] = 11;
    configs[1] = 22;
    assert_eq!(chosen_config(&configs), 11);
}

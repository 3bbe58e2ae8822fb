//! The decisions of the headless rendering backend: an EGL pbuffer surface,
//! no window and no X11/Wayland dependency; everything runs off-screen.
//!
//! The EGL calls themselves stand outside this library. What it decides is
//! here: the attribute lists handed to EGL, which outcome of each setup call
//! is an error and which error, the size of the off-screen surface, and the
//! main loop's answer to the quit flags that the application sets.
use vstd::prelude::*;
use vstd::string::StringExecFns;
use crate::conf::Conf;
use crate::native::egl::{
    EGL_ALPHA_SIZE, EGL_BLUE_SIZE, EGL_CONTEXT_CLIENT_VERSION, EGL_DEPTH_SIZE, EGL_GREEN_SIZE,
    EGL_HEIGHT, EGL_NONE, EGL_PBUFFER_BIT, EGL_RED_SIZE, EGL_STENCIL_SIZE, EGL_SURFACE_TYPE,
    EGL_WIDTH,
};

verus! {

// ---------------------------------------------------------------------------
// Attribute lists
// ---------------------------------------------------------------------------

/// Bits of alpha asked of the framebuffer: 8 with an alpha channel, else 0.
pub open spec fn spec_alpha_size(alpha: bool) -> i32 {
    if alpha { 8 } else { 0 }
}

/// The frame-buffer configuration asked of `eglChooseConfig`: a pbuffer
/// surface with 8 bits of red, green and blue, `spec_alpha_size(alpha)` bits
/// of alpha, a 16-bit depth buffer and no stencil buffer.
pub open spec fn spec_config_attributes(alpha: bool) -> Seq<i32> {
    seq![
        EGL_SURFACE_TYPE, EGL_PBUFFER_BIT,
        EGL_RED_SIZE, 8i32,
        EGL_GREEN_SIZE, 8i32,
        EGL_BLUE_SIZE, 8i32,
        EGL_ALPHA_SIZE, spec_alpha_size(alpha),
        EGL_DEPTH_SIZE, 16i32,
        EGL_STENCIL_SIZE, 0i32,
        EGL_NONE,
    ]
}

/// The attribute list for `eglChooseConfig`, terminated by `EGL_NONE`.
pub fn pbuffer_config_attributes(alpha: bool) -> (v: Vec<i32>)
    ensures
        v@ == spec_config_attributes(alpha),
{
    let alpha_size: i32 = if alpha { 8 } else { 0 };
    vec![
        EGL_SURFACE_TYPE, EGL_PBUFFER_BIT,
        EGL_RED_SIZE, 8,
        EGL_GREEN_SIZE, 8,
        EGL_BLUE_SIZE, 8,
        EGL_ALPHA_SIZE, alpha_size,
        EGL_DEPTH_SIZE, 16,
        EGL_STENCIL_SIZE, 0,
        EGL_NONE,
    ]
}

/// The attribute list for `eglCreatePbufferSurface`: the surface's width and
/// height, as given, terminated by `EGL_NONE`.
pub fn pbuffer_surface_attributes(width: i32, height: i32) -> (a: [i32; 5])
    ensures
        a@ == seq![EGL_WIDTH, width, EGL_HEIGHT, height, EGL_NONE],
{
    [EGL_WIDTH, width, EGL_HEIGHT, height, EGL_NONE]
}

/// The attribute list for `eglCreateContext`: an OpenGL ES 2 client context,
/// terminated by `EGL_NONE`.
pub fn context_attributes() -> (a: [i32; 3])
    ensures
        a@ == seq![EGL_CONTEXT_CLIENT_VERSION, 2i32, EGL_NONE],
{
    [EGL_CONTEXT_CLIENT_VERSION, 2, EGL_NONE]
}

/// The `eglChooseConfig` attribute list for a configuration: of the whole
/// configuration only `platform.framebuffer_alpha` reaches it.
pub fn config_attributes_for(conf: &Conf) -> (v: Vec<i32>)
    ensures
        v@ == spec_config_attributes(conf.platform.framebuffer_alpha),
{
    pbuffer_config_attributes(conf.platform.framebuffer_alpha)
}

/// The `eglCreatePbufferSurface` attribute list for a configuration: the
/// surface is as large as the configured window.
pub fn surface_attributes_for(conf: &Conf) -> (a: [i32; 5])
    ensures
        a@ == seq![EGL_WIDTH, conf.window_width, EGL_HEIGHT, conf.window_height, EGL_NONE],
{
    pbuffer_surface_attributes(conf.window_width, conf.window_height)
}

/// How many configurations `eglChooseConfig` may write back.
pub fn config_capacity() -> (n: i32)
    ensures
        n == 32,
{
    32
}

/// Of the configurations that `eglChooseConfig` wrote back, the first is used.
pub fn chosen_config<T: Copy>(configs: &[T; 32]) -> (c: T)
    ensures
        c == configs@[0],
{
    configs[0]
}

/// Every attribute list that the backend hands to EGL is made of
/// attribute/value pairs and ends with `EGL_NONE`, which stands nowhere else
/// as an attribute name.
pub proof fn lemma_attribute_lists_are_terminated(alpha: bool, width: i32, height: i32)
    ensures
        ({
            let lists = seq![
                spec_config_attributes(alpha),
                seq![EGL_WIDTH, width, EGL_HEIGHT, height, EGL_NONE],
                seq![EGL_CONTEXT_CLIENT_VERSION, 2i32, EGL_NONE],
            ];
            forall|k: int| 0 <= k < 3 ==> {
                let l = #[trigger] lists[k];
                &&& l.len() % 2 == 1
                &&& l.last() == EGL_NONE
                &&& forall|j: int| 0 <= j < l.len() - 1 && j % 2 == 0 ==> l[j] != EGL_NONE
            }
        }),
{
}

// ---------------------------------------------------------------------------
// Context setup
// ---------------------------------------------------------------------------

/// The EGL calls that set up the off-screen context, in the order in which
/// they are made.
#[derive(Debug, Clone, Copy, PartialEq, Eq, Structural)]
pub enum SetupStep {
    GetDisplay,
    Initialize,
    ChooseConfig,
    CreatePbufferSurface,
    CreateContext,
    MakeCurrent,
}

/// What one setup call gave back, as far as the setup looks at it: whether a
/// returned handle is null, the `EGLBoolean` status of a call, and the number
/// of matching configurations.
#[derive(Debug, Clone, Copy, PartialEq, Eq, Structural)]
pub enum SetupReport {
    Display { null: bool },
    Initialize { status: u32 },
    ChooseConfig { status: u32, num_configs: i32 },
    PbufferSurface { null: bool },
    Context { null: bool },
    MakeCurrent { status: u32 },
}

/// Why the off-screen context could not be set up.
#[derive(Debug, Clone, Copy, PartialEq, Eq, Structural)]
pub enum SetupError {
    GetDisplayFailed,
    InitializeFailed,
    ChooseConfigFailed,
    NoSuitableConfig,
    CreatePbufferSurfaceFailed,
    CreateContextFailed,
    MakeCurrentFailed,
}

impl SetupError {
    /// The text that reports the error.
    pub open spec fn spec_message(self) -> Seq<char> {
        match self {
            SetupError::GetDisplayFailed => "eglGetDisplay failed"@,
            SetupError::InitializeFailed => "eglInitialize failed"@,
            SetupError::ChooseConfigFailed => "eglChooseConfig failed"@,
            SetupError::NoSuitableConfig => "No suitable EGL config found"@,
            SetupError::CreatePbufferSurfaceFailed => "eglCreatePbufferSurface failed"@,
            SetupError::CreateContextFailed => "eglCreateContext failed"@,
            SetupError::MakeCurrentFailed => "eglMakeCurrent failed"@,
        }
    }

    /// The text that reports the error.
    pub fn message(&self) -> (s: String)
        ensures
            s@ == self.spec_message(),
    {
        match self {
            SetupError::GetDisplayFailed => "eglGetDisplay failed".to_owned(),
            SetupError::InitializeFailed => "eglInitialize failed".to_owned(),
            SetupError::ChooseConfigFailed => "eglChooseConfig failed".to_owned(),
            SetupError::NoSuitableConfig => "No suitable EGL config found".to_owned(),
            SetupError::CreatePbufferSurfaceFailed => "eglCreatePbufferSurface failed".to_owned(),
            SetupError::CreateContextFailed => "eglCreateContext failed".to_owned(),
            SetupError::MakeCurrentFailed => "eglMakeCurrent failed".to_owned(),
        }
    }
}

/// The text reported when the off-screen context cannot be set up, after
/// which the backend gives up and returns no result.
pub open spec fn spec_initialization_error_text(e: SetupError) -> Seq<char> {
    "Headless EGL initialization error: "@ + e.spec_message()
}

/// The text reported when the off-screen context cannot be set up.
pub fn initialization_error_text(e: SetupError) -> (s: String)
    ensures
        s@ == spec_initialization_error_text(e),
{
    let mut s = "Headless EGL initialization error: ".to_owned();
    let m = e.message();
    s.append(m.as_str());
    s
}

/// The step that follows a successful report, or `None` after the last one.
pub open spec fn spec_step_after(report: SetupReport) -> Option<SetupStep> {
    match report {
        SetupReport::Display { .. } => Some(SetupStep::Initialize),
        SetupReport::Initialize { .. } => Some(SetupStep::ChooseConfig),
        SetupReport::ChooseConfig { .. } => Some(SetupStep::CreatePbufferSurface),
        SetupReport::PbufferSurface { .. } => Some(SetupStep::CreateContext),
        SetupReport::Context { .. } => Some(SetupStep::MakeCurrent),
        SetupReport::MakeCurrent { .. } => None,
    }
}

/// The error that a report stands for, if any: a null handle, a zero
/// status, or (after a successful `eglChooseConfig`) no configuration at all.
pub open spec fn spec_setup_error(report: SetupReport) -> Option<SetupError> {
    match report {
        SetupReport::Display { null } => if null { Some(SetupError::GetDisplayFailed) } else { None },
        SetupReport::Initialize { status } =>
            if status == 0 { Some(SetupError::InitializeFailed) } else { None },
        SetupReport::ChooseConfig { status, num_configs } =>
            if status == 0 {
                Some(SetupError::ChooseConfigFailed)
            } else if num_configs == 0 {
                Some(SetupError::NoSuitableConfig)
            } else {
                None
            },
        SetupReport::PbufferSurface { null } =>
            if null { Some(SetupError::CreatePbufferSurfaceFailed) } else { None },
        SetupReport::Context { null } =>
            if null { Some(SetupError::CreateContextFailed) } else { None },
        SetupReport::MakeCurrent { status } =>
            if status == 0 { Some(SetupError::MakeCurrentFailed) } else { None },
    }
}

/// The first call of the setup.
pub fn first_setup_step() -> (s: SetupStep)
    ensures
        s == SetupStep::GetDisplay,
{
    SetupStep::GetDisplay
}

/// Decides, from what a setup call gave back, whether the setup fails here
/// (with which error) or goes on (with which call next, `None` once the
/// context is current).
pub fn setup_progress(report: SetupReport) -> (r: Result<Option<SetupStep>, SetupError>)
    ensures
        r == (match spec_setup_error(report) {
            Some(e) => Err(e),
            None => Ok(spec_step_after(report)),
        }),
{
    match report {
        SetupReport::Display { null } => {
            if null {
                Err(SetupError::GetDisplayFailed)
            } else {
                Ok(Some(SetupStep::Initialize))
            }
        },
        SetupReport::Initialize { status } => {
            if status == 0 {
                Err(SetupError::InitializeFailed)
            } else {
                Ok(Some(SetupStep::ChooseConfig))
            }
        },
        SetupReport::ChooseConfig { status, num_configs } => {
            if status == 0 {
                Err(SetupError::ChooseConfigFailed)
            } else if num_configs == 0 {
                Err(SetupError::NoSuitableConfig)
            } else {
                Ok(Some(SetupStep::CreatePbufferSurface))
            }
        },
        SetupReport::PbufferSurface { null } => {
            if null {
                Err(SetupError::CreatePbufferSurfaceFailed)
            } else {
                Ok(Some(SetupStep::CreateContext))
            }
        },
        SetupReport::Context { null } => {
            if null {
                Err(SetupError::CreateContextFailed)
            } else {
                Ok(Some(SetupStep::MakeCurrent))
            }
        },
        SetupReport::MakeCurrent { status } => {
            if status == 0 {
                Err(SetupError::MakeCurrentFailed)
            } else {
                Ok(None)
            }
        },
    }
}

// ---------------------------------------------------------------------------
// Display state and the main loop
// ---------------------------------------------------------------------------

/// The quit flags that the display shares with the application.
#[derive(Debug, Clone, Copy, PartialEq, Eq, Structural)]
pub struct NativeDisplayData {
    /// The application, or the user, asked to quit; the application may still
    /// cancel.
    pub quit_requested: bool,
    /// Quitting is decided: the main loop ends.
    pub quit_ordered: bool,
}

impl Default for NativeDisplayData {
    /// Neither flag set.
    fn default() -> (r: NativeDisplayData)
        ensures
            !r.quit_requested,
            !r.quit_ordered,
    {
        NativeDisplayData { quit_requested: false, quit_ordered: false }
    }
}

/// What the main loop has just done, or is about to do.
#[derive(Debug, Clone, Copy, PartialEq, Eq, Structural)]
pub enum LoopEvent {
    /// An iteration is about to start.
    IterationStart,
    /// `update`, `draw` and the buffer swap of one frame are done.
    FrameDone,
    /// The application's `quit_requested_event` has returned.
    QuitEventHandled,
}

/// What the main loop does next.
#[derive(Debug, Clone, Copy, PartialEq, Eq, Structural)]
pub enum LoopAction {
    /// Run one frame: `update`, `draw`, then swap buffers.
    RunFrame,
    /// Give the application its `quit_requested_event`.
    DeliverQuitEvent,
    /// Go on to the next iteration.
    Continue,
    /// Leave the loop, release the EGL objects and return.
    Exit,
}

impl NativeDisplayData {
    /// After `request_quit`.
    pub open spec fn with_request(self) -> Self {
        NativeDisplayData { quit_requested: true, ..self }
    }

    /// After `cancel_quit`.
    pub open spec fn with_cancel(self) -> Self {
        NativeDisplayData { quit_requested: false, ..self }
    }

    /// After `order_quit`.
    pub open spec fn with_order(self) -> Self {
        NativeDisplayData { quit_ordered: true, ..self }
    }

    /// The main loop's step: the flags after the event, and what it does next.
    /// At the start of an iteration the loop ends once quitting is ordered.
    /// After a frame, a standing request that is not yet an order is handed
    /// to the application. After the application has answered, a request
    /// that still stands becomes an order.
    pub open spec fn loop_step(self, event: LoopEvent) -> (NativeDisplayData, LoopAction) {
        match event {
            LoopEvent::IterationStart =>
                (self, if self.quit_ordered { LoopAction::Exit } else { LoopAction::RunFrame }),
            LoopEvent::FrameDone =>
                (self, if self.quit_requested && !self.quit_ordered {
                    LoopAction::DeliverQuitEvent
                } else {
                    LoopAction::Continue
                }),
            LoopEvent::QuitEventHandled =>
                (if self.quit_requested { self.with_order() } else { self }, LoopAction::Continue),
        }
    }
}

/// The reading of a window size from `Conf` as an unsigned number: a
/// negative `i32` wraps around, as Rust's `as u32` does.
pub open spec fn spec_dimension(v: i32) -> int {
    if v >= 0 { v as int } else { v + 0x1_0000_0000 }
}

/// Internal display state for headless mode: the off-screen surface's size
/// and the quit flags.
#[derive(Debug)]
pub struct HeadlessDisplay {
    width: u32,
    height: u32,
    data: NativeDisplayData,
}

impl HeadlessDisplay {
    /// The width of the off-screen surface.
    pub closed spec fn surface_width(self) -> u32 {
        self.width
    }

    /// The height of the off-screen surface.
    pub closed spec fn surface_height(self) -> u32 {
        self.height
    }

    /// The quit flags.
    pub closed spec fn flags(self) -> NativeDisplayData {
        self.data
    }

    /// The quit flags.
    pub fn data(&self) -> (d: NativeDisplayData)
        ensures
            d == self.flags(),
    {
        self.data
    }

    /// The display for a configuration: its surface has the configured
    /// window size, and no quit flag is set.
    pub fn new(conf: &Conf) -> (r: HeadlessDisplay)
        ensures
            r.surface_width() == spec_dimension(conf.window_width),
            r.surface_height() == spec_dimension(conf.window_height),
            !r.flags().quit_requested,
            !r.flags().quit_ordered,
    {
        let w = conf.window_width;
        let h = conf.window_height;
        assert(w < 0 ==> (w as u32) as int == w + 0x1_0000_0000) by (bit_vector);
        assert(h < 0 ==> (h as u32) as int == h + 0x1_0000_0000) by (bit_vector);
        assert(w >= 0 ==> (w as u32) as int == w) by (bit_vector);
        assert(h >= 0 ==> (h as u32) as int == h) by (bit_vector);
        HeadlessDisplay { width: w as u32, height: h as u32, data: NativeDisplayData::default() }
    }

    /// The size of the off-screen surface, in pixels: (width, height).
    pub fn screen_size(&self) -> (r: (u32, u32))
        ensures
            r == (self.surface_width(), self.surface_height()),
    {
        (self.width, self.height)
    }

    /// A headless surface is never high-DPI.
    pub fn high_dpi(&self) -> (r: bool)
        ensures
            !r,
    {
        false
    }

    /// Decides to quit: the main loop ends at the start of its next iteration.
    pub fn order_quit(&mut self)
        ensures
            final(self).flags() == old(self).flags().with_order(),
            final(self).surface_width() == old(self).surface_width(),
            final(self).surface_height() == old(self).surface_height(),
    {
        self.data.quit_ordered = true;
    }

    /// Asks to quit; the application gets a `quit_requested_event` after the
    /// current frame, and may cancel.
    pub fn request_quit(&mut self)
        ensures
            final(self).flags() == old(self).flags().with_request(),
            final(self).surface_width() == old(self).surface_width(),
            final(self).surface_height() == old(self).surface_height(),
    {
        self.data.quit_requested = true;
    }

    /// Withdraws a request to quit.
    pub fn cancel_quit(&mut self)
        ensures
            final(self).flags() == old(self).flags().with_cancel(),
            final(self).surface_width() == old(self).surface_width(),
            final(self).surface_height() == old(self).surface_height(),
    {
        self.data.quit_requested = false;
    }

    /// There is no cursor to grab: nothing changes.
    pub fn set_cursor_grab(&mut self, grab: bool)
        ensures
            *final(self) == *old(self),
    {
    }

    /// There is no mouse cursor to show: nothing changes.
    pub fn show_mouse(&mut self, shown: bool)
        ensures
            *final(self) == *old(self),
    {
    }

    /// There is no window to resize: nothing changes, the surface keeps its
    /// size.
    pub fn set_window_size(&mut self, new_width: u32, new_height: u32)
        ensures
            *final(self) == *old(self),
    {
    }

    /// There is no window to make fullscreen: nothing changes.
    pub fn set_fullscreen(&mut self, fullscreen: bool)
        ensures
            *final(self) == *old(self),
    {
    }

    /// There is no clipboard: nothing is read.
    pub fn clipboard_get(&mut self) -> (r: Option<String>)
        ensures
            r is None,
            *final(self) == *old(self),
    {
        None
    }

    /// There is no clipboard: nothing is written, nothing changes.
    pub fn clipboard_set(&mut self, data: &str)
        ensures
            *final(self) == *old(self),
    {
    }

    /// The main loop's decision on an event (see
    /// [`NativeDisplayData::loop_step`]); the surface's size does not change.
    pub fn loop_step(&mut self, event: LoopEvent) -> (a: LoopAction)
        ensures
            (final(self).flags(), a) == old(self).flags().loop_step(event),
            final(self).surface_width() == old(self).surface_width(),
            final(self).surface_height() == old(self).surface_height(),
    {
        match event {
            LoopEvent::IterationStart => {
                if self.data.quit_ordered {
                    LoopAction::Exit
                } else {
                    LoopAction::RunFrame
                }
            },
            LoopEvent::FrameDone => {
                if self.data.quit_requested && !self.data.quit_ordered {
                    LoopAction::DeliverQuitEvent
                } else {
                    LoopAction::Continue
                }
            },
            LoopEvent::QuitEventHandled => {
                if self.data.quit_requested {
                    self.data.quit_ordered = true;
                }
                LoopAction::Continue
            },
        }
    }
}

/// The EGL calls that release the context once the main loop has ended.
#[derive(Debug, Clone, Copy, PartialEq, Eq, Structural)]
pub enum TeardownCall {
    /// `eglMakeCurrent` with no surfaces and no context.
    ReleaseCurrent,
    DestroySurface,
    DestroyContext,
    Terminate,
}

/// The teardown, in the order in which its calls are made: release the
/// current context, destroy the surface, destroy the context, terminate the
/// display connection.
pub fn teardown_calls() -> (v: Vec<TeardownCall>)
    ensures
        v@ == seq![
            TeardownCall::ReleaseCurrent,
            TeardownCall::DestroySurface,
            TeardownCall::DestroyContext,
            TeardownCall::Terminate,
        ],
{
    vec![
        TeardownCall::ReleaseCurrent,
        TeardownCall::DestroySurface,
        TeardownCall::DestroyContext,
        TeardownCall::Terminate,
    ]
}

// ---------------------------------------------------------------------------
// Laws of the quit protocol
// ---------------------------------------------------------------------------

/// `cancel_quit` undoes `request_quit`: after both, the flags are as after
/// `cancel_quit` alone, and as before both where no request stood.
pub proof fn lemma_cancel_undoes_request(d: NativeDisplayData)
    ensures
        d.with_request().with_cancel() == d.with_cancel(),
        !d.quit_requested ==> d.with_request().with_cancel() == d,
{
}

/// An order to quit is final: no operation and no step of the main loop
/// withdraws it, and the loop ends at the start of the next iteration.
pub proof fn lemma_order_is_final(d: NativeDisplayData, event: LoopEvent)
    requires
        d.quit_ordered,
    ensures
        d.with_request().quit_ordered,
        d.with_cancel().quit_ordered,
        d.with_order().quit_ordered,
        d.loop_step(event).0.quit_ordered,
        d.loop_step(LoopEvent::IterationStart).1 == LoopAction::Exit,
{
}

/// `order_quit` ends the main loop at the start of the next iteration,
/// whatever the flags were.
pub proof fn lemma_order_ends_loop(d: NativeDisplayData)
    ensures
        d.with_order().loop_step(LoopEvent::IterationStart).1 == LoopAction::Exit,
{
}

/// A request to quit that is not yet an order is handed to the application
/// after the frame; if the application leaves it standing, the loop ends at
/// the start of the next iteration; if it cancels, the loop goes on.
pub proof fn lemma_request_is_offered_then_honoured(d: NativeDisplayData, answered: NativeDisplayData)
    requires
        d.quit_requested,
        !d.quit_ordered,
    ensures
        d.loop_step(LoopEvent::FrameDone) == (d, LoopAction::DeliverQuitEvent),
        answered.quit_requested ==> answered.loop_step(LoopEvent::QuitEventHandled).0.loop_step(
            LoopEvent::IterationStart,
        ).1 == LoopAction::Exit,
        d.with_cancel().loop_step(LoopEvent::QuitEventHandled).0.loop_step(
            LoopEvent::IterationStart,
        ).1 == LoopAction::RunFrame,
{
}

/// While nobody asks to quit, the loop runs frame after frame, and its own
/// steps set no flag.
pub proof fn lemma_loop_runs_without_quit(d: NativeDisplayData, event: LoopEvent)
    requires
        !d.quit_requested,
        !d.quit_ordered,
    ensures
        d.loop_step(event).0 == d,
        d.loop_step(LoopEvent::IterationStart).1 == LoopAction::RunFrame,
        d.loop_step(LoopEvent::FrameDone).1 == LoopAction::Continue,
{
}

/// The main loop never changes the request flag: only the application sets
/// or clears it.
pub proof fn lemma_loop_keeps_request(d: NativeDisplayData, event: LoopEvent)
    ensures
        d.loop_step(event).0.quit_requested == d.quit_requested,
{
}

// ---------------------------------------------------------------------------
// Laws over whole runs of the main loop
// ---------------------------------------------------------------------------

/// What the application can do to the quit flags while it has control.
#[derive(Debug, Clone, Copy, PartialEq, Eq, Structural)]
pub enum AppOp {
    RequestQuit,
    CancelQuit,
    OrderQuit,
}

/// A call that the main loop makes.
#[derive(Debug, Clone, Copy, PartialEq, Eq, Structural)]
pub enum LoopCall {
    /// The application's `update`.
    Update,
    /// The application's `draw`.
    Draw,
    /// `eglSwapBuffers`.
    Swap,
    /// The application's `quit_requested_event`.
    QuitEvent,
}

/// The flags after one operation of the application.
pub open spec fn apply_op(d: NativeDisplayData, op: AppOp) -> NativeDisplayData {
    match op {
        AppOp::RequestQuit => d.with_request(),
        AppOp::CancelQuit => d.with_cancel(),
        AppOp::OrderQuit => d.with_order(),
    }
}

/// The flags after the application's operations, in order.
pub open spec fn apply_ops(d: NativeDisplayData, ops: Seq<AppOp>) -> NativeDisplayData
    decreases ops.len(),
{
    if ops.len() == 0 {
        d
    } else {
        apply_ops(apply_op(d, ops[0]), ops.drop_first())
    }
}

/// One iteration of the main loop that runs a frame, from the flags at its
/// start: the application acts with `frame_ops` during `update` and `draw`,
/// the buffers are swapped, and where the loop offers the quit event the
/// application acts with `event_ops` during it. Gives the flags at the end
/// and the calls made.
pub open spec fn iteration(
    d: NativeDisplayData,
    frame_ops: Seq<AppOp>,
    event_ops: Seq<AppOp>,
) -> (NativeDisplayData, Seq<LoopCall>) {
    let d1 = apply_ops(d, frame_ops);
    let (d2, a) = d1.loop_step(LoopEvent::FrameDone);
    if a == LoopAction::DeliverQuitEvent {
        (
            apply_ops(d2, event_ops).loop_step(LoopEvent::QuitEventHandled).0,
            seq![LoopCall::Update, LoopCall::Draw, LoopCall::Swap, LoopCall::QuitEvent],
        )
    } else {
        (d2, seq![LoopCall::Update, LoopCall::Draw, LoopCall::Swap])
    }
}

/// The main loop from the flags `d`, the application acting in iteration
/// `i` by `script[i]` (its operations during the frame, then during the quit
/// event): the calls made, and whether the loop has ended by the end of the
/// script (`false`: it goes on to a further iteration).
pub open spec fn run_loop(
    d: NativeDisplayData,
    script: Seq<(Seq<AppOp>, Seq<AppOp>)>,
) -> (Seq<LoopCall>, bool)
    decreases script.len(),
{
    let (d0, a) = d.loop_step(LoopEvent::IterationStart);
    if a == LoopAction::Exit {
        (Seq::empty(), true)
    } else if script.len() == 0 {
        (Seq::empty(), false)
    } else {
        let (d1, calls) = iteration(d0, script[0].0, script[0].1);
        let (rest, ended) = run_loop(d1, script.drop_first());
        (calls + rest, ended)
    }
}

/// A sequence of whole frames: each is `update`, `draw`, swap, optionally
/// followed by one quit event.
pub open spec fn is_frame_sequence(s: Seq<LoopCall>) -> bool
    decreases s.len(),
{
    if s.len() == 0 {
        true
    } else if s.len() >= 4 && s.take(4) == seq![
        LoopCall::Update,
        LoopCall::Draw,
        LoopCall::Swap,
        LoopCall::QuitEvent,
    ] {
        is_frame_sequence(s.skip(4))
    } else if s.len() >= 3 && s.take(3) == seq![LoopCall::Update, LoopCall::Draw, LoopCall::Swap] {
        is_frame_sequence(s.skip(3))
    } else {
        false
    }
}

/// The flags at the start of iteration `i` of a script.
pub open spec fn flags_before(
    d: NativeDisplayData,
    script: Seq<(Seq<AppOp>, Seq<AppOp>)>,
    i: nat,
) -> NativeDisplayData
    decreases i,
{
    if i == 0 {
        d
    } else {
        iteration(flags_before(d, script, (i - 1) as nat), script[i - 1].0, script[i - 1].1).0
    }
}

/// An iteration ends the loop: during the frame the application orders to
/// quit, or a request stands after the frame and the application, in the
/// quit event, leaves it standing or orders to quit.
pub open spec fn iteration_quits(d: NativeDisplayData, frame_ops: Seq<AppOp>, event_ops: Seq<AppOp>) -> bool {
    let d1 = apply_ops(d, frame_ops);
    ||| d1.quit_ordered
    ||| d1.quit_requested && (apply_ops(d1, event_ops).quit_requested || apply_ops(d1, event_ops).quit_ordered)
}

proof fn lemma_ops_keep_order(d: NativeDisplayData, ops: Seq<AppOp>)
    requires
        d.quit_ordered,
    ensures
        apply_ops(d, ops).quit_ordered,
    decreases ops.len(),
{
    if ops.len() > 0 {
        lemma_ops_keep_order(apply_op(d, ops[0]), ops.drop_first());
    }
}

proof fn lemma_iteration_quits(d: NativeDisplayData, frame_ops: Seq<AppOp>, event_ops: Seq<AppOp>)
    ensures
        iteration(d, frame_ops, event_ops).0.quit_ordered == iteration_quits(d, frame_ops, event_ops),
{
    let d1 = apply_ops(d, frame_ops);
    if d1.quit_ordered {
        lemma_ops_keep_order(d1, event_ops);
    }
}

proof fn lemma_flags_before_shift(
    d: NativeDisplayData,
    script: Seq<(Seq<AppOp>, Seq<AppOp>)>,
    i: nat,
)
    requires
        script.len() > 0,
        i < script.len(),
    ensures
        flags_before(iteration(d, script[0].0, script[0].1).0, script.drop_first(), i)
            == flags_before(d, script, i + 1),
    decreases i,
{
    if i > 0 {
        lemma_flags_before_shift(d, script, (i - 1) as nat);
        assert(script.drop_first()[i - 1] == script[i as int]);
    } else {
        assert(flags_before(d, script, 0) == d);
    }
}

/// Over a whole run, the main loop's calls are whole frames: each `update`
/// is followed by exactly one `draw` and one buffer swap, and the quit event
/// comes only right after a swap, at most once per frame.
pub proof fn lemma_run_calls_in_frame_order(
    d: NativeDisplayData,
    script: Seq<(Seq<AppOp>, Seq<AppOp>)>,
)
    ensures
        is_frame_sequence(run_loop(d, script).0),
        forall|i: int|
            0 <= i < run_loop(d, script).0.len() ==> #[trigger] call_in_frame_order(
                run_loop(d, script).0,
                i,
            ),
{
    lemma_run_calls_are_frames(d, script);
    lemma_frame_sequence_shape(run_loop(d, script).0);
}

/// Over a whole run, the main loop's calls are a sequence of whole frames.
pub proof fn lemma_run_calls_are_frames(
    d: NativeDisplayData,
    script: Seq<(Seq<AppOp>, Seq<AppOp>)>,
)
    ensures
        is_frame_sequence(run_loop(d, script).0),
    decreases script.len(),
{
    let (d0, a) = d.loop_step(LoopEvent::IterationStart);
    if a != LoopAction::Exit && script.len() > 0 {
        let (d1, calls) = iteration(d0, script[0].0, script[0].1);
        let (rest, ended) = run_loop(d1, script.drop_first());
        lemma_run_calls_are_frames(d1, script.drop_first());
        let all = calls + rest;
        assert(all.take(calls.len() as int) == calls);
        assert(all.skip(calls.len() as int) == rest);
        if calls.len() == 4 {
            assert(all.take(4) == calls);
        } else {
            assert(all.take(3) == calls);
            lemma_frame_sequence_starts_with_update(rest);
            if all.len() >= 4 {
                assert(all.take(4)[3] == rest[0]);
            }
        }
    }
}

proof fn lemma_frame_sequence_starts_with_update(s: Seq<LoopCall>)
    requires
        is_frame_sequence(s),
    ensures
        s.len() == 0 || s[0] == LoopCall::Update,
{
    if s.len() >= 4 && s.take(4) == seq![LoopCall::Update, LoopCall::Draw, LoopCall::Swap, LoopCall::QuitEvent] {
        assert(s[0] == s.take(4)[0]);
    } else if s.len() >= 3 && s.take(3) == seq![LoopCall::Update, LoopCall::Draw, LoopCall::Swap] {
        assert(s[0] == s.take(3)[0]);
    }
}

/// Over a whole run, the main loop ends exactly when quitting is ordered at
/// its start, or some iteration ends it: the application orders to quit, or
/// leaves a request to quit standing through the quit event. Where no
/// iteration does, the loop has not ended, however long the script: it keeps
/// running frames.
pub proof fn lemma_run_ends_iff_quit(
    d: NativeDisplayData,
    script: Seq<(Seq<AppOp>, Seq<AppOp>)>,
)
    ensures
        run_loop(d, script).1 == (d.quit_ordered || exists|i: nat|
            i < script.len() && #[trigger] iteration_quits(
                flags_before(d, script, i),
                script[i as int].0,
                script[i as int].1,
            )),
    decreases script.len(),
{
    if !d.quit_ordered && script.len() > 0 {
        let d1 = iteration(d, script[0].0, script[0].1).0;
        let rest = script.drop_first();
        lemma_run_ends_iff_quit(d1, rest);
        lemma_iteration_quits(d, script[0].0, script[0].1);
        assert(flags_before(d, script, 0) == d);
        if run_loop(d, script).1 {
            if !d1.quit_ordered {
                let j = choose|j: nat|
                    j < rest.len() && #[trigger] iteration_quits(
                        flags_before(d1, rest, j),
                        rest[j as int].0,
                        rest[j as int].1,
                    );
                lemma_flags_before_shift(d, script, j);
                assert(rest[j as int] == script[(j + 1) as int]);
                assert(iteration_quits(
                    flags_before(d, script, j + 1),
                    script[(j + 1) as int].0,
                    script[(j + 1) as int].1,
                ));
            } else {
                assert(iteration_quits(flags_before(d, script, 0), script[0].0, script[0].1));
            }
        } else {
            assert forall|i: nat| i < script.len() implies !#[trigger] iteration_quits(
                flags_before(d, script, i),
                script[i as int].0,
                script[i as int].1,
            ) by {
                if i > 0 {
                    let j = (i - 1) as nat;
                    lemma_flags_before_shift(d, script, j);
                    assert(rest[j as int] == script[i as int]);
                    assert(!iteration_quits(flags_before(d1, rest, j), rest[j as int].0, rest[j as int].1));
                }
            }
        }
    }
}

// ---------------------------------------------------------------------------
// Laws of the single operations
// ---------------------------------------------------------------------------

/// The `eglChooseConfig` list, whatever the alpha choice: fifteen entries
/// ending with `EGL_NONE`; a pbuffer surface; 8 bits of red, green and blue;
/// a 16-bit depth buffer; no stencil buffer; and 8 bits of alpha exactly
/// when alpha is asked for. The lists with and without alpha differ in the
/// alpha size alone.
pub proof fn lemma_config_attributes_content(alpha: bool)
    ensures
        spec_config_attributes(alpha).len() == 15,
        spec_config_attributes(alpha)[0] == EGL_SURFACE_TYPE,
        spec_config_attributes(alpha)[1] == EGL_PBUFFER_BIT,
        spec_config_attributes(alpha)[2] == EGL_RED_SIZE,
        spec_config_attributes(alpha)[3] == 8,
        spec_config_attributes(alpha)[4] == EGL_GREEN_SIZE,
        spec_config_attributes(alpha)[5] == 8,
        spec_config_attributes(alpha)[6] == EGL_BLUE_SIZE,
        spec_config_attributes(alpha)[7] == 8,
        spec_config_attributes(alpha)[8] == EGL_ALPHA_SIZE,
        spec_config_attributes(alpha)[9] == (if alpha { 8i32 } else { 0i32 }),
        spec_config_attributes(alpha)[10] == EGL_DEPTH_SIZE,
        spec_config_attributes(alpha)[11] == 16,
        spec_config_attributes(alpha)[12] == EGL_STENCIL_SIZE,
        spec_config_attributes(alpha)[13] == 0,
        spec_config_attributes(alpha)[14] == EGL_NONE,
        forall|i: int|
            0 <= i < 15 && i != 9 ==> #[trigger] spec_config_attributes(true)[i]
                == spec_config_attributes(false)[i],
        spec_config_attributes(true)[9] != spec_config_attributes(false)[9],
{
}

/// What each setup call's report decides: a null display, surface or
/// context, or a zero status, fails with the error of that call; a
/// successful `eglChooseConfig` fails exactly when it found no
/// configuration, and any other count, one included, goes on. Every
/// successful call leads to the next one, in the order display, initialize,
/// choose config, pbuffer surface, context, make current, and the last one
/// ends the setup.
pub proof fn lemma_setup_verdicts(null: bool, status: u32, num_configs: i32)
    ensures
        spec_setup_error(SetupReport::Display { null }) == (if null {
            Some(SetupError::GetDisplayFailed)
        } else {
            None
        }),
        spec_setup_error(SetupReport::Initialize { status }) == (if status == 0 {
            Some(SetupError::InitializeFailed)
        } else {
            None
        }),
        status == 0 ==> spec_setup_error(SetupReport::ChooseConfig { status, num_configs })
            == Some(SetupError::ChooseConfigFailed),
        status != 0 ==> (spec_setup_error(SetupReport::ChooseConfig { status, num_configs })
            == Some(SetupError::NoSuitableConfig) <==> num_configs == 0),
        status != 0 && num_configs != 0 ==> spec_setup_error(
            SetupReport::ChooseConfig { status, num_configs },
        ) is None,
        spec_setup_error(SetupReport::PbufferSurface { null }) == (if null {
            Some(SetupError::CreatePbufferSurfaceFailed)
        } else {
            None
        }),
        spec_setup_error(SetupReport::Context { null }) == (if null {
            Some(SetupError::CreateContextFailed)
        } else {
            None
        }),
        spec_setup_error(SetupReport::MakeCurrent { status }) == (if status == 0 {
            Some(SetupError::MakeCurrentFailed)
        } else {
            None
        }),
        spec_step_after(SetupReport::Display { null }) == Some(SetupStep::Initialize),
        spec_step_after(SetupReport::Initialize { status }) == Some(SetupStep::ChooseConfig),
        spec_step_after(SetupReport::ChooseConfig { status, num_configs }) == Some(
            SetupStep::CreatePbufferSurface,
        ),
        spec_step_after(SetupReport::PbufferSurface { null }) == Some(SetupStep::CreateContext),
        spec_step_after(SetupReport::Context { null }) == Some(SetupStep::MakeCurrent),
        spec_step_after(SetupReport::MakeCurrent { status }) == None::<SetupStep>,
{
}

/// Distinct setup errors are reported by distinct texts, and the text
/// reported when setup fails is the fixed prefix followed by the error's
/// own message.
pub proof fn lemma_error_texts(e1: SetupError, e2: SetupError)
    ensures
        e1 != e2 ==> e1.spec_message() != e2.spec_message(),
        spec_initialization_error_text(e1).len() == 35 + e1.spec_message().len(),
        spec_initialization_error_text(e1).take(35) == "Headless EGL initialization error: "@,
        spec_initialization_error_text(e1).skip(35) == e1.spec_message(),
{
    reveal_strlit("eglGetDisplay failed");
    reveal_strlit("eglInitialize failed");
    reveal_strlit("eglChooseConfig failed");
    reveal_strlit("No suitable EGL config found");
    reveal_strlit("eglCreatePbufferSurface failed");
    reveal_strlit("eglCreateContext failed");
    reveal_strlit("eglMakeCurrent failed");
    reveal_strlit("Headless EGL initialization error: ");
    let prefix = "Headless EGL initialization error: "@;
    assert((prefix + e1.spec_message()).take(35) =~= prefix);
    assert((prefix + e1.spec_message()).skip(35) =~= e1.spec_message());
    if e1 != e2 {
        let m1 = e1.spec_message();
        let m2 = e2.spec_message();
        if m1.len() == m2.len() {
            assert(m1[3] != m2[3]);
        }
    }
}

/// The size read from the configuration is the configured size taken
/// modulo 2^32 into 0 .. 2^32: non-negative sizes are kept as they are.
pub proof fn lemma_dimension_wraps(v: i32)
    ensures
        0 <= spec_dimension(v) < 0x1_0000_0000,
        (spec_dimension(v) - v) % 0x1_0000_0000 == 0,
        v >= 0 ==> spec_dimension(v) == v,
{
}

/// The application's quit operations: a request sets the request flag,
/// a cancel clears it and an order sets the order flag, each whatever the
/// flags were, each leaving the other flag alone, and each giving the same
/// flags when made twice.
pub proof fn lemma_quit_operations(d: NativeDisplayData)
    ensures
        d.with_request().quit_requested,
        d.with_request().quit_ordered == d.quit_ordered,
        !d.with_cancel().quit_requested,
        d.with_cancel().quit_ordered == d.quit_ordered,
        d.with_order().quit_ordered,
        d.with_order().quit_requested == d.quit_requested,
        d.with_request().with_request() == d.with_request(),
        d.with_cancel().with_cancel() == d.with_cancel(),
        d.with_order().with_order() == d.with_order(),
{
}

/// The main loop's step on every event, for every flags: at the start of an
/// iteration it exits exactly when quitting is ordered and runs a frame
/// otherwise; after a frame it offers the quit event exactly when a request
/// stands and quitting is not ordered, and goes on otherwise, so no quit
/// event follows an order; after the quit event it goes on, with quitting
/// ordered exactly when it was ordered already or a request stands. Only
/// the quit event's answer changes a flag, and never the request.
pub proof fn lemma_loop_step_decisions(d: NativeDisplayData)
    ensures
        d.loop_step(LoopEvent::IterationStart).0 == d,
        d.quit_ordered ==> d.loop_step(LoopEvent::IterationStart).1 == LoopAction::Exit,
        !d.quit_ordered ==> d.loop_step(LoopEvent::IterationStart).1 == LoopAction::RunFrame,
        d.loop_step(LoopEvent::FrameDone).0 == d,
        d.quit_requested && !d.quit_ordered ==> d.loop_step(LoopEvent::FrameDone).1
            == LoopAction::DeliverQuitEvent,
        !d.quit_requested ==> d.loop_step(LoopEvent::FrameDone).1 == LoopAction::Continue,
        d.quit_ordered ==> d.loop_step(LoopEvent::FrameDone).1 == LoopAction::Continue,
        d.loop_step(LoopEvent::QuitEventHandled).1 == LoopAction::Continue,
        d.loop_step(LoopEvent::QuitEventHandled).0.quit_requested == d.quit_requested,
        d.loop_step(LoopEvent::QuitEventHandled).0.quit_ordered == (d.quit_ordered
            || d.quit_requested),
{
}

/// The application's operations: a request sets the request flag, a cancel
/// clears it, an order sets the order flag, each leaving the other flag
/// alone; no operations leave the flags as they are.
pub proof fn lemma_app_ops(d: NativeDisplayData)
    ensures
        apply_op(d, AppOp::RequestQuit).quit_requested,
        apply_op(d, AppOp::RequestQuit).quit_ordered == d.quit_ordered,
        !apply_op(d, AppOp::CancelQuit).quit_requested,
        apply_op(d, AppOp::CancelQuit).quit_ordered == d.quit_ordered,
        apply_op(d, AppOp::OrderQuit).quit_ordered,
        apply_op(d, AppOp::OrderQuit).quit_requested == d.quit_requested,
        apply_ops(d, Seq::empty()) == d,
{
}

proof fn lemma_frame_call_placed(s: Seq<LoopCall>, i: int)
    requires
        is_frame_sequence(s),
        0 <= i < s.len(),
    ensures
        s[i] == LoopCall::Update ==> i + 2 < s.len() && s[i + 1] == LoopCall::Draw && s[i + 2]
            == LoopCall::Swap,
        s[i] == LoopCall::Draw ==> i >= 1 && s[i - 1] == LoopCall::Update,
        s[i] == LoopCall::Swap ==> i >= 1 && s[i - 1] == LoopCall::Draw,
        s[i] == LoopCall::QuitEvent ==> i >= 1 && s[i - 1] == LoopCall::Swap,
    decreases s.len(),
{
    let four = seq![LoopCall::Update, LoopCall::Draw, LoopCall::Swap, LoopCall::QuitEvent];
    let three = seq![LoopCall::Update, LoopCall::Draw, LoopCall::Swap];
    let k: int = if s.len() >= 4 && s.take(4) == four { 4 } else { 3 };
    let tail = s.skip(k);
    if k == 4 {
        assert(s.take(4)[0] == s[0] && s.take(4)[1] == s[1] && s.take(4)[2] == s[2] && s.take(4)[3] == s[3]);
    } else {
        assert(s.len() >= 3 && s.take(3) == three);
        assert(s.take(3)[0] == s[0] && s.take(3)[1] == s[1] && s.take(3)[2] == s[2]);
    }
    if i >= k {
        lemma_frame_call_placed(tail, i - k);
        assert(tail[i - k] == s[i]);
        if i + 2 < s.len() {
            assert(tail[i - k + 1] == s[i + 1]);
            assert(tail[i - k + 2] == s[i + 2]);
        }
        if i > k {
            assert(tail[i - k - 1] == s[i - 1]);
        } else {
            lemma_frame_sequence_starts_with_update(tail);
        }
    }
}

/// The call at position `i` stands where frames put it: an `update` is
/// followed by a `draw` and then a swap, a `draw` comes right after an
/// `update`, a swap right after a `draw`, and a quit event right after a
/// swap.
pub open spec fn call_in_frame_order(s: Seq<LoopCall>, i: int) -> bool {
    &&& s[i] == LoopCall::Update ==> i + 2 < s.len() && s[i + 1] == LoopCall::Draw && s[i + 2]
        == LoopCall::Swap
    &&& s[i] == LoopCall::Draw ==> i >= 1 && s[i - 1] == LoopCall::Update
    &&& s[i] == LoopCall::Swap ==> i >= 1 && s[i - 1] == LoopCall::Draw
    &&& s[i] == LoopCall::QuitEvent ==> i >= 1 && s[i - 1] == LoopCall::Swap
}

/// In a sequence of whole frames every call stands in frame order.
pub proof fn lemma_frame_sequence_shape(s: Seq<LoopCall>)
    requires
        is_frame_sequence(s),
    ensures
        forall|i: int| 0 <= i < s.len() ==> #[trigger] call_in_frame_order(s, i),
{
    assert forall|i: int| 0 <= i < s.len() implies #[trigger] call_in_frame_order(s, i) by {
        lemma_frame_call_placed(s, i);
    }
}

} // verus!

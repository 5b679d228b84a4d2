//! The Windows producer: a WebView2 composition controller whose visual is
//! captured.
//!
//! Construction sets up the composition tree and the WebView2 environment.
//! Capture starts with the first frame that is asked for, so that a caller can
//! navigate first. Captured frames are copied into a shared texture that is kept
//! as long as the content size stays the same, and its handle is handed out once.
//!
//! The platform objects stay with the caller. This module says which calls to
//! make on them, in which order, and what the replies mean for the state.

use vstd::prelude::*;
use vstd::string::*;

use crate::geometry::{ClientRect, PhysicalSize, PixelOffset};
use crate::interop::{CapabilityStatus, InteropBackend, NativeFrameKind};
use crate::platform_call::{CallReply, CallSequence, PlatformCall};
use crate::text::push_extent;
use crate::texture::TextureFormat;
use crate::web_surface::{
    SurfaceReport, SystemWebviewBackend, WebSurfaceMode, WryWebSurfaceCapabilities,
    WryWebSurfaceError, WryWebSurfaceFrame,
};
use crate::webview2_script::nudge_script;
use crate::windows_capture::{session_closing_sequence, WebView2DxgiSharedHandleFrame};

verus! {

/// Configuration for [`WebView2CompositionProducer::new`].
#[derive(Clone, Debug)]
pub struct WebView2CompositionConfig {
    /// Initial size of the WebView visual and capture region.
    pub size: PhysicalSize,
    /// Offset of the root visual relative to the parent window.
    pub offset: PixelOffset,
    /// User-data directory for the WebView2 environment. Created if missing.
    pub user_data_dir: String,
    /// Color of a sprite visual placed under the WebView visual. Mostly useful
    /// as a diagnostic backstop while the WebView paints.
    pub diagnostic_backdrop: Option<(u8, u8, u8)>,
    /// Timeout for the wait for a navigation to complete, in milliseconds, where
    /// the caller gives none of its own.
    pub navigation_timeout_ms: u64,
    /// Timeout for the wait of `acquire_frame` on the frame pool, in milliseconds.
    pub frame_timeout_ms: u64,
}

impl WebView2CompositionConfig {
    /// A configuration with no offset, no backdrop, five seconds for a
    /// navigation and two seconds for a frame.
    pub fn new(size: PhysicalSize, user_data_dir: String) -> (r: Self)
        ensures
            r.size == size,
            r.offset == PixelOffset::zero(),
            r.user_data_dir@ == user_data_dir@,
            r.diagnostic_backdrop is None,
            r.navigation_timeout_ms == 5000,
            r.frame_timeout_ms == 2000,
    {
        WebView2CompositionConfig {
            size,
            offset: PixelOffset::zero(),
            user_data_dir,
            diagnostic_backdrop: None,
            navigation_timeout_ms: 5000,
            frame_timeout_ms: 2000,
        }
    }

    /// This configuration with another offset.
    pub fn with_offset(self, offset: PixelOffset) -> (r: Self)
        ensures
            r == (WebView2CompositionConfig { offset, ..self }),
    {
        WebView2CompositionConfig {
            size: self.size,
            offset,
            user_data_dir: self.user_data_dir,
            diagnostic_backdrop: self.diagnostic_backdrop,
            navigation_timeout_ms: self.navigation_timeout_ms,
            frame_timeout_ms: self.frame_timeout_ms,
        }
    }

    /// This configuration with a backdrop of the given color.
    pub fn with_diagnostic_backdrop(self, rgb: (u8, u8, u8)) -> (r: Self)
        ensures
            r == (WebView2CompositionConfig { diagnostic_backdrop: Some(rgb), ..self }),
    {
        WebView2CompositionConfig {
            size: self.size,
            offset: self.offset,
            user_data_dir: self.user_data_dir,
            diagnostic_backdrop: Some(rgb),
            navigation_timeout_ms: self.navigation_timeout_ms,
            frame_timeout_ms: self.frame_timeout_ms,
        }
    }
}

/// A color with its opacity.
#[derive(Clone, Copy, Debug, PartialEq, Eq, Structural)]
pub struct Color {
    pub a: u8,
    pub r: u8,
    pub g: u8,
    pub b: u8,
}

/// The calls that put a backdrop under the webview.
pub open spec fn backdrop_calls() -> Seq<PlatformCall> {
    seq![
        PlatformCall::CreateBackdropSprite,
        PlatformCall::SetBackdropSize,
        PlatformCall::CreateBackdropBrush,
        PlatformCall::SetBackdropBrush,
        PlatformCall::ListRootChildrenForBackdrop,
        PlatformCall::InsertBackdropAtBottom,
    ]
}

/// The calls that build the composition tree.
pub open spec fn visual_tree_calls(backdrop: bool) -> Seq<PlatformCall> {
    seq![
        PlatformCall::CreateCompositor,
        PlatformCall::CastCompositorInterop,
        PlatformCall::CreateDesktopWindowTarget,
        PlatformCall::CreateRootVisual,
        PlatformCall::SetRootOffset,
        PlatformCall::SetRootSize,
    ] + (if backdrop {
        backdrop_calls()
    } else {
        Seq::empty()
    }) + seq![
        PlatformCall::CreateWebviewVisual,
        PlatformCall::SetWebviewVisualSize,
        PlatformCall::ListRootChildrenForWebview,
        PlatformCall::InsertWebviewAtTop,
        PlatformCall::SetTargetRoot,
    ]
}

/// The calls that create a WebView2 which renders into the tree.
pub open spec fn webview_calls() -> Seq<PlatformCall> {
    seq![
        PlatformCall::CreateUserDataDir,
        PlatformCall::RequestEnvironment,
        PlatformCall::ReceiveEnvironment,
        PlatformCall::ReadEnvironmentResult,
        PlatformCall::CastEnvironment,
        PlatformCall::RequestController,
        PlatformCall::ReceiveController,
        PlatformCall::ReadControllerResult,
        PlatformCall::SetRootVisualTarget,
        PlatformCall::CastController,
        PlatformCall::SetControllerBounds,
        PlatformCall::SetControllerVisible,
        PlatformCall::GetCoreWebView,
    ]
}

/// The calls that set a producer up.
pub open spec fn setup_calls(backdrop: bool) -> Seq<PlatformCall> {
    visual_tree_calls(backdrop) + webview_calls()
        + crate::windows_capture::hardware_device_calls()
        + crate::windows_capture::winrt_device_calls()
}

/// The calls that give the visuals and the controller another size.
pub open spec fn resize_calls() -> Seq<PlatformCall> {
    seq![
        PlatformCall::ResizeRootVisual,
        PlatformCall::ResizeWebviewVisual,
        PlatformCall::SetControllerBounds,
    ]
}

/// What the calls that set a producer up are made with.
#[derive(Debug)]
pub struct SetupArguments {
    pub parent_hwnd: u64,
    pub size: PhysicalSize,
    pub offset: PixelOffset,
    pub user_data_dir: String,
    pub backdrop: Option<Color>,
    pub bounds: ClientRect,
}

/// A producer that is being set up.
#[derive(Debug)]
pub struct ProducerSetup {
    arguments: SetupArguments,
    navigation_timeout_ms: u64,
    frame_timeout_ms: u64,
    sequence: CallSequence,
}

impl ProducerSetup {
    /// The calls are those of a setup, for a size that is not empty.
    #[verifier::type_invariant]
    spec fn well_formed(&self) -> bool {
        &&& !self.arguments.size.is_empty()
        &&& self.sequence.calls() == setup_calls(self.arguments.backdrop is Some)
    }

    /// What the calls are made with.
    pub closed spec fn spec_arguments(&self) -> &SetupArguments {
        &self.arguments
    }

    /// How long a navigation of the producer may take.
    pub closed spec fn navigation_timeout_ms(&self) -> u64 {
        self.navigation_timeout_ms
    }

    /// How long a frame of the producer may take.
    pub closed spec fn frame_timeout_ms(&self) -> u64 {
        self.frame_timeout_ms
    }

    /// The calls of this setup, and how far it has come.
    pub closed spec fn sequence(&self) -> &CallSequence {
        &self.sequence
    }

    /// What the calls are made with.
    #[verifier::when_used_as_spec(spec_arguments)]
    pub fn arguments(&self) -> (r: &SetupArguments)
        ensures
            r == self.arguments(),
    {
        &self.arguments
    }

    /// The call that is due, if any is left.
    pub fn current(&self) -> (r: Option<PlatformCall>)
        ensures
            r == self.sequence().spec_current(),
    {
        self.sequence.current()
    }

    /// Reports the reply to the call that was due.
    pub fn report(&mut self, reply: &CallReply) -> (r: Result<(), WryWebSurfaceError>)
        requires
            old(self).sequence().spec_current() is Some,
            old(self).sequence().spec_current()->0.fits(reply),
        ensures
            final(self).sequence().follows(old(self).sequence(), reply, r),
            final(self).arguments() == old(self).arguments(),
            final(self).navigation_timeout_ms() == old(self).navigation_timeout_ms(),
            final(self).frame_timeout_ms() == old(self).frame_timeout_ms(),
    {
        proof {
            use_type_invariant(&*self);
        }
        match self.sequence.judge(reply) {
            Ok(()) => {
                self.sequence.advance(reply);
                Ok(())
            },
            Err(error) => Err(error),
        }
    }

    /// The producer, once every call of the setup has been accepted.
    pub fn finish(&self) -> (r: Option<WebView2CompositionProducer>)
        ensures
            r is Some <==> self.sequence().finished(),
            r is Some ==> self.sequence().calls() == setup_calls(self.arguments().backdrop is Some),
            r matches Some(producer) ==> producer@ == (ProducerView {
                size: self.arguments().size,
                generation: 0,
                capture: None,
                dest: None,
                navigation_timeout_ms: self.navigation_timeout_ms(),
                frame_timeout_ms: self.frame_timeout_ms(),
            }),
    {
        proof {
            use_type_invariant(self);
        }
        match self.sequence.current() {
            Some(_) => None,
            None => Some(
                WebView2CompositionProducer {
                    size: self.arguments.size,
                    generation: 0,
                    capture: None,
                    dest: None,
                    navigation_timeout_ms: self.navigation_timeout_ms,
                    frame_timeout_ms: self.frame_timeout_ms,
                },
            ),
        }
    }
}

/// A change of size that is being carried out.
#[derive(Debug)]
pub struct ResizeWork {
    from: PhysicalSize,
    size: PhysicalSize,
    sequence: CallSequence,
}

impl ResizeWork {
    /// The size is not empty, and the calls are those that a change takes.
    #[verifier::type_invariant]
    spec fn well_formed(&self) -> bool {
        &&& !self.size.is_empty()
        &&& self.sequence.calls() == (if self.size == self.from {
            Seq::empty()
        } else {
            resize_calls()
        })
    }

    /// The size that is left.
    pub closed spec fn from(&self) -> PhysicalSize {
        self.from
    }

    /// The size that is taken on.
    pub closed spec fn spec_size(&self) -> PhysicalSize {
        self.size
    }

    /// The calls of this change, and how far it has come.
    pub closed spec fn sequence(&self) -> &CallSequence {
        &self.sequence
    }

    /// The size that is taken on.
    #[verifier::when_used_as_spec(spec_size)]
    pub fn size(&self) -> (r: PhysicalSize)
        ensures
            r == self.size(),
            !r.is_empty(),
    {
        proof {
            use_type_invariant(self);
        }
        self.size
    }

    /// The bounds that the controller is given.
    pub fn bounds(&self) -> (r: ClientRect)
        ensures
            r == self.size().client_rect(),
    {
        self.size.client_rect()
    }

    /// The call that is due, if any is left.
    pub fn current(&self) -> (r: Option<PlatformCall>)
        ensures
            r == self.sequence().spec_current(),
    {
        self.sequence.current()
    }

    /// Reports the reply to the call that was due.
    pub fn report(&mut self, reply: &CallReply) -> (r: Result<(), WryWebSurfaceError>)
        requires
            old(self).sequence().spec_current() is Some,
            old(self).sequence().spec_current()->0.fits(reply),
        ensures
            final(self).sequence().follows(old(self).sequence(), reply, r),
            final(self).from() == old(self).from(),
            final(self).size() == old(self).size(),
    {
        proof {
            use_type_invariant(&*self);
        }
        match self.sequence.judge(reply) {
            Ok(()) => {
                self.sequence.advance(reply);
                Ok(())
            },
            Err(error) => Err(error),
        }
    }
}

/// A move of the root visual that is being carried out.
#[derive(Debug)]
pub struct OffsetWork {
    pub offset: PixelOffset,
    pub sequence: CallSequence,
}

/// Captured WebView frame ready to be imported.
///
/// When `resource_is_new` is `true`, this frame points at a freshly allocated
/// shared D3D11 texture that the consumer must (re-)import; the consumer owns
/// the NT handle and closes it after import.
///
/// When `resource_is_new` is `false`, the producer reused the previous
/// allocation: the consumer keeps its previously imported texture (whose
/// underlying memory was just overwritten) and ignores `shared_handle`.
pub struct WebView2CompositionFrame {
    pub frame: WryWebSurfaceFrame,
    pub content_size: PhysicalSize,
    pub generation: u64,
    pub shared_handle: u64,
    pub resource_is_new: bool,
}

/// A capture that is running.
#[derive(Clone, Copy, Debug, PartialEq, Eq, Structural)]
pub struct CaptureState {
    pub first_frame_emitted: bool,
}

/// A reusable shared destination texture and its NT handle. The handle is
/// exposed once, with `resource_is_new`; later frames reuse the texture.
#[derive(Clone, Copy, Debug, PartialEq, Eq, Structural)]
pub struct PersistentDest {
    pub size: PhysicalSize,
    pub shared_handle: u64,
    pub handle_handed_off: bool,
}

/// The state of a WebView2 + WinComp + WGC capture producer.
#[derive(Debug)]
pub struct WebView2CompositionProducer {
    size: PhysicalSize,
    generation: u64,
    capture: Option<CaptureState>,
    dest: Option<PersistentDest>,
    navigation_timeout_ms: u64,
    frame_timeout_ms: u64,
}

/// The contents of a [`WebView2CompositionProducer`].
pub struct ProducerView {
    pub size: PhysicalSize,
    pub generation: u64,
    pub capture: Option<CaptureState>,
    pub dest: Option<PersistentDest>,
    pub navigation_timeout_ms: u64,
    pub frame_timeout_ms: u64,
}

impl View for WebView2CompositionProducer {
    type V = ProducerView;

    closed spec fn view(&self) -> ProducerView {
        ProducerView {
            size: self.size,
            generation: self.generation,
            capture: self.capture,
            dest: self.dest,
            navigation_timeout_ms: self.navigation_timeout_ms,
            frame_timeout_ms: self.frame_timeout_ms,
        }
    }
}

impl ProducerView {
    /// Whether the next frame is preceded by a nudge: no frame of the running
    /// capture has been emitted yet, or none is running.
    pub open spec fn needs_nudge(self) -> bool {
        match self.capture {
            Some(capture) => !capture.first_frame_emitted,
            None => true,
        }
    }

    /// Whether the destination can hold content of the given size.
    pub open spec fn has_dest_for(self, content: PhysicalSize) -> bool {
        self.dest matches Some(dest) && dest.size == content
    }

    /// The number of the frame after this many.
    pub open spec fn next_generation(self) -> u64 {
        if self.generation == u64::MAX {
            u64::MAX
        } else {
            (self.generation + 1) as u64
        }
    }

    /// The state in which content of the given size has been captured: it is
    /// numbered, and a destination of another size is dropped.
    pub open spec fn with_content(self, content: PhysicalSize) -> ProducerView {
        ProducerView {
            generation: self.next_generation(),
            dest: if self.has_dest_for(content) {
                self.dest
            } else {
                None
            },
            ..self
        }
    }

    /// The state in which a new destination has been allocated.
    pub open spec fn with_new_dest(self, size: PhysicalSize, shared_handle: u64) -> ProducerView {
        ProducerView {
            dest: Some(PersistentDest { size, shared_handle, handle_handed_off: false }),
            ..self
        }
    }

    /// The state in which the frame in the destination has been handed over.
    pub open spec fn handed_over(self) -> ProducerView {
        ProducerView {
            capture: match self.capture {
                Some(_) => Some(CaptureState { first_frame_emitted: true }),
                None => None,
            },
            dest: match self.dest {
                Some(dest) => Some(PersistentDest { handle_handed_off: true, ..dest }),
                None => None,
            },
            ..self
        }
    }

    /// Whether `frame` is what the destination is handed over as.
    pub open spec fn hands_over(self, frame: WebView2CompositionFrame) -> bool {
        let dest = self.dest->0;
        &&& frame.content_size == dest.size
        &&& frame.generation == self.generation
        &&& frame.resource_is_new == !dest.handle_handed_off
        &&& frame.shared_handle == (if frame.resource_is_new {
            dest.shared_handle
        } else {
            0
        })
        &&& frame.frame == (WebView2DxgiSharedHandleFrame {
            size: dest.size,
            format: TextureFormat::Bgra8Unorm,
            generation: self.generation,
            shared_handle: frame.shared_handle,
        }).into_dx12_frame().into_surface_frame()
    }

    /// The state after a resize to another size: capture and destination are
    /// gone, the numbering goes on.
    pub open spec fn resized(self, size: PhysicalSize) -> ProducerView {
        ProducerView { size, capture: None, dest: None, ..self }
    }
}

/// What the producer advertises: the frames that it emits. Whether the host can
/// import them shows when it does.
pub open spec fn producer_report() -> SurfaceReport {
    SurfaceReport {
        backend: SystemWebviewBackend::WebView2,
        preferred_mode: WebSurfaceMode::ImportedTexture,
        imported_texture: CapabilityStatus::Supported,
        native_child_overlay: CapabilityStatus::Supported,
        cpu_snapshot: CapabilityStatus::Supported,
        supported_frames: seq![NativeFrameKind::Dx12SharedTexture],
        reason: "WebView2 CompositionController visual + Windows.Graphics.Capture + shared D3D11 NT-handle texture imported as Dx12SharedTexture.",
    }
}

fn size_error(what: &str, size: PhysicalSize) -> (r: WryWebSurfaceError)
    ensures
        r.is_platform(
            what@ + crate::text::extent_text(size.width as int, size.height as int),
        ),
{
    let mut out = what.to_owned();
    push_extent(&mut out, size.width, size.height);
    WryWebSurfaceError::Platform(out)
}

fn list_setup_calls(backdrop: bool) -> (r: Vec<PlatformCall>)
    ensures
        r@ == setup_calls(backdrop),
{
    let mut calls = vec![
        PlatformCall::CreateCompositor,
        PlatformCall::CastCompositorInterop,
        PlatformCall::CreateDesktopWindowTarget,
        PlatformCall::CreateRootVisual,
        PlatformCall::SetRootOffset,
        PlatformCall::SetRootSize,
    ];
    if backdrop {
        let mut more = vec![
            PlatformCall::CreateBackdropSprite,
            PlatformCall::SetBackdropSize,
            PlatformCall::CreateBackdropBrush,
            PlatformCall::SetBackdropBrush,
            PlatformCall::ListRootChildrenForBackdrop,
            PlatformCall::InsertBackdropAtBottom,
        ];
        calls.append(&mut more);
    }
    let mut rest = vec![
        PlatformCall::CreateWebviewVisual,
        PlatformCall::SetWebviewVisualSize,
        PlatformCall::ListRootChildrenForWebview,
        PlatformCall::InsertWebviewAtTop,
        PlatformCall::SetTargetRoot,
        PlatformCall::CreateUserDataDir,
        PlatformCall::RequestEnvironment,
        PlatformCall::ReceiveEnvironment,
        PlatformCall::ReadEnvironmentResult,
        PlatformCall::CastEnvironment,
        PlatformCall::RequestController,
        PlatformCall::ReceiveController,
        PlatformCall::ReadControllerResult,
        PlatformCall::SetRootVisualTarget,
        PlatformCall::CastController,
        PlatformCall::SetControllerBounds,
        PlatformCall::SetControllerVisible,
        PlatformCall::GetCoreWebView,
        PlatformCall::CreateD3d11Device,
        PlatformCall::TakeD3d11Device,
        PlatformCall::TakeD3d11Context,
        PlatformCall::CastDxgiDevice,
        PlatformCall::CreateWinrtDevice,
        PlatformCall::CastWinrtDevice,
    ];
    calls.append(&mut rest);
    assert(calls@ =~= setup_calls(backdrop));
    calls
}

impl WebView2CompositionProducer {
    /// The size is never empty.
    #[verifier::type_invariant]
    spec fn well_formed(&self) -> bool {
        !self.size.is_empty()
    }

    /// Begins to set a producer up in the window `parent_hwnd`. Capture is not
    /// started until the first frame is asked for.
    pub fn new(parent_hwnd: u64, config: WebView2CompositionConfig) -> (r: Result<
        ProducerSetup,
        WryWebSurfaceError,
    >)
        ensures
            r is Ok <==> parent_hwnd != 0 && !config.size.is_empty(),
            r matches Ok(setup) ==> {
                &&& setup.arguments().parent_hwnd == parent_hwnd
                &&& setup.arguments().size == config.size
                &&& setup.arguments().offset == config.offset
                &&& setup.arguments().user_data_dir@ == config.user_data_dir@
                &&& setup.arguments().backdrop == (match config.diagnostic_backdrop {
                    Some(rgb) => Some(Color { a: 255, r: rgb.0, g: rgb.1, b: rgb.2 }),
                    None => None,
                })
                &&& setup.arguments().bounds == config.size.client_rect()
                &&& setup.navigation_timeout_ms() == config.navigation_timeout_ms
                &&& setup.frame_timeout_ms() == config.frame_timeout_ms
                &&& setup.sequence().calls() == setup_calls(config.diagnostic_backdrop is Some)
                &&& setup.sequence().done() == 0
            },
            r matches Err(error) ==> error.is_platform(
                if parent_hwnd == 0 {
                    "parent HWND was null"@
                } else {
                    "WebView2 producer size must be non-zero, got "@ + crate::text::extent_text(
                        config.size.width as int,
                        config.size.height as int,
                    )
                },
            ),
    {
        if parent_hwnd == 0 {
            return Err(WryWebSurfaceError::Platform("parent HWND was null".to_owned()));
        }
        if config.size.is_empty() {
            return Err(size_error("WebView2 producer size must be non-zero, got ", config.size));
        }
        let backdrop = match config.diagnostic_backdrop {
            Some(rgb) => Some(Color { a: 255, r: rgb.0, g: rgb.1, b: rgb.2 }),
            None => None,
        };
        let calls = list_setup_calls(backdrop.is_some());
        Ok(
            ProducerSetup {
                arguments: SetupArguments {
                    parent_hwnd,
                    size: config.size,
                    offset: config.offset,
                    user_data_dir: config.user_data_dir,
                    backdrop,
                    bounds: config.size.client_rect(),
                },
                navigation_timeout_ms: config.navigation_timeout_ms,
                frame_timeout_ms: config.frame_timeout_ms,
                sequence: CallSequence::new(calls),
            },
        )
    }

    /// The size of the WebView visual and capture region, which is never empty.
    pub fn size(&self) -> (r: PhysicalSize)
        ensures
            r == self@.size,
            !r.is_empty(),
    {
        proof {
            use_type_invariant(self);
        }
        self.size
    }

    /// How many frames have been captured.
    pub fn generation(&self) -> (r: u64)
        ensures
            r == self@.generation,
    {
        self.generation
    }

    /// How long a navigation may take where the caller gives no time, in
    /// milliseconds.
    pub fn navigation_timeout_ms(&self) -> (r: u64)
        ensures
            r == self@.navigation_timeout_ms,
    {
        self.navigation_timeout_ms
    }

    /// How long a blocking acquire waits for a frame, in milliseconds.
    pub fn frame_timeout_ms(&self) -> (r: u64)
        ensures
            r == self@.frame_timeout_ms,
    {
        self.frame_timeout_ms
    }

    /// Whether a capture is running.
    pub fn is_capturing(&self) -> (r: bool)
        ensures
            r == (self@.capture is Some),
    {
        self.capture.is_some()
    }

    /// The calls that close a capture, where one is running.
    pub open spec fn closing_calls(&self) -> Seq<PlatformCall> {
        if self@.capture is Some {
            crate::windows_capture::session_closing_calls()
        } else {
            Seq::empty()
        }
    }

    /// Forgets the running capture, so that the next frame starts a fresh one.
    /// Returns the calls that close it.
    ///
    /// The destination is preserved: the consumer keeps its imported texture and
    /// imports again only if the content size changes.
    pub fn force_restart_capture(&mut self) -> (r: CallSequence)
        ensures
            r.calls() == old(self).closing_calls(),
            r.done() == 0,
            final(self)@ == (ProducerView { capture: None, ..old(self)@ }),
    {
        proof {
            use_type_invariant(&*self);
        }
        let running = self.capture.is_some();
        self.capture = None;
        if running {
            session_closing_sequence()
        } else {
            CallSequence::new(Vec::new())
        }
    }

    /// Drops the destination, so that the next frame allocates a fresh one and
    /// says so with `resource_is_new`.
    pub fn invalidate_persistent_dest(&mut self)
        ensures
            final(self)@ == (ProducerView { dest: None, ..old(self)@ }),
    {
        proof {
            use_type_invariant(&*self);
        }
        self.dest = None;
    }

    /// The call that moves the root visual relative to the parent window. The
    /// capture region follows the visual.
    pub fn set_offset(&self, offset: PixelOffset) -> (r: OffsetWork)
        ensures
            r.offset == offset,
            r.sequence.calls() == seq![PlatformCall::MoveRootVisual],
            r.sequence.done() == 0,
    {
        let calls = vec![PlatformCall::MoveRootVisual];
        assert(calls@ =~= seq![PlatformCall::MoveRootVisual]);
        OffsetWork { offset, sequence: CallSequence::new(calls) }
    }

    /// Begins to resize the visuals and the controller. An unchanged size needs
    /// no calls.
    pub fn resize(&self, size: PhysicalSize) -> (r: Result<ResizeWork, WryWebSurfaceError>)
        ensures
            r is Ok <==> !size.is_empty(),
            r matches Ok(work) ==> {
                &&& work.from() == self@.size
                &&& work.size() == size
                &&& work.sequence().calls() == (if size == self@.size {
                    Seq::empty()
                } else {
                    resize_calls()
                })
                &&& work.sequence().done() == 0
            },
            r matches Err(error) ==> error.is_platform(
                "WebView2 producer resize must be non-zero, got "@ + crate::text::extent_text(
                    size.width as int,
                    size.height as int,
                ),
            ),
    {
        if size.is_empty() {
            return Err(size_error("WebView2 producer resize must be non-zero, got ", size));
        }
        let mut calls: Vec<PlatformCall> = Vec::new();
        if size != self.size {
            calls.push(PlatformCall::ResizeRootVisual);
            calls.push(PlatformCall::ResizeWebviewVisual);
            calls.push(PlatformCall::SetControllerBounds);
            assert(calls@ =~= resize_calls());
        }
        Ok(ResizeWork { from: self.size, size, sequence: CallSequence::new(calls) })
    }

    /// Takes the new size over, once the calls of `work`, which has to be a change
    /// from the producer's own size, have been accepted. Returns the calls that
    /// close the running capture.
    ///
    /// A frame pool does not reliably go on against a resized visual, so the
    /// capture is given up along with the destination.
    pub fn finish_resize(&mut self, work: &ResizeWork) -> (r: CallSequence)
        ensures
            r.done() == 0,
            ({
                let changes = work.sequence().finished() && work.from() == old(self)@.size
                    && work.size() != work.from();
                &&& changes ==> work.sequence().calls() == resize_calls()
                &&& r.calls() == (if changes {
                    old(self).closing_calls()
                } else {
                    Seq::empty()
                })
                &&& final(self)@ == (if changes {
                    old(self)@.resized(work.size())
                } else {
                    old(self)@
                })
            }),
    {
        proof {
            use_type_invariant(&*self);
            use_type_invariant(work);
        }
        if work.sequence.current().is_some() || work.from != self.size || work.size == work.from {
            return CallSequence::new(Vec::new());
        }
        let running = self.capture.is_some();
        self.capture = None;
        self.dest = None;
        self.size = work.size;
        if running {
            session_closing_sequence()
        } else {
            CallSequence::new(Vec::new())
        }
    }

    /// The script of a repaint hint after a capture-state change.
    /// Composition-controller WebView2s do not always issue a fresh paint until
    /// something invalidates layout. It is run by the single call
    /// [`PlatformCall::ExecuteScript`].
    pub fn nudge_content(&self, label: &str) -> (r: (String, CallSequence))
        ensures
            r.0@ == crate::webview2_script::nudge_text(label@),
            r.1.calls() == seq![PlatformCall::ExecuteScript],
            r.1.done() == 0,
    {
        let calls = vec![PlatformCall::ExecuteScript];
        assert(calls@ =~= seq![PlatformCall::ExecuteScript]);
        (nudge_script(label), CallSequence::new(calls))
    }

    /// What the producer advertises.
    pub fn capabilities(&self) -> (r: WryWebSurfaceCapabilities)
        ensures
            r@ == producer_report(),
    {
        let r = WryWebSurfaceCapabilities {
            backend: SystemWebviewBackend::WebView2,
            preferred_mode: WebSurfaceMode::ImportedTexture,
            imported_texture: CapabilityStatus::Supported,
            native_child_overlay: CapabilityStatus::Supported,
            cpu_snapshot: CapabilityStatus::Supported,
            supported_frames: vec![NativeFrameKind::Dx12SharedTexture],
            reason: "WebView2 CompositionController visual + Windows.Graphics.Capture + shared D3D11 NT-handle texture imported as Dx12SharedTexture.",
        };
        assert(r.supported_frames@ =~= seq![NativeFrameKind::Dx12SharedTexture]);
        r
    }

    /// Whether the next frame is preceded by a nudge.
    pub(crate) fn needs_nudge(&self) -> (r: bool)
        ensures
            r == self@.needs_nudge(),
    {
        match self.capture {
            Some(capture) => !capture.first_frame_emitted,
            None => true,
        }
    }

    /// Notes that a capture has been started.
    pub(crate) fn capture_started(&mut self)
        ensures
            final(self)@ == (ProducerView {
                capture: Some(CaptureState { first_frame_emitted: false }),
                ..old(self)@
            }),
    {
        proof {
            use_type_invariant(&*self);
        }
        self.capture = Some(CaptureState { first_frame_emitted: false });
    }

    /// Notes that content of the given size has been captured. Returns whether a
    /// destination has to be allocated for it.
    pub(crate) fn note_content(&mut self, content: PhysicalSize) -> (r: bool)
        ensures
            r == !old(self)@.has_dest_for(content),
            final(self)@ == old(self)@.with_content(content),
    {
        proof {
            use_type_invariant(&*self);
        }
        self.generation = self.generation.saturating_add(1);
        let kept = match self.dest {
            Some(dest) => dest.size == content,
            None => false,
        };
        if !kept {
            self.dest = None;
        }
        !kept
    }

    /// Notes that a destination has been allocated.
    pub(crate) fn store_dest(&mut self, size: PhysicalSize, shared_handle: u64)
        ensures
            final(self)@ == old(self)@.with_new_dest(size, shared_handle),
    {
        proof {
            use_type_invariant(&*self);
        }
        self.dest = Some(PersistentDest { size, shared_handle, handle_handed_off: false });
    }

    /// Hands the frame in the destination over.
    pub(crate) fn hand_over(&mut self) -> (r: Option<WebView2CompositionFrame>)
        ensures
            r is Some <==> old(self)@.dest is Some,
            r matches Some(frame) ==> {
                &&& old(self)@.hands_over(frame)
                &&& final(self)@ == old(self)@.handed_over()
            },
            r is None ==> *final(self) == *old(self),
    {
        proof {
            use_type_invariant(&*self);
        }
        let dest = match self.dest {
            Some(dest) => dest,
            None => return None,
        };
        if self.capture.is_some() {
            self.capture = Some(CaptureState { first_frame_emitted: true });
        }
        let resource_is_new = !dest.handle_handed_off;
        let shared_handle: u64 = if resource_is_new {
            dest.shared_handle
        } else {
            0
        };
        self.dest = Some(
            PersistentDest {
                size: dest.size,
                shared_handle: dest.shared_handle,
                handle_handed_off: true,
            },
        );
        let surface_frame = WebView2DxgiSharedHandleFrame {
            size: dest.size,
            format: TextureFormat::Bgra8Unorm,
            generation: self.generation,
            shared_handle,
        }.into_surface_frame();
        Some(
            WebView2CompositionFrame {
                frame: surface_frame,
                content_size: dest.size,
                generation: self.generation,
                shared_handle,
                resource_is_new,
            },
        )
    }
}

/// The producer advertises what a probe reports for a Direct3D 12 host; only the
/// reason is its own.
pub proof fn producer_agrees_with_probe()
    ensures
        producer_report() == (SurfaceReport {
            reason: producer_report().reason,
            ..crate::web_surface::surface_report(
                SystemWebviewBackend::WebView2,
                Some(InteropBackend::Dx12),
            )
        }),
{
}

/// A layer of the composition tree.
pub enum Layer {
    Backdrop,
    Webview,
}

/// The layers that a list of calls leaves in the tree, from bottom to top.
pub open spec fn layers(calls: Seq<PlatformCall>) -> Seq<Layer>
    decreases calls.len(),
{
    if calls.len() == 0 {
        Seq::empty()
    } else {
        let below = layers(calls.drop_last());
        match calls.last() {
            PlatformCall::InsertBackdropAtBottom => seq![Layer::Backdrop] + below,
            PlatformCall::InsertWebviewAtTop => below.push(Layer::Webview),
            _ => below,
        }
    }
}

/// Calls that insert no visual add no layer.
proof fn layers_of_concatenation(first: Seq<PlatformCall>, second: Seq<PlatformCall>)
    requires
        forall|i: int|
            0 <= i < second.len() ==> !(#[trigger] second[i] is InsertBackdropAtBottom)
                && !(second[i] is InsertWebviewAtTop),
    ensures
        layers(first + second) == layers(first),
    decreases second.len(),
{
    if second.len() == 0 {
        assert(first + second =~= first);
    } else {
        layers_of_concatenation(first, second.drop_last());
        assert((first + second).drop_last() =~= first + second.drop_last());
    }
}

/// The webview lies on top of the tree, above the backdrop if there is one.
pub proof fn webview_lies_on_top(backdrop: bool)
    ensures
        layers(setup_calls(backdrop)) == (if backdrop {
            seq![Layer::Backdrop, Layer::Webview]
        } else {
            seq![Layer::Webview]
        }),
{
    let calls = setup_calls(backdrop);
    let at: int = if backdrop {
        15
    } else {
        9
    };
    layers_of_concatenation(calls.take(at + 1), calls.skip(at + 1));
    assert(calls.take(at + 1) + calls.skip(at + 1) =~= calls);
    assert(calls.take(at + 1).drop_last() =~= calls.take(at));
    if backdrop {
        layers_of_concatenation(calls.take(12), calls.subrange(12, at));
        assert(calls.take(12) + calls.subrange(12, at) =~= calls.take(at));
        assert(calls.take(12).drop_last() =~= calls.take(11));
        layers_of_concatenation(Seq::empty(), calls.take(11));
        assert(Seq::<PlatformCall>::empty() + calls.take(11) =~= calls.take(11));
        assert(layers(calls.take(12)) =~= seq![Layer::Backdrop]);
        assert(layers(calls.take(at + 1)) =~= seq![Layer::Backdrop, Layer::Webview]);
    } else {
        layers_of_concatenation(Seq::empty(), calls.take(at));
        assert(Seq::<PlatformCall>::empty() + calls.take(at) =~= calls.take(at));
        assert(layers(calls.take(at + 1)) =~= seq![Layer::Webview]);
    }
}

impl ProducerView {
    /// The state in which content of the given size lies in the destination;
    /// `fresh` is the handle of the destination that is allocated if need be.
    pub open spec fn with_frame(self, content: PhysicalSize, fresh: u64) -> ProducerView {
        let noted = self.with_content(content);
        if noted.dest is Some {
            noted
        } else {
            noted.with_new_dest(content, fresh)
        }
    }

    /// The state after the first `n` of a run of frames have been handed over.
    pub open spec fn after_frames(
        self,
        contents: Seq<PhysicalSize>,
        fresh: Seq<u64>,
        n: nat,
    ) -> ProducerView
        decreases n,
    {
        if n == 0 {
            self
        } else {
            let before = self.after_frames(contents, fresh, (n - 1) as nat);
            before.with_frame(contents[n - 1], fresh[n - 1]).handed_over()
        }
    }

    /// Whether frame `i` of a run is handed over as a new resource.
    pub open spec fn frame_is_new(
        self,
        contents: Seq<PhysicalSize>,
        fresh: Seq<u64>,
        i: nat,
    ) -> bool {
        let before = self.after_frames(contents, fresh, i);
        !before.with_frame(contents[i as int], fresh[i as int]).dest->0.handle_handed_off
    }

    /// The handle that a consumer has imported last after `n` frames of a run.
    pub open spec fn imported_handle(
        self,
        contents: Seq<PhysicalSize>,
        fresh: Seq<u64>,
        n: nat,
    ) -> Option<u64>
        decreases n,
    {
        if n == 0 {
            None
        } else if self.frame_is_new(contents, fresh, (n - 1) as nat) {
            let before = self.after_frames(contents, fresh, (n - 1) as nat);
            Some(before.with_frame(contents[n - 1], fresh[n - 1]).dest->0.shared_handle)
        } else {
            self.imported_handle(contents, fresh, (n - 1) as nat)
        }
    }
}

proof fn run_state(v: ProducerView, contents: Seq<PhysicalSize>, fresh: Seq<u64>, n: nat)
    requires
        v.dest is None,
        0 < n <= contents.len(),
        contents.len() == fresh.len(),
    ensures
        ({
            let dest = v.after_frames(contents, fresh, n).dest;
            &&& dest is Some
            &&& dest->0.size == contents[n - 1]
            &&& dest->0.handle_handed_off
            &&& v.imported_handle(contents, fresh, n) == Some(dest->0.shared_handle)
        }),
    decreases n,
{
    if n > 1 {
        run_state(v, contents, fresh, (n - 1) as nat);
    } else {
        assert(v.after_frames(contents, fresh, 0) == v);
    }
}

/// A consumer imports once per change of the content size: in a run of frames
/// that starts without a destination, a frame is a new resource exactly if it is
/// the first one or its content has another size than the one before.
pub proof fn frame_is_new_where_content_changed(
    v: ProducerView,
    contents: Seq<PhysicalSize>,
    fresh: Seq<u64>,
    i: nat,
)
    requires
        v.dest is None,
        i < contents.len(),
        contents.len() == fresh.len(),
    ensures
        v.frame_is_new(contents, fresh, i) <==> i == 0 || contents[i as int] != contents[i - 1],
{
    if i > 0 {
        run_state(v, contents, fresh, i);
    } else {
        assert(v.after_frames(contents, fresh, 0) == v);
    }
}

/// What a consumer has imported last is what the producer writes to: after every
/// frame of a run that starts without a destination, the handle that was handed
/// out last is the destination's, and the destination has the content's size.
pub proof fn consumer_holds_the_destination(
    v: ProducerView,
    contents: Seq<PhysicalSize>,
    fresh: Seq<u64>,
    n: nat,
)
    requires
        v.dest is None,
        0 < n <= contents.len(),
        contents.len() == fresh.len(),
    ensures
        v.after_frames(contents, fresh, n).dest matches Some(dest) && {
            &&& dest.size == contents[n - 1]
            &&& v.imported_handle(contents, fresh, n) == Some(dest.shared_handle)
        },
{
    run_state(v, contents, fresh, n);
}

/// The handle of a destination is handed out exactly once: after it has been,
/// every frame of the same content size is handed over without it.
pub proof fn handle_is_handed_out_once(
    v: ProducerView,
    content: PhysicalSize,
    fresh: u64,
    later: u64,
    first: WebView2CompositionFrame,
    second: WebView2CompositionFrame,
)
    requires
        v.with_frame(content, fresh).hands_over(first),
        v.with_frame(content, fresh).handed_over().with_frame(content, later).hands_over(second),
    ensures
        !second.resource_is_new,
        second.shared_handle == 0,
        !v.has_dest_for(content) ==> first.resource_is_new && first.shared_handle == fresh,
{
}

/// A resize, and dropping the destination, make the next frame a new resource.
/// Restarting the capture does not: it changes nothing about the next frame's
/// resource.
pub proof fn new_resource_after_resize_but_not_after_restart(
    v: ProducerView,
    size: PhysicalSize,
    content: PhysicalSize,
    fresh: u64,
    frame: WebView2CompositionFrame,
)
    ensures
        v.resized(size).with_frame(content, fresh).hands_over(frame) ==> frame.resource_is_new
            && frame.shared_handle == fresh,
        (ProducerView { dest: None, ..v }).with_frame(content, fresh).hands_over(frame)
            ==> frame.resource_is_new && frame.shared_handle == fresh,
        (ProducerView { capture: None, ..v }).with_frame(content, fresh).dest == v.with_frame(
            content,
            fresh,
        ).dest,
{
}

/// Frames are numbered consecutively, until the numbers run out.
pub proof fn frames_are_numbered(
    v: ProducerView,
    contents: Seq<PhysicalSize>,
    fresh: Seq<u64>,
    n: nat,
)
    requires
        n <= contents.len(),
        contents.len() == fresh.len(),
    ensures
        v.after_frames(contents, fresh, n).generation == (if v.generation + n <= u64::MAX {
            v.generation + n
        } else {
            u64::MAX as int
        }),
    decreases n,
{
    if n > 0 {
        frames_are_numbered(v, contents, fresh, (n - 1) as nat);
    }
}

/// A setup does nothing twice, and only a backdrop adds to it.
#[verifier::rlimit(50)]
pub proof fn setup_does_nothing_twice(backdrop: bool)
    ensures
        setup_calls(backdrop).no_duplicates(),
        setup_calls(backdrop).len() == (if backdrop {
            36
        } else {
            30int
        }),
{
}

/// Nothing is used before it is there: in a setup each object is made before the calls
/// that use it, and the webview is in the tree before the tree is shown.
#[verifier::rlimit(50)]
pub proof fn setup_makes_before_it_uses(calls: Seq<PlatformCall>, backdrop: bool)
    requires
        calls == setup_calls(backdrop),
    ensures
        crate::platform_call::comes_before(
            calls,
            PlatformCall::CreateCompositor,
            PlatformCall::CastCompositorInterop,
        ),
        crate::platform_call::comes_before(
            calls,
            PlatformCall::CastCompositorInterop,
            PlatformCall::CreateDesktopWindowTarget,
        ),
        crate::platform_call::comes_before(
            calls,
            PlatformCall::CreateCompositor,
            PlatformCall::CreateRootVisual,
        ),
        crate::platform_call::comes_before(
            calls,
            PlatformCall::CreateRootVisual,
            PlatformCall::SetRootOffset,
        ),
        crate::platform_call::comes_before(
            calls,
            PlatformCall::CreateRootVisual,
            PlatformCall::SetRootSize,
        ),
        crate::platform_call::comes_before(
            calls,
            PlatformCall::CreateCompositor,
            PlatformCall::CreateWebviewVisual,
        ),
        crate::platform_call::comes_before(
            calls,
            PlatformCall::CreateWebviewVisual,
            PlatformCall::SetWebviewVisualSize,
        ),
        crate::platform_call::comes_before(
            calls,
            PlatformCall::CreateRootVisual,
            PlatformCall::ListRootChildrenForWebview,
        ),
        crate::platform_call::comes_before(
            calls,
            PlatformCall::ListRootChildrenForWebview,
            PlatformCall::InsertWebviewAtTop,
        ),
        crate::platform_call::comes_before(
            calls,
            PlatformCall::CreateWebviewVisual,
            PlatformCall::InsertWebviewAtTop,
        ),
        crate::platform_call::comes_before(
            calls,
            PlatformCall::CreateDesktopWindowTarget,
            PlatformCall::SetTargetRoot,
        ),
        crate::platform_call::comes_before(
            calls,
            PlatformCall::InsertWebviewAtTop,
            PlatformCall::SetTargetRoot,
        ),
        crate::platform_call::comes_before(
            calls,
            PlatformCall::CreateUserDataDir,
            PlatformCall::RequestEnvironment,
        ),
        crate::platform_call::comes_before(
            calls,
            PlatformCall::RequestEnvironment,
            PlatformCall::ReceiveEnvironment,
        ),
        crate::platform_call::comes_before(
            calls,
            PlatformCall::ReceiveEnvironment,
            PlatformCall::ReadEnvironmentResult,
        ),
        crate::platform_call::comes_before(
            calls,
            PlatformCall::ReadEnvironmentResult,
            PlatformCall::CastEnvironment,
        ),
        crate::platform_call::comes_before(
            calls,
            PlatformCall::CastEnvironment,
            PlatformCall::RequestController,
        ),
        crate::platform_call::comes_before(
            calls,
            PlatformCall::RequestController,
            PlatformCall::ReceiveController,
        ),
        crate::platform_call::comes_before(
            calls,
            PlatformCall::ReceiveController,
            PlatformCall::ReadControllerResult,
        ),
        crate::platform_call::comes_before(
            calls,
            PlatformCall::ReadControllerResult,
            PlatformCall::SetRootVisualTarget,
        ),
        crate::platform_call::comes_before(
            calls,
            PlatformCall::CreateWebviewVisual,
            PlatformCall::SetRootVisualTarget,
        ),
        crate::platform_call::comes_before(
            calls,
            PlatformCall::ReadControllerResult,
            PlatformCall::CastController,
        ),
        crate::platform_call::comes_before(
            calls,
            PlatformCall::CastController,
            PlatformCall::SetControllerBounds,
        ),
        crate::platform_call::comes_before(
            calls,
            PlatformCall::CastController,
            PlatformCall::SetControllerVisible,
        ),
        crate::platform_call::comes_before(
            calls,
            PlatformCall::CastController,
            PlatformCall::GetCoreWebView,
        ),
        crate::platform_call::comes_before(
            calls,
            PlatformCall::CreateD3d11Device,
            PlatformCall::TakeD3d11Device,
        ),
        crate::platform_call::comes_before(
            calls,
            PlatformCall::CreateD3d11Device,
            PlatformCall::TakeD3d11Context,
        ),
        crate::platform_call::comes_before(
            calls,
            PlatformCall::TakeD3d11Device,
            PlatformCall::CastDxgiDevice,
        ),
        crate::platform_call::comes_before(
            calls,
            PlatformCall::CastDxgiDevice,
            PlatformCall::CreateWinrtDevice,
        ),
        crate::platform_call::comes_before(
            calls,
            PlatformCall::CreateWinrtDevice,
            PlatformCall::CastWinrtDevice,
        ),
{
    if backdrop {
        assert(calls[0] == PlatformCall::CreateCompositor);
        assert(calls[1] == PlatformCall::CastCompositorInterop);
        assert(calls[2] == PlatformCall::CreateDesktopWindowTarget);
        assert(calls[3] == PlatformCall::CreateRootVisual);
        assert(calls[4] == PlatformCall::SetRootOffset);
        assert(calls[5] == PlatformCall::SetRootSize);
        assert(calls[12] == PlatformCall::CreateWebviewVisual);
        assert(calls[13] == PlatformCall::SetWebviewVisualSize);
        assert(calls[14] == PlatformCall::ListRootChildrenForWebview);
        assert(calls[15] == PlatformCall::InsertWebviewAtTop);
        assert(calls[16] == PlatformCall::SetTargetRoot);
        assert(calls[17] == PlatformCall::CreateUserDataDir);
        assert(calls[18] == PlatformCall::RequestEnvironment);
        assert(calls[19] == PlatformCall::ReceiveEnvironment);
        assert(calls[20] == PlatformCall::ReadEnvironmentResult);
        assert(calls[21] == PlatformCall::CastEnvironment);
        assert(calls[22] == PlatformCall::RequestController);
        assert(calls[23] == PlatformCall::ReceiveController);
        assert(calls[24] == PlatformCall::ReadControllerResult);
        assert(calls[25] == PlatformCall::SetRootVisualTarget);
        assert(calls[26] == PlatformCall::CastController);
        assert(calls[27] == PlatformCall::SetControllerBounds);
        assert(calls[28] == PlatformCall::SetControllerVisible);
        assert(calls[29] == PlatformCall::GetCoreWebView);
        assert(calls[30] == PlatformCall::CreateD3d11Device);
        assert(calls[31] == PlatformCall::TakeD3d11Device);
        assert(calls[32] == PlatformCall::TakeD3d11Context);
        assert(calls[33] == PlatformCall::CastDxgiDevice);
        assert(calls[34] == PlatformCall::CreateWinrtDevice);
        assert(calls[35] == PlatformCall::CastWinrtDevice);
        crate::platform_call::earlier_call_comes_before(calls, 0, 1);
        crate::platform_call::earlier_call_comes_before(calls, 1, 2);
        crate::platform_call::earlier_call_comes_before(calls, 0, 3);
        crate::platform_call::earlier_call_comes_before(calls, 3, 4);
        crate::platform_call::earlier_call_comes_before(calls, 3, 5);
        crate::platform_call::earlier_call_comes_before(calls, 0, 12);
        crate::platform_call::earlier_call_comes_before(calls, 12, 13);
        crate::platform_call::earlier_call_comes_before(calls, 3, 14);
        crate::platform_call::earlier_call_comes_before(calls, 14, 15);
        crate::platform_call::earlier_call_comes_before(calls, 12, 15);
        crate::platform_call::earlier_call_comes_before(calls, 2, 16);
        crate::platform_call::earlier_call_comes_before(calls, 15, 16);
        crate::platform_call::earlier_call_comes_before(calls, 17, 18);
        crate::platform_call::earlier_call_comes_before(calls, 18, 19);
        crate::platform_call::earlier_call_comes_before(calls, 19, 20);
        crate::platform_call::earlier_call_comes_before(calls, 20, 21);
        crate::platform_call::earlier_call_comes_before(calls, 21, 22);
        crate::platform_call::earlier_call_comes_before(calls, 22, 23);
        crate::platform_call::earlier_call_comes_before(calls, 23, 24);
        crate::platform_call::earlier_call_comes_before(calls, 24, 25);
        crate::platform_call::earlier_call_comes_before(calls, 12, 25);
        crate::platform_call::earlier_call_comes_before(calls, 24, 26);
        crate::platform_call::earlier_call_comes_before(calls, 26, 27);
        crate::platform_call::earlier_call_comes_before(calls, 26, 28);
        crate::platform_call::earlier_call_comes_before(calls, 26, 29);
        crate::platform_call::earlier_call_comes_before(calls, 30, 31);
        crate::platform_call::earlier_call_comes_before(calls, 30, 32);
        crate::platform_call::earlier_call_comes_before(calls, 31, 33);
        crate::platform_call::earlier_call_comes_before(calls, 33, 34);
        crate::platform_call::earlier_call_comes_before(calls, 34, 35);
    } else {
        assert(calls[0] == PlatformCall::CreateCompositor);
        assert(calls[1] == PlatformCall::CastCompositorInterop);
        assert(calls[2] == PlatformCall::CreateDesktopWindowTarget);
        assert(calls[3] == PlatformCall::CreateRootVisual);
        assert(calls[4] == PlatformCall::SetRootOffset);
        assert(calls[5] == PlatformCall::SetRootSize);
        assert(calls[6] == PlatformCall::CreateWebviewVisual);
        assert(calls[7] == PlatformCall::SetWebviewVisualSize);
        assert(calls[8] == PlatformCall::ListRootChildrenForWebview);
        assert(calls[9] == PlatformCall::InsertWebviewAtTop);
        assert(calls[10] == PlatformCall::SetTargetRoot);
        assert(calls[11] == PlatformCall::CreateUserDataDir);
        assert(calls[12] == PlatformCall::RequestEnvironment);
        assert(calls[13] == PlatformCall::ReceiveEnvironment);
        assert(calls[14] == PlatformCall::ReadEnvironmentResult);
        assert(calls[15] == PlatformCall::CastEnvironment);
        assert(calls[16] == PlatformCall::RequestController);
        assert(calls[17] == PlatformCall::ReceiveController);
        assert(calls[18] == PlatformCall::ReadControllerResult);
        assert(calls[19] == PlatformCall::SetRootVisualTarget);
        assert(calls[20] == PlatformCall::CastController);
        assert(calls[21] == PlatformCall::SetControllerBounds);
        assert(calls[22] == PlatformCall::SetControllerVisible);
        assert(calls[23] == PlatformCall::GetCoreWebView);
        assert(calls[24] == PlatformCall::CreateD3d11Device);
        assert(calls[25] == PlatformCall::TakeD3d11Device);
        assert(calls[26] == PlatformCall::TakeD3d11Context);
        assert(calls[27] == PlatformCall::CastDxgiDevice);
        assert(calls[28] == PlatformCall::CreateWinrtDevice);
        assert(calls[29] == PlatformCall::CastWinrtDevice);
        crate::platform_call::earlier_call_comes_before(calls, 0, 1);
        crate::platform_call::earlier_call_comes_before(calls, 1, 2);
        crate::platform_call::earlier_call_comes_before(calls, 0, 3);
        crate::platform_call::earlier_call_comes_before(calls, 3, 4);
        crate::platform_call::earlier_call_comes_before(calls, 3, 5);
        crate::platform_call::earlier_call_comes_before(calls, 0, 6);
        crate::platform_call::earlier_call_comes_before(calls, 6, 7);
        crate::platform_call::earlier_call_comes_before(calls, 3, 8);
        crate::platform_call::earlier_call_comes_before(calls, 8, 9);
        crate::platform_call::earlier_call_comes_before(calls, 6, 9);
        crate::platform_call::earlier_call_comes_before(calls, 2, 10);
        crate::platform_call::earlier_call_comes_before(calls, 9, 10);
        crate::platform_call::earlier_call_comes_before(calls, 11, 12);
        crate::platform_call::earlier_call_comes_before(calls, 12, 13);
        crate::platform_call::earlier_call_comes_before(calls, 13, 14);
        crate::platform_call::earlier_call_comes_before(calls, 14, 15);
        crate::platform_call::earlier_call_comes_before(calls, 15, 16);
        crate::platform_call::earlier_call_comes_before(calls, 16, 17);
        crate::platform_call::earlier_call_comes_before(calls, 17, 18);
        crate::platform_call::earlier_call_comes_before(calls, 18, 19);
        crate::platform_call::earlier_call_comes_before(calls, 6, 19);
        crate::platform_call::earlier_call_comes_before(calls, 18, 20);
        crate::platform_call::earlier_call_comes_before(calls, 20, 21);
        crate::platform_call::earlier_call_comes_before(calls, 20, 22);
        crate::platform_call::earlier_call_comes_before(calls, 20, 23);
        crate::platform_call::earlier_call_comes_before(calls, 24, 25);
        crate::platform_call::earlier_call_comes_before(calls, 24, 26);
        crate::platform_call::earlier_call_comes_before(calls, 25, 27);
        crate::platform_call::earlier_call_comes_before(calls, 27, 28);
        crate::platform_call::earlier_call_comes_before(calls, 28, 29);
    }
}

/// A backdrop is made before it is used: it has its size and its color before it is put
/// into the tree.
pub proof fn backdrop_is_made_before_it_is_shown(calls: Seq<PlatformCall>)
    requires
        calls == setup_calls(true),
    ensures
        crate::platform_call::comes_before(
            calls,
            PlatformCall::CreateCompositor,
            PlatformCall::CreateBackdropSprite,
        ),
        crate::platform_call::comes_before(
            calls,
            PlatformCall::CreateBackdropSprite,
            PlatformCall::SetBackdropSize,
        ),
        crate::platform_call::comes_before(
            calls,
            PlatformCall::CreateCompositor,
            PlatformCall::CreateBackdropBrush,
        ),
        crate::platform_call::comes_before(
            calls,
            PlatformCall::CreateBackdropSprite,
            PlatformCall::SetBackdropBrush,
        ),
        crate::platform_call::comes_before(
            calls,
            PlatformCall::CreateBackdropBrush,
            PlatformCall::SetBackdropBrush,
        ),
        crate::platform_call::comes_before(
            calls,
            PlatformCall::CreateRootVisual,
            PlatformCall::ListRootChildrenForBackdrop,
        ),
        crate::platform_call::comes_before(
            calls,
            PlatformCall::ListRootChildrenForBackdrop,
            PlatformCall::InsertBackdropAtBottom,
        ),
        crate::platform_call::comes_before(
            calls,
            PlatformCall::SetBackdropBrush,
            PlatformCall::InsertBackdropAtBottom,
        ),
{
    assert(calls[0] == PlatformCall::CreateCompositor);
    assert(calls[3] == PlatformCall::CreateRootVisual);
    assert(calls[6] == PlatformCall::CreateBackdropSprite);
    assert(calls[7] == PlatformCall::SetBackdropSize);
    assert(calls[8] == PlatformCall::CreateBackdropBrush);
    assert(calls[9] == PlatformCall::SetBackdropBrush);
    assert(calls[10] == PlatformCall::ListRootChildrenForBackdrop);
    assert(calls[11] == PlatformCall::InsertBackdropAtBottom);
    crate::platform_call::earlier_call_comes_before(calls, 0, 6);
    crate::platform_call::earlier_call_comes_before(calls, 6, 7);
    crate::platform_call::earlier_call_comes_before(calls, 0, 8);
    crate::platform_call::earlier_call_comes_before(calls, 6, 9);
    crate::platform_call::earlier_call_comes_before(calls, 8, 9);
    crate::platform_call::earlier_call_comes_before(calls, 3, 10);
    crate::platform_call::earlier_call_comes_before(calls, 10, 11);
    crate::platform_call::earlier_call_comes_before(calls, 9, 11);
}

/// A handed-over frame describes the destination that it lies in: the native frame has
/// the destination's size, the format whose DXGI format the destination was created
/// with, the number of the frame, and the handle that goes with it.
pub proof fn handed_over_frame_describes_the_destination(
    v: ProducerView,
    frame: WebView2CompositionFrame,
    dxgi: crate::windows_capture::DxgiFormat,
)
    requires
        v.dest is Some,
        v.hands_over(frame),
        frame.frame matches WryWebSurfaceFrame::Native(
            crate::interop::NativeFrame::Dx12SharedTexture(native),
        ) ==> call_ensures(
            crate::windows_capture::dxgi_format_for_wgpu,
            (native.format,),
            Ok::<crate::windows_capture::DxgiFormat, WryWebSurfaceError>(dxgi),
        ),
    ensures
        frame.content_size == v.dest->0.size,
        frame.generation == v.generation,
        frame.frame matches WryWebSurfaceFrame::Native(
            crate::interop::NativeFrame::Dx12SharedTexture(native),
        ) && {
            &&& dxgi == crate::windows_capture::DxgiFormat::B8G8R8A8Unorm
            &&& native.format == TextureFormat::Bgra8Unorm
            &&& native.size.width == v.dest->0.size.width
            &&& native.size.height == v.dest->0.size.height
            &&& native.generation == v.generation
            &&& native.handle == frame.shared_handle
            &&& native.producer_sync == crate::sync::SyncMechanism::Unsynchronized
        },
        frame.resource_is_new ==> frame.shared_handle == v.dest->0.shared_handle,
        frame.resource_is_new <==> !v.dest->0.handle_handed_off,
        !frame.resource_is_new ==> frame.shared_handle == 0,
{
}

/// Captured content is numbered and nothing else of the producer changes but its
/// destination, which is kept exactly if it has the content's size.
pub proof fn content_changes_only_number_and_destination(v: ProducerView, content: PhysicalSize)
    ensures
        ({
            let after = v.with_content(content);
            &&& v.generation < u64::MAX ==> after.generation == v.generation + 1
            &&& v.generation == u64::MAX ==> after.generation == u64::MAX
            &&& after.size == v.size
            &&& after.capture == v.capture
            &&& after.navigation_timeout_ms == v.navigation_timeout_ms
            &&& after.frame_timeout_ms == v.frame_timeout_ms
            &&& after.dest is Some <==> (v.dest matches Some(dest) && dest.size.width
                == content.width && dest.size.height == content.height)
            &&& after.dest is Some ==> after.dest == v.dest
        }),
{
}

/// A new destination is the one that was allocated, and its handle has not been handed
/// out; handing a frame over marks that, and that the capture has emitted a frame, and
/// changes nothing else.
pub proof fn handing_over_changes_only_its_marks(
    v: ProducerView,
    size: PhysicalSize,
    shared_handle: u64,
)
    ensures
        ({
            let fresh = v.with_new_dest(size, shared_handle);
            &&& fresh.dest matches Some(dest) && dest.size == size && dest.shared_handle
                == shared_handle && !dest.handle_handed_off
            &&& fresh.generation == v.generation
            &&& fresh.size == v.size
            &&& fresh.capture == v.capture
            &&& fresh.navigation_timeout_ms == v.navigation_timeout_ms
            &&& fresh.frame_timeout_ms == v.frame_timeout_ms
        }),
        ({
            let after = v.handed_over();
            &&& after.generation == v.generation
            &&& after.size == v.size
            &&& after.navigation_timeout_ms == v.navigation_timeout_ms
            &&& after.frame_timeout_ms == v.frame_timeout_ms
            &&& after.capture is Some <==> v.capture is Some
            &&& after.capture matches Some(capture) ==> capture.first_frame_emitted
            &&& after.dest is Some <==> v.dest is Some
            &&& after.dest matches Some(dest) ==> dest.handle_handed_off && dest.size
                == v.dest->0.size && dest.shared_handle == v.dest->0.shared_handle
        }),
{
}

/// The page is nudged before the first frame of a capture and before no other: a
/// capture that has just started is nudged, one that has handed a frame over is not,
/// and without a capture the next one is.
pub proof fn page_is_nudged_once_per_capture(v: ProducerView)
    ensures
        v.capture is None ==> v.needs_nudge(),
        (ProducerView {
            capture: Some(CaptureState { first_frame_emitted: false }),
            ..v
        }).needs_nudge(),
        v.capture is Some ==> !v.handed_over().needs_nudge(),
        v.capture is Some && v.needs_nudge() ==> !v.capture->0.first_frame_emitted,
{
}

/// A producer takes a new size over once the visuals and the controller have it, and
/// then neither its capture nor its destination survive; what ran is closed, and the
/// numbering goes on. An unfinished change changes nothing.
pub proof fn resize_starts_over(
    producer: &mut WebView2CompositionProducer,
    work: &ResizeWork,
    closing: CallSequence,
)
    requires
        work.from() == producer@.size,
        call_ensures(WebView2CompositionProducer::finish_resize, (producer, work), closing),
    ensures
        !work.sequence().finished() ==> final(producer)@ == old(producer)@,
        work.sequence().finished() ==> final(producer)@.size == work.size(),
        work.sequence().finished() && work.size() != old(producer)@.size ==> {
            &&& final(producer)@.capture is None
            &&& final(producer)@.dest is None
            &&& old(producer)@.capture is Some ==> closing.calls() == seq![
                PlatformCall::CloseCaptureSession,
                PlatformCall::CloseFramePool,
            ]
        },
        work.size() == old(producer)@.size ==> final(producer)@ == old(producer)@,
        old(producer)@.capture is None ==> closing.calls().len() == 0,
        final(producer)@.generation == old(producer)@.generation,
        final(producer)@.navigation_timeout_ms == old(producer)@.navigation_timeout_ms,
        final(producer)@.frame_timeout_ms == old(producer)@.frame_timeout_ms,
{
}

/// A change of size gives it to the root, the webview and the controller, each once,
/// and the controller's bounds cover just that size; no change needs no calls, and an
/// empty size is refused.
pub proof fn resize_reaches_every_visual(
    producer: &WebView2CompositionProducer,
    size: PhysicalSize,
    r: Result<ResizeWork, WryWebSurfaceError>,
)
    requires
        call_ensures(WebView2CompositionProducer::resize, (producer, size), r),
    ensures
        r is Ok <==> size.width > 0 && size.height > 0,
        r matches Ok(work) ==> {
            &&& work.size() == size
            &&& work.from() == producer@.size
            &&& size == producer@.size ==> work.sequence().calls().len() == 0
            &&& size != producer@.size ==> {
                &&& work.sequence().calls().len() == 3
                &&& work.sequence().calls().contains(PlatformCall::ResizeRootVisual)
                &&& work.sequence().calls().contains(PlatformCall::ResizeWebviewVisual)
                &&& work.sequence().calls().contains(PlatformCall::SetControllerBounds)
            }
        },
{
    if let Ok(work) = r {
        if size != producer@.size {
            assert(work.sequence().calls()[0] == PlatformCall::ResizeRootVisual);
            assert(work.sequence().calls()[1] == PlatformCall::ResizeWebviewVisual);
            assert(work.sequence().calls()[2] == PlatformCall::SetControllerBounds);
        }
    }
}

/// A restart gives the capture up, and dropping the destination the destination;
/// neither touches the other, nor the size or the numbering.
pub proof fn restart_keeps_the_destination(
    restarted: &mut WebView2CompositionProducer,
    closing: CallSequence,
    dropped: &mut WebView2CompositionProducer,
)
    requires
        call_ensures(WebView2CompositionProducer::force_restart_capture, (restarted,), closing),
        call_ensures(WebView2CompositionProducer::invalidate_persistent_dest, (dropped,), ()),
    ensures
        final(restarted)@.capture is None,
        final(restarted)@.dest == old(restarted)@.dest,
        final(restarted)@.generation == old(restarted)@.generation,
        final(restarted)@.size == old(restarted)@.size,
        old(restarted)@.capture is Some ==> closing.calls() == seq![
            PlatformCall::CloseCaptureSession,
            PlatformCall::CloseFramePool,
        ],
        old(restarted)@.capture is None ==> closing.calls().len() == 0,
        final(dropped)@.dest is None,
        final(dropped)@.capture == old(dropped)@.capture,
        final(dropped)@.generation == old(dropped)@.generation,
        final(dropped)@.size == old(dropped)@.size,
{
}

/// A setup is made with what was configured, for a window and a size that are there:
/// the controller's bounds cover that size, and a backdrop has just its color and is
/// opaque. The producer that comes of it has that size and has captured nothing.
pub proof fn setup_is_made_as_configured(
    parent_hwnd: u64,
    config: WebView2CompositionConfig,
    r: Result<ProducerSetup, WryWebSurfaceError>,
    made: Option<WebView2CompositionProducer>,
    x: int,
    y: int,
)
    requires
        config.size.width <= i32::MAX,
        config.size.height <= i32::MAX,
        call_ensures(WebView2CompositionProducer::new, (parent_hwnd, config), r),
        r matches Ok(setup) ==> call_ensures(ProducerSetup::finish, (&setup,), made),
    ensures
        r is Ok <==> parent_hwnd != 0 && config.size.width > 0 && config.size.height > 0,
        r matches Ok(setup) ==> {
            let a = setup.arguments();
            &&& a.parent_hwnd == parent_hwnd
            &&& a.size == config.size
            &&& a.offset == config.offset
            &&& a.user_data_dir@ == config.user_data_dir@
            &&& a.backdrop is Some <==> config.diagnostic_backdrop is Some
            &&& a.backdrop matches Some(color) ==> color.a == 255 && (color.r, color.g, color.b)
                == config.diagnostic_backdrop->0
            &&& a.bounds.left <= x < a.bounds.right && a.bounds.top <= y < a.bounds.bottom <==> 0
                <= x < config.size.width && 0 <= y < config.size.height
            &&& made matches Some(producer) ==> {
                &&& producer@.size == config.size
                &&& producer@.generation == 0
                &&& producer@.capture is None
                &&& producer@.dest is None
                &&& producer@.navigation_timeout_ms == config.navigation_timeout_ms
                &&& producer@.frame_timeout_ms == config.frame_timeout_ms
            }
        },
{
}

/// The producer emits D3D12 frames, which a Direct3D 12 host can import, and prefers
/// that they are imported.
pub proof fn producer_offers_importable_frames(
    producer: &WebView2CompositionProducer,
    offered: WryWebSurfaceCapabilities,
    matrix: crate::interop::CapabilityMatrix,
)
    requires
        call_ensures(WebView2CompositionProducer::capabilities, (producer,), offered),
        call_ensures(
            crate::interop::CapabilityMatrix::for_backend,
            (InteropBackend::Dx12,),
            matrix,
        ),
    ensures
        offered@.backend == SystemWebviewBackend::WebView2,
        offered@.preferred_mode == WebSurfaceMode::ImportedTexture,
        offered@.imported_texture is Supported,
        offered@.native_child_overlay is Supported,
        offered@.cpu_snapshot is Supported,
        offered@.supported_frames == seq![NativeFrameKind::Dx12SharedTexture],
        matrix.dx12_shared_texture is Supported,
{
}

/// A configuration is built up piece by piece: each builder sets its own part and keeps
/// the others, and where nothing is set there is no offset and no backdrop, five
/// seconds for a navigation and two for a frame.
pub proof fn configuration_is_built_up(
    size: PhysicalSize,
    user_data_dir: String,
    plain: WebView2CompositionConfig,
    offset: PixelOffset,
    moved: WebView2CompositionConfig,
    rgb: (u8, u8, u8),
    backed: WebView2CompositionConfig,
)
    requires
        call_ensures(WebView2CompositionConfig::new, (size, user_data_dir), plain),
        call_ensures(WebView2CompositionConfig::with_offset, (plain, offset), moved),
        call_ensures(WebView2CompositionConfig::with_diagnostic_backdrop, (moved, rgb), backed),
    ensures
        plain.offset.x_bits == 0 && plain.offset.y_bits == 0,
        plain.diagnostic_backdrop is None,
        backed.size == size,
        backed.user_data_dir@ == user_data_dir@,
        backed.offset == offset,
        backed.diagnostic_backdrop == Some(rgb),
        backed.navigation_timeout_ms == 5000,
        backed.frame_timeout_ms == 2000,
{
}

/// A move of the webview gives the root the offset that was asked for, a nudge runs its
/// script, each with a single call; and the bounds of a change cover its size.
pub proof fn small_changes_take_one_call(
    producer: &WebView2CompositionProducer,
    offset: PixelOffset,
    moving: OffsetWork,
    label: &str,
    nudge: (String, CallSequence),
    work: &ResizeWork,
    bounds: ClientRect,
)
    requires
        call_ensures(WebView2CompositionProducer::set_offset, (producer, offset), moving),
        call_ensures(WebView2CompositionProducer::nudge_content, (producer, label), nudge),
        call_ensures(ResizeWork::bounds, (work,), bounds),
        work.size().width <= i32::MAX,
        work.size().height <= i32::MAX,
    ensures
        moving.offset == offset,
        moving.sequence.calls() == seq![PlatformCall::MoveRootVisual],
        nudge.1.calls() == seq![PlatformCall::ExecuteScript],
        nudge.0@ == crate::webview2_script::nudge_text(label@),
        bounds.left == 0 && bounds.top == 0,
        bounds.right == work.size().width,
        bounds.bottom == work.size().height,
{
}

} // verus!

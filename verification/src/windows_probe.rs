//! The probes that the webview demo runs on Windows before it shows anything.
//!
//! The first tries the capture path piece by piece: a shared texture, a window,
//! and the window of the child webview. The second sets the composition producer
//! up and, on request, checks the pixels of its first frame.

use vstd::prelude::*;

use crate::error::InteropError;
use crate::geometry::PhysicalSize;
use crate::interop::{Dx12SharedTexture, ImportOptions, NativeFrame};
use crate::texture::TextureFormat;
use crate::web_surface::{WryWebSurfaceError, WryWebSurfaceFrame};
use crate::windows_capture::{
    CapturedWindowFrame, D3D11SharedTextureFactory, DxgiFormat, DxgiSharedHandleBridge,
    SharedHandleWork, WebView2DxgiSharedHandleFrame,
};
use crate::wry_demo::capture_import_options;

verus! {

/// How long a probe waits for a frame of a window, in milliseconds.
pub const PROBE_TIMEOUT_MS: u64 = 2000;

/// How long the composition probe waits for its page, in milliseconds.
pub const PROBE_NAVIGATION_MS: u64 = 5000;

/// Why a probe failed.
#[derive(Debug)]
pub enum ProbeError {
    /// The webview's side failed.
    Surface(WryWebSurfaceError),
    /// The import failed.
    Interop(InteropError),
    /// The window system or the device failed, for the given cause.
    Host(String),
}

/// What a probe captures or imports.
#[derive(Clone, Copy, Debug, PartialEq, Eq, Structural)]
pub enum ProbeTarget {
    SharedTexture,
    Window,
    WebviewWindow,
}

/// What a [`SharedTextureProbe`] asks of its caller.
#[derive(Clone, Copy, Debug, PartialEq, Eq, Structural)]
pub enum ProbeStep {
    /// Probe the prerequisites of capture.
    ProbeCapture,
    /// Create a hardware device.
    CreateDevice,
    /// Create the texture of [`probe_texture_work`] and export its handle.
    CreateSharedTexture,
    /// Capture the window within [`PROBE_TIMEOUT_MS`].
    CaptureWindow,
    /// Ask the webview for its window.
    FindWebviewWindow,
    /// Capture the webview's window within [`PROBE_TIMEOUT_MS`].
    CaptureWebviewWindow,
    /// Import this frame of the target, with the default options.
    Import { target: ProbeTarget, frame: Dx12SharedTexture },
    /// Close this handle of the target.
    CloseHandle { target: ProbeTarget, handle: u64 },
    /// Nothing is left to do.
    Finish,
}

/// What came of a [`ProbeStep`].
#[derive(Debug)]
pub enum ProbeReply {
    /// It succeeded.
    Done,
    /// It gave this frame.
    Shared(WebView2DxgiSharedHandleFrame),
    /// It captured this frame.
    Captured(CapturedWindowFrame),
    /// It failed.
    Failed(ProbeError),
}

/// The work of creating the texture that the probe shares: 64 by 64 pixels of
/// 8-bit BGRA.
pub fn probe_texture_work() -> (r: Option<SharedHandleWork>)
    ensures
        r matches Some(work) && {
            &&& work.desc() == Some(
                crate::windows_capture::shared_texture_desc(
                    PhysicalSize { width: 64, height: 64 },
                    DxgiFormat::B8G8R8A8Unorm,
                ),
            )
            &&& !work.source_is_null()
            &&& work.begins(
                crate::windows_capture::shared_texture_calls(),
                PhysicalSize { width: 64, height: 64 },
                TextureFormat::Bgra8Unorm,
                1,
            )
        },
{
    match D3D11SharedTextureFactory.create_shared_texture_frame(
        PhysicalSize::new(64, 64),
        TextureFormat::Bgra8Unorm,
        1,
    ) {
        Ok(work) => Some(work),
        Err(_) => None,
    }
}

/// The frame that is imported for a shared one.
pub open spec fn imported_frame(frame: WebView2DxgiSharedHandleFrame) -> Dx12SharedTexture {
    Dx12SharedTexture {
        size: frame.size,
        format: frame.format,
        generation: frame.generation,
        producer_sync: crate::sync::SyncMechanism::Unsynchronized,
        handle: frame.shared_handle,
    }
}

/// Whether `reply` is of the kind that `step` gives.
pub open spec fn reply_fits(step: ProbeStep, reply: ProbeReply) -> bool {
    reply is Failed || match step {
        ProbeStep::CreateSharedTexture => reply is Shared,
        ProbeStep::CaptureWindow => reply is Captured,
        ProbeStep::CaptureWebviewWindow => reply is Captured,
        ProbeStep::Finish => false,
        _ => reply is Done,
    }
}

/// What is captured or created at `step`.
pub open spec fn target_of(step: ProbeStep) -> ProbeTarget {
    match step {
        ProbeStep::CaptureWindow => ProbeTarget::Window,
        ProbeStep::CaptureWebviewWindow => ProbeTarget::WebviewWindow,
        _ => ProbeTarget::SharedTexture,
    }
}

/// The frame that `reply` gives.
pub open spec fn frame_of(reply: ProbeReply) -> WebView2DxgiSharedHandleFrame {
    match reply {
        ProbeReply::Captured(captured) => captured.shared_frame,
        _ => reply->Shared_0,
    }
}

/// The step after a reply to `step` that is no failure.
pub open spec fn step_after(step: ProbeStep, reply: ProbeReply) -> ProbeStep {
    match step {
        ProbeStep::ProbeCapture => ProbeStep::CreateDevice,
        ProbeStep::CreateDevice => ProbeStep::CreateSharedTexture,
        ProbeStep::FindWebviewWindow => ProbeStep::CaptureWebviewWindow,
        ProbeStep::Import { target, frame } => ProbeStep::CloseHandle {
            target,
            handle: frame.handle,
        },
        ProbeStep::CloseHandle { target, .. } => match target {
            ProbeTarget::SharedTexture => ProbeStep::CaptureWindow,
            ProbeTarget::Window => ProbeStep::FindWebviewWindow,
            ProbeTarget::WebviewWindow => ProbeStep::Finish,
        },
        ProbeStep::Finish => ProbeStep::Finish,
        _ => ProbeStep::Import {
            target: target_of(step),
            frame: imported_frame(frame_of(reply)),
        },
    }
}

/// The probe of the capture path, piece by piece.
#[derive(Clone, Copy, Debug, PartialEq, Eq, Structural)]
pub struct SharedTextureProbe {
    step: ProbeStep,
}

impl SharedTextureProbe {
    /// What to do next.
    pub closed spec fn spec_step(&self) -> ProbeStep {
        self.step
    }

    /// Begins the probe.
    pub fn run_windows_shared_texture_probe() -> (r: Self)
        ensures
            r.step() is ProbeCapture,
    {
        SharedTextureProbe { step: ProbeStep::ProbeCapture }
    }

    /// What to do next.
    #[verifier::when_used_as_spec(spec_step)]
    pub fn step(&self) -> (r: ProbeStep)
        ensures
            r == self.step(),
    {
        self.step
    }

    /// Reports what came of the step that was due.
    ///
    /// A failure ends the probe. It is the probe's own, except that the webview's
    /// window need not be capturable: that ends the probe without one. A frame
    /// without a handle is a failure.
    pub fn report(&mut self, reply: ProbeReply) -> (r: Result<(), ProbeError>)
        requires
            reply_fits(old(self).step(), reply),
        ensures
            ({
                let step = old(self).step();
                let gives_frame = reply is Shared || reply is Captured;
                if reply is Failed {
                    &&& final(self).step() is Finish
                    &&& if step is CaptureWebviewWindow {
                        r is Ok
                    } else {
                        r == Err::<(), ProbeError>(reply->Failed_0)
                    }
                } else if gives_frame && frame_of(reply).shared_handle == 0 {
                    &&& final(self).step() is Finish
                    &&& r matches Err(ProbeError::Surface(error))
                    &&& error.is_platform("WebView2 capture shared handle was null"@)
                } else {
                    &&& r is Ok
                    &&& final(self).step() == step_after(step, reply)
                }
            }),
    {
        let step = self.step;
        match reply {
            ProbeReply::Failed(error) => {
                self.step = ProbeStep::Finish;
                if matches!(step, ProbeStep::CaptureWebviewWindow) {
                    Ok(())
                } else {
                    Err(error)
                }
            },
            ProbeReply::Shared(frame) => self.bridge(ProbeTarget::SharedTexture, frame),
            ProbeReply::Captured(captured) => {
                let target = match step {
                    ProbeStep::CaptureWindow => ProbeTarget::Window,
                    _ => ProbeTarget::WebviewWindow,
                };
                self.bridge(target, captured.shared_frame)
            },
            ProbeReply::Done => {
                self.step = match step {
                    ProbeStep::ProbeCapture => ProbeStep::CreateDevice,
                    ProbeStep::CreateDevice => ProbeStep::CreateSharedTexture,
                    ProbeStep::FindWebviewWindow => ProbeStep::CaptureWebviewWindow,
                    ProbeStep::Import { target, frame } => ProbeStep::CloseHandle {
                        target,
                        handle: frame.handle,
                    },
                    ProbeStep::CloseHandle { target, .. } => match target {
                        ProbeTarget::SharedTexture => ProbeStep::CaptureWindow,
                        ProbeTarget::Window => ProbeStep::FindWebviewWindow,
                        ProbeTarget::WebviewWindow => ProbeStep::Finish,
                    },
                    _ => ProbeStep::Finish,
                };
                Ok(())
            },
        }
    }

    fn bridge(&mut self, target: ProbeTarget, frame: WebView2DxgiSharedHandleFrame) -> (r: Result<
        (),
        ProbeError,
    >)
        ensures
            if frame.shared_handle == 0 {
                &&& final(self).step() is Finish
                &&& r matches Err(ProbeError::Surface(error))
                &&& error.is_platform("WebView2 capture shared handle was null"@)
            } else {
                &&& r is Ok
                &&& final(self).step() == (ProbeStep::Import {
                    target,
                    frame: imported_frame(frame),
                })
            },
    {
        self.step = ProbeStep::Finish;
        match DxgiSharedHandleBridge.bridge_shared_handle(frame) {
            Err(error) => Err(ProbeError::Surface(error)),
            Ok(bridged) => {
                if let WryWebSurfaceFrame::Native(NativeFrame::Dx12SharedTexture(native)) =
                    bridged.into_surface_frame() {
                    self.step = ProbeStep::Import { target, frame: native };
                }
                Ok(())
            },
        }
    }
}

/// A handle that has been imported is closed next, and it is the handle that was
/// exported.
pub proof fn imported_handle_is_closed(step: ProbeStep, reply: ProbeReply, imported: ProbeReply)
    requires
        reply_fits(step, reply),
        reply is Shared || reply is Captured,
        imported is Done,
    ensures
        step_after(step_after(step, reply), imported) == (ProbeStep::CloseHandle {
            target: target_of(step),
            handle: frame_of(reply).shared_handle,
        }),
{
}

/// The background of the page that the composition probe shows.
pub const PROBE_BACKGROUND: (u8, u8, u8) = (0x17, 0x20, 0x2a);

/// What a [`CompositionProbe`] asks of its caller.
#[derive(Clone, Copy, Debug, PartialEq, Eq, Structural)]
pub enum CompositionStep {
    /// Create a dispatcher queue for this thread.
    CreateDispatcherQueue,
    /// Set the composition producer up.
    SetUpProducer,
    /// Navigate to the probe page within [`PROBE_NAVIGATION_MS`].
    Navigate,
    /// Acquire a frame from the producer.
    AcquireFrame,
    /// Import the frame, with these options.
    ImportFrame(ImportOptions),
    /// Check the imported pixels against [`PROBE_BACKGROUND`].
    ValidatePixels,
    /// Close the frame's handle.
    CloseHandle,
    /// Nothing is left to do.
    Finish,
}

/// The probe that sets the composition producer up.
#[derive(Clone, Copy, Debug, PartialEq, Eq, Structural)]
pub struct CompositionProbe {
    validate: bool,
    step: CompositionStep,
}

impl CompositionProbe {
    /// Whether the first frame is acquired and checked.
    pub closed spec fn validates(&self) -> bool {
        self.validate
    }

    /// What to do next.
    pub closed spec fn spec_step(&self) -> CompositionStep {
        self.step
    }

    /// Begins the probe. Where it does not validate, the renderer acquires the
    /// first frame.
    pub fn run_webview2_composition_visual_probe(validate: bool) -> (r: Self)
        ensures
            r.validates() == validate,
            r.step() is CreateDispatcherQueue,
    {
        CompositionProbe { validate, step: CompositionStep::CreateDispatcherQueue }
    }

    /// What to do next.
    #[verifier::when_used_as_spec(spec_step)]
    pub fn step(&self) -> (r: CompositionStep)
        ensures
            r == self.step(),
    {
        self.step
    }

    /// The step after one that succeeded.
    pub open spec fn next_step(&self) -> CompositionStep {
        match self.step() {
            CompositionStep::CreateDispatcherQueue => CompositionStep::SetUpProducer,
            CompositionStep::SetUpProducer => CompositionStep::Navigate,
            CompositionStep::Navigate => if self.validates() {
                CompositionStep::AcquireFrame
            } else {
                CompositionStep::Finish
            },
            CompositionStep::AcquireFrame => CompositionStep::ImportFrame(
                ImportOptions {
                    allow_copy_fallback: false,
                    normalize_origin: true,
                    normalize_format: false,
                },
            ),
            CompositionStep::ImportFrame(_) => CompositionStep::ValidatePixels,
            CompositionStep::ValidatePixels => CompositionStep::CloseHandle,
            CompositionStep::CloseHandle => CompositionStep::Finish,
            CompositionStep::Finish => CompositionStep::Finish,
        }
    }

    /// Reports what came of the step that was due. A failure ends the probe,
    /// except that it goes on without a dispatcher queue.
    pub fn report(&mut self, outcome: Result<(), ProbeError>) -> (r: Result<(), ProbeError>)
        requires
            !(old(self).step() is Finish),
        ensures
            final(self).validates() == old(self).validates(),
            if outcome is Err && !(old(self).step() is CreateDispatcherQueue) {
                &&& r == outcome
                &&& final(self).step() is Finish
            } else {
                &&& r is Ok
                &&& final(self).step() == old(self).next_step()
            },
    {
        match outcome {
            Err(error) => {
                if matches!(self.step, CompositionStep::CreateDispatcherQueue) {
                    self.step = CompositionStep::SetUpProducer;
                    Ok(())
                } else {
                    self.step = CompositionStep::Finish;
                    Err(error)
                }
            },
            Ok(()) => {
                self.step = match self.step {
                    CompositionStep::CreateDispatcherQueue => CompositionStep::SetUpProducer,
                    CompositionStep::SetUpProducer => CompositionStep::Navigate,
                    CompositionStep::Navigate => if self.validate {
                        CompositionStep::AcquireFrame
                    } else {
                        CompositionStep::Finish
                    },
                    CompositionStep::AcquireFrame => CompositionStep::ImportFrame(
                        capture_import_options(),
                    ),
                    CompositionStep::ImportFrame(_) => CompositionStep::ValidatePixels,
                    CompositionStep::ValidatePixels => CompositionStep::CloseHandle,
                    CompositionStep::CloseHandle => CompositionStep::Finish,
                    CompositionStep::Finish => CompositionStep::Finish,
                };
                Ok(())
            },
        }
    }
}

/// What was shared is what is imported: a frame of a texture or a window goes to the
/// importer with its own size, format, generation and handle, and as a frame of that
/// target. One without a handle does not.
pub proof fn shared_frame_is_imported_as_it_is(
    probe: &mut SharedTextureProbe,
    reply: ProbeReply,
    frame: WebView2DxgiSharedHandleFrame,
    r: Result<(), ProbeError>,
)
    requires
        match reply {
            ProbeReply::Shared(shared) => probe.step() is CreateSharedTexture && shared == frame,
            ProbeReply::Captured(captured) => (probe.step() is CaptureWindow || probe.step()
                is CaptureWebviewWindow) && captured.shared_frame == frame,
            _ => false,
        },
        call_ensures(SharedTextureProbe::report, (probe, reply), r),
    ensures
        r is Ok <==> frame.shared_handle != 0,
        frame.shared_handle == 0 ==> final(probe).step() is Finish,
        frame.shared_handle != 0 ==> (final(probe).step() matches ProbeStep::Import {
            target,
            frame: native,
        } && {
            &&& native.size == frame.size
            &&& native.format == frame.format
            &&& native.generation == frame.generation
            &&& native.handle == frame.shared_handle
            &&& native.producer_sync == crate::sync::SyncMechanism::Unsynchronized
            &&& target == ProbeTarget::SharedTexture <==> old(probe).step() is CreateSharedTexture
            &&& target == ProbeTarget::Window <==> old(probe).step() is CaptureWindow
            &&& target == ProbeTarget::WebviewWindow <==> old(probe).step() is CaptureWebviewWindow
        }),
{
}

/// The probe goes from piece to piece: the prerequisites, a device, a texture, the
/// window, and the webview's window. What was imported is closed before the next.
pub proof fn probe_goes_from_piece_to_piece(
    probe: &mut SharedTextureProbe,
    r: Result<(), ProbeError>,
)
    requires
        reply_fits(probe.step(), ProbeReply::Done),
        call_ensures(SharedTextureProbe::report, (probe, ProbeReply::Done), r),
    ensures
        r is Ok,
        old(probe).step() is ProbeCapture ==> final(probe).step() is CreateDevice,
        old(probe).step() is CreateDevice ==> final(probe).step() is CreateSharedTexture,
        old(probe).step() matches ProbeStep::Import { target, frame } ==> final(probe).step() == (
        ProbeStep::CloseHandle { target, handle: frame.handle }),
        old(probe).step() matches ProbeStep::CloseHandle { target, .. } ==> {
            &&& target == ProbeTarget::SharedTexture ==> final(probe).step() is CaptureWindow
            &&& target == ProbeTarget::Window ==> final(probe).step() is FindWebviewWindow
            &&& target == ProbeTarget::WebviewWindow ==> final(probe).step() is Finish
        },
        old(probe).step() is FindWebviewWindow ==> final(probe).step() is CaptureWebviewWindow,
{
}

/// A failure ends the probe and is its own, except that the webview's window need not be
/// capturable. Every step can fail.
pub proof fn failed_piece_ends_the_probe(
    probe: &mut SharedTextureProbe,
    error: ProbeError,
    r: Result<(), ProbeError>,
)
    requires
        call_ensures(SharedTextureProbe::report, (probe, ProbeReply::Failed(error)), r),
    ensures
        reply_fits(old(probe).step(), ProbeReply::Failed(error)),
        final(probe).step() is Finish,
        old(probe).step() is CaptureWebviewWindow <==> r is Ok,
        !(old(probe).step() is CaptureWebviewWindow) ==> r == Err::<(), ProbeError>(error),
{
}

/// The texture of the probe can be checked: it is made in the format that it says, with
/// 64 by 64 pixels.
pub proof fn probe_texture_matches_its_frame(work: SharedHandleWork)
    requires
        call_ensures(probe_texture_work, (), Some(work)),
    ensures
        work.desc() matches Some(desc) && {
            &&& desc.size == work.size()
            &&& crate::windows_capture::dxgi_format(work.format()) == Some(desc.format)
            &&& desc.format == DxgiFormat::B8G8R8A8Unorm
        },
        work.size().width == 64 && work.size().height == 64,
        work.generation() == 1,
{
}

/// The composition probe goes on where it succeeds: a queue, the producer, its page, and
/// where it validates a frame, its import, its pixels and its handle. The frame is
/// imported without a conversion, so that its pixels are in the format that is checked.
pub proof fn composition_probe_goes_on(
    probe: &mut CompositionProbe,
    outcome: Result<(), ProbeError>,
    r: Result<(), ProbeError>,
    options: ImportOptions,
    width: u32,
    height: u32,
    frame: Dx12SharedTexture,
    request: crate::interop::HalTextureRequest,
)
    requires
        !(probe.step() is Finish),
        call_ensures(CompositionProbe::report, (probe, outcome), r),
        final(probe).step() == CompositionStep::ImportFrame(options) ==> call_ensures(
            crate::interop::import_dx12_shared_texture,
            (
                &frame,
                crate::interop::InteropBackend::Dx12,
                &options,
                crate::platform::TargetPlatform::Windows,
            ),
            Ok::<crate::interop::HalTextureRequest, InteropError>(request),
        ),
    ensures
        old(probe).step() is CreateDispatcherQueue ==> r is Ok && final(probe).step()
            is SetUpProducer,
        outcome is Err && !(old(probe).step() is CreateDispatcherQueue) ==> r == outcome
            && final(probe).step() is Finish,
        outcome is Ok ==> r is Ok,
        outcome is Ok && old(probe).step() is SetUpProducer ==> final(probe).step() is Navigate,
        outcome is Ok && old(probe).step() is Navigate ==> (final(probe).step() is AcquireFrame
            <==> old(probe).validates()) && (final(probe).step() is Finish <==> !old(
            probe,
        ).validates()),
        outcome is Ok && old(probe).step() is AcquireFrame ==> final(probe).step() is ImportFrame,
        outcome is Ok && old(probe).step() is ImportFrame ==> final(probe).step() is ValidatePixels,
        outcome is Ok && old(probe).step() is ValidatePixels ==> final(probe).step() is CloseHandle,
        outcome is Ok && old(probe).step() is CloseHandle ==> final(probe).step() is Finish,
        final(probe).step() == CompositionStep::ImportFrame(options) ==> (frame.format is Bgra8Unorm
            ==> request.output_format() is Bgra8Unorm),
        final(probe).validates() == old(probe).validates(),
{
}

} // verus!

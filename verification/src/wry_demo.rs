//! The decisions of the webview demo: its flags, its layout, and the renderer
//! that shows captured frames.

use vstd::prelude::*;

use crate::geometry::{PhysicalSize, PixelOffset};
use crate::interop::{ImportOptions, InteropBackend};
use crate::text::{join2, same_text};
use crate::web_surface::{SurfaceReport, WryWebSurfaceCapabilities};
use crate::webview2_composition_producer::WebView2CompositionConfig;

verus! {

/// Whether an argument asks for the probes alone.
pub fn wants_probe_only(arguments: &Vec<String>) -> (r: bool)
    ensures
        r <==> exists|i: int|
            0 <= i < arguments@.len() && #[trigger] arguments@[i]@ == "--probe-only"@,
{
    let mut i: usize = 0;
    while i < arguments.len()
        invariant
            i <= arguments@.len(),
            forall|j: int| 0 <= j < i ==> #[trigger] arguments@[j]@ != "--probe-only"@,
        decreases arguments@.len() - i,
    {
        if same_text(arguments[i].as_str(), "--probe-only") {
            assert(arguments@[i as int]@ == "--probe-only"@);
            return true;
        }
        i = i + 1;
    }
    false
}

/// Whether an environment variable switches something on: it is set, not empty
/// and not `0`.
pub fn flag_is_set(value: Option<&str>) -> (r: bool)
    ensures
        r == (value matches Some(text) && text@ != ""@ && text@ != "0"@),
{
    match value {
        Some(text) => !same_text(text, "") && !same_text(text, "0"),
        None => false,
    }
}

/// Whether `lines` are the lines of a report on what the webview offers to a host.
pub open spec fn is_capability_report(
    adapter: Seq<char>,
    backend: InteropBackend,
    report: SurfaceReport,
    lines: Seq<String>,
) -> bool {
    &&& lines.len() == 8
    &&& lines[0]@ == "wgpu adapter: "@ + adapter
    &&& lines[1]@ == "wgpu backend: "@ + backend.name()@
    &&& lines[2]@ == "system webview backend: "@ + report.backend.name()@
    &&& lines[3]@ == "preferred surface mode: "@ + report.preferred_mode.name()@
    &&& lines[4]@ == "imported texture support: "@ + report.imported_texture.shown()
    &&& lines[5]@ == "native overlay support: "@ + report.native_child_overlay.shown()
    &&& lines[6]@ == "CPU snapshot support: "@ + report.cpu_snapshot.shown()
    &&& lines[7]@ == "reason: "@ + report.reason@
}

/// The lines of a report on what the webview offers to a host.
pub fn capability_report(
    adapter: &str,
    backend: InteropBackend,
    capabilities: &WryWebSurfaceCapabilities,
) -> (r: Vec<String>)
    ensures
        is_capability_report(adapter@, backend, capabilities@, r@),
{
    let mut lines: Vec<String> = Vec::new();
    lines.push(join2("wgpu adapter: ", adapter));
    lines.push(join2("wgpu backend: ", backend.name()));
    lines.push(join2("system webview backend: ", capabilities.backend.name()));
    lines.push(join2("preferred surface mode: ", capabilities.preferred_mode.name()));
    lines.push(
        join2("imported texture support: ", capabilities.imported_texture.show().as_str()),
    );
    lines.push(
        join2("native overlay support: ", capabilities.native_child_overlay.show().as_str()),
    );
    lines.push(join2("CPU snapshot support: ", capabilities.cpu_snapshot.show().as_str()));
    lines.push(join2("reason: ", capabilities.reason));
    lines
}

/// The shortest side of a capture.
pub const MIN_CAPTURE_SIDE: u32 = 120;

/// The size of the capture in a window: half the width and the full height, but
/// no side shorter than the minimum.
pub open spec fn capture_size(window: PhysicalSize) -> PhysicalSize {
    PhysicalSize {
        width: if window.width / 2 < MIN_CAPTURE_SIDE {
            MIN_CAPTURE_SIDE
        } else {
            window.width / 2
        },
        height: if window.height < MIN_CAPTURE_SIDE {
            MIN_CAPTURE_SIDE
        } else {
            window.height
        },
    }
}

/// How far from the left edge of a window the capture begins, in pixels.
pub open spec fn capture_offset(window: PhysicalSize) -> u32 {
    if window.width < capture_size(window).width {
        0
    } else {
        (window.width - capture_size(window).width) as u32
    }
}

/// The size of the capture in a window. The live webview covers the right half,
/// and the renderer fills the window behind it with the captured texture.
pub fn capture_size_for_window(window: PhysicalSize) -> (r: PhysicalSize)
    ensures
        r == capture_size(window),
{
    let half: u32 = window.width / 2;
    let width: u32 = if half < MIN_CAPTURE_SIDE {
        MIN_CAPTURE_SIDE
    } else {
        half
    };
    let height: u32 = if window.height < MIN_CAPTURE_SIDE {
        MIN_CAPTURE_SIDE
    } else {
        window.height
    };
    PhysicalSize::new(width, height)
}

/// How far from the left edge of a window the capture begins, in pixels. It
/// begins at the top edge.
pub fn capture_offset_for_window(window: PhysicalSize) -> (r: u32)
    ensures
        r == capture_offset(window),
{
    let capture = capture_size_for_window(window);
    window.width.saturating_sub(capture.width)
}

/// The capture is never empty, so the producer accepts its size. Wherever it fits
/// into the window, it ends flush with the right edge.
pub proof fn capture_is_flush_right(window: PhysicalSize)
    ensures
        !capture_size(window).is_empty(),
        capture_size(window).width <= window.width ==> capture_offset(window) + capture_size(
            window,
        ).width == window.width,
        window.width >= 2 * MIN_CAPTURE_SIDE ==> capture_size(window).width == window.width / 2,
{
}

/// The composition producer of the demo: 420 by 260 pixels at (450.0, 48.0), over
/// a teal backdrop.
pub fn composition_config(user_data_dir: String) -> (r: WebView2CompositionConfig)
    ensures
        r.size == (PhysicalSize { width: 420, height: 260 }),
        r.offset == (PixelOffset { x_bits: 0x43e1_0000, y_bits: 0x4240_0000 }),
        r.user_data_dir@ == user_data_dir@,
        r.diagnostic_backdrop == Some((27u8, 86u8, 96u8)),
        r.navigation_timeout_ms == 5000,
        r.frame_timeout_ms == 2000,
{
    WebView2CompositionConfig::new(PhysicalSize::new(420, 260), user_data_dir).with_offset(
        PixelOffset { x_bits: 0x43e1_0000, y_bits: 0x4240_0000 },
    ).with_diagnostic_backdrop((27, 86, 96))
}

/// How the demo imports captured frames: as they are, since a converted copy would
/// not follow the frames that the producer writes into the same resource later.
pub fn capture_import_options() -> (r: ImportOptions)
    ensures
        r == (ImportOptions {
            allow_copy_fallback: false,
            normalize_origin: true,
            normalize_format: false,
        }),
{
    ImportOptions { allow_copy_fallback: false, normalize_origin: true, normalize_format: false }
}

/// After how many polls without a frame a capture is taken for stalled.
pub const STALL_POLLS: u32 = 120;

/// How often metrics are reported, in milliseconds.
pub const METRICS_INTERVAL_MS: u64 = 2000;

/// How long a window must keep its size before the producer follows, in
/// milliseconds.
pub const RESIZE_SETTLE_MS: u64 = 120;

/// What the renderer has counted.
#[derive(Clone, Copy, Debug, PartialEq, Eq, Structural)]
pub struct RenderMetrics {
    pub elapsed_ms: u64,
    pub polled: u64,
    pub acquired: u64,
    pub resource_swaps: u64,
    pub total_imports: u64,
    pub capture_restarts: u64,
}

/// A resize that waits for the window to settle.
#[derive(Clone, Copy, Debug, PartialEq, Eq, Structural)]
pub struct PendingResize {
    pub window: PhysicalSize,
    pub since_ms: u64,
}

/// What the producer is told once a resize has settled.
#[derive(Clone, Copy, Debug, PartialEq, Eq, Structural)]
pub struct CaptureResize {
    pub size: PhysicalSize,
    pub offset_x: u32,
}

/// What a poll of the producer has given.
#[derive(Clone, Copy, Debug, PartialEq, Eq, Structural)]
pub enum PollOutcome {
    /// A frame; its resource may be new.
    Frame { resource_is_new: bool },
    /// No frame.
    Empty,
    /// An error.
    Failed,
}

/// What the renderer does about a poll.
#[derive(Clone, Copy, Debug, PartialEq, Eq, Structural)]
pub enum PollAction {
    /// Render with the texture that is bound.
    Keep,
    /// Import the frame's resource, bind it, and report it.
    Import,
    /// Restart the capture.
    RestartCapture,
}

/// What acquiring the surface's next texture has given.
#[derive(Clone, Copy, Debug, PartialEq, Eq, Structural)]
pub enum SurfaceOutcome {
    Success,
    Suboptimal,
    Outdated,
    Lost,
    Timeout,
    Occluded,
    Validation,
}

/// What the renderer does about the surface's next texture.
#[derive(Clone, Copy, Debug, PartialEq, Eq, Structural)]
pub enum SurfaceAction {
    /// Draw into it.
    Draw,
    /// Configure the surface again and skip this frame.
    Reconfigure,
    /// Skip this frame.
    Skip,
}

/// What the renderer does about the surface's next texture: a stale surface is
/// configured again, and one that is only not there yet is left alone.
pub fn after_surface(outcome: SurfaceOutcome) -> (r: SurfaceAction)
    ensures
        r is Draw <==> outcome is Success || outcome is Suboptimal,
        r is Reconfigure <==> outcome is Outdated || outcome is Lost,
        r is Skip <==> outcome is Timeout || outcome is Occluded || outcome is Validation,
{
    match outcome {
        SurfaceOutcome::Success | SurfaceOutcome::Suboptimal => SurfaceAction::Draw,
        SurfaceOutcome::Outdated | SurfaceOutcome::Lost => SurfaceAction::Reconfigure,
        SurfaceOutcome::Timeout | SurfaceOutcome::Occluded | SurfaceOutcome::Validation => {
            SurfaceAction::Skip
        },
    }
}

/// The state of the renderer that shows captured frames.
#[derive(Clone, Copy, Debug, PartialEq, Eq, Structural)]
pub struct WebViewRenderer {
    pub frames_imported: u64,
    pub frames_polled: u64,
    pub frames_acquired: u64,
    pub frames_resource_swapped: u64,
    pub consecutive_empty_polls: u32,
    pub capture_restarts: u64,
    pub last_metric_log_ms: u64,
    pub pending_resize: Option<PendingResize>,
    pub committed_capture: PhysicalSize,
    pub surface_size: PhysicalSize,
    pub configured_surface: PhysicalSize,
    pub has_imported: bool,
}

/// One more, unless the counter is full.
pub open spec fn counted(n: u64) -> u64 {
    if n == u64::MAX {
        n
    } else {
        (n + 1) as u64
    }
}

impl WebViewRenderer {
    /// A renderer for a window of the given size. The first import is counted in
    /// advance; `has_imported` says whether it has been made.
    pub fn new(window: PhysicalSize, has_imported: bool, now_ms: u64) -> (r: Self)
        ensures
            r == (WebViewRenderer {
                frames_imported: 1,
                frames_polled: 0,
                frames_acquired: 0,
                frames_resource_swapped: 0,
                consecutive_empty_polls: 0,
                capture_restarts: 0,
                last_metric_log_ms: now_ms,
                pending_resize: None,
                committed_capture: capture_size(window),
                surface_size: window.at_least_one(),
                configured_surface: window.at_least_one(),
                has_imported,
            }),
    {
        WebViewRenderer {
            frames_imported: 1,
            frames_polled: 0,
            frames_acquired: 0,
            frames_resource_swapped: 0,
            consecutive_empty_polls: 0,
            capture_restarts: 0,
            last_metric_log_ms: now_ms,
            pending_resize: None,
            committed_capture: capture_size_for_window(window),
            surface_size: window.at_least_one(),
            configured_surface: window.at_least_one(),
            has_imported,
        }
    }

    /// Notes that the producer is about to be polled. Returns whether its
    /// destination is dropped first, so that every frame is imported anew.
    pub fn before_poll(&mut self, force_reimport: bool) -> (r: bool)
        ensures
            r == force_reimport,
            *final(self) == (WebViewRenderer {
                frames_polled: counted(old(self).frames_polled),
                ..*old(self)
            }),
    {
        self.frames_polled = self.frames_polled.saturating_add(1);
        force_reimport
    }

    /// The state after a poll.
    pub open spec fn polled(self, outcome: PollOutcome) -> WebViewRenderer {
        match outcome {
            PollOutcome::Frame { .. } => WebViewRenderer {
                frames_acquired: counted(self.frames_acquired),
                consecutive_empty_polls: 0,
                ..self
            },
            PollOutcome::Empty => if self.consecutive_empty_polls + 1 >= STALL_POLLS {
                WebViewRenderer {
                    consecutive_empty_polls: 0,
                    capture_restarts: counted(self.capture_restarts),
                    ..self
                }
            } else {
                WebViewRenderer {
                    consecutive_empty_polls: (self.consecutive_empty_polls + 1) as u32,
                    ..self
                }
            },
            PollOutcome::Failed => self,
        }
    }

    /// Takes in what a poll has given. A frame with a new resource is imported,
    /// and one without is already bound. So many polls in a row without a frame
    /// restart the capture; an error is not counted among them.
    pub fn refresh_captured_texture(&mut self, outcome: PollOutcome) -> (r: PollAction)
        ensures
            *final(self) == old(self).polled(outcome),
            r == (match outcome {
                PollOutcome::Frame { resource_is_new } => if resource_is_new {
                    PollAction::Import
                } else {
                    PollAction::Keep
                },
                PollOutcome::Empty => if old(self).consecutive_empty_polls + 1 >= STALL_POLLS {
                    PollAction::RestartCapture
                } else {
                    PollAction::Keep
                },
                PollOutcome::Failed => PollAction::Keep,
            }),
    {
        match outcome {
            PollOutcome::Frame { resource_is_new } => {
                self.frames_acquired = self.frames_acquired.saturating_add(1);
                self.consecutive_empty_polls = 0;
                if resource_is_new {
                    PollAction::Import
                } else {
                    PollAction::Keep
                }
            },
            PollOutcome::Empty => {
                self.consecutive_empty_polls = self.consecutive_empty_polls.saturating_add(1);
                if self.consecutive_empty_polls >= STALL_POLLS {
                    self.capture_restarts = self.capture_restarts.saturating_add(1);
                    self.consecutive_empty_polls = 0;
                    PollAction::RestartCapture
                } else {
                    PollAction::Keep
                }
            },
            PollOutcome::Failed => PollAction::Keep,
        }
    }

    /// The state after a frame's resource has been imported and bound.
    pub open spec fn imported(self) -> WebViewRenderer {
        WebViewRenderer {
            has_imported: true,
            frames_imported: counted(self.frames_imported),
            frames_resource_swapped: counted(self.frames_resource_swapped),
            ..self
        }
    }

    /// Notes that a frame's resource has been imported and bound.
    pub fn resource_imported(&mut self)
        ensures
            *final(self) == old(self).imported(),
    {
        self.has_imported = true;
        self.frames_imported = self.frames_imported.saturating_add(1);
        self.frames_resource_swapped = self.frames_resource_swapped.saturating_add(1);
    }

    /// The metrics that are reported at the given time, if they are due.
    pub open spec fn metrics_due(self, now_ms: u64) -> Option<RenderMetrics> {
        let elapsed = now_ms - self.last_metric_log_ms;
        if elapsed < METRICS_INTERVAL_MS {
            None
        } else {
            Some(
                RenderMetrics {
                    elapsed_ms: elapsed as u64,
                    polled: self.frames_polled,
                    acquired: self.frames_acquired,
                    resource_swaps: self.frames_resource_swapped,
                    total_imports: self.frames_imported,
                    capture_restarts: self.capture_restarts,
                },
            )
        }
    }

    /// The state after metrics have been reported, if they were due.
    pub open spec fn metrics_reported(self, now_ms: u64) -> WebViewRenderer {
        if self.metrics_due(now_ms) is None {
            self
        } else {
            WebViewRenderer {
                frames_polled: 0,
                frames_acquired: 0,
                frames_resource_swapped: 0,
                last_metric_log_ms: now_ms,
                ..self
            }
        }
    }

    /// Reports the metrics if they are due, and starts counting anew; imports and
    /// restarts are counted on.
    pub fn maybe_log_metrics(&mut self, now_ms: u64) -> (r: Option<RenderMetrics>)
        ensures
            r == old(self).metrics_due(now_ms),
            *final(self) == old(self).metrics_reported(now_ms),
    {
        let elapsed_ms: u64 = now_ms.saturating_sub(self.last_metric_log_ms);
        if elapsed_ms < METRICS_INTERVAL_MS {
            return None;
        }
        let metrics = RenderMetrics {
            elapsed_ms,
            polled: self.frames_polled,
            acquired: self.frames_acquired,
            resource_swaps: self.frames_resource_swapped,
            total_imports: self.frames_imported,
            capture_restarts: self.capture_restarts,
        };
        self.frames_polled = 0;
        self.frames_acquired = 0;
        self.frames_resource_swapped = 0;
        self.last_metric_log_ms = now_ms;
        Some(metrics)
    }

    /// Notes that the window has another size. Nothing else is done: the surface
    /// and the producer follow when the next frame is rendered. A minimized window
    /// changes nothing.
    pub fn resize(&mut self, window: PhysicalSize, now_ms: u64)
        ensures
            *final(self) == (if window.is_empty() {
                *old(self)
            } else {
                WebViewRenderer {
                    surface_size: window,
                    pending_resize: Some(PendingResize { window, since_ms: now_ms }),
                    ..*old(self)
                }
            }),
    {
        if window.is_empty() {
            return;
        }
        self.surface_size = window;
        self.pending_resize = Some(PendingResize { window, since_ms: now_ms });
    }

    /// The size to configure the surface with before a frame is rendered, if it
    /// has changed since.
    pub fn surface_to_configure(&mut self) -> (r: Option<PhysicalSize>)
        ensures
            r == (if old(self).surface_size == old(self).configured_surface {
                None
            } else {
                Some(old(self).surface_size)
            }),
            *final(self) == (WebViewRenderer {
                configured_surface: old(self).surface_size,
                ..*old(self)
            }),
    {
        if self.surface_size == self.configured_surface {
            return None;
        }
        self.configured_surface = self.surface_size;
        Some(self.surface_size)
    }

    /// Whether a resize waits that has settled at the given time.
    pub open spec fn has_settled(self, now_ms: u64) -> bool {
        self.pending_resize matches Some(pending) && now_ms - pending.since_ms >= RESIZE_SETTLE_MS
    }

    /// What the producer is told at the given time, before a frame is rendered.
    pub open spec fn resize_due(self, now_ms: u64) -> Option<CaptureResize> {
        let window = self.pending_resize->0.window;
        if !self.has_settled(now_ms) || capture_size(window) == self.committed_capture {
            None
        } else {
            Some(CaptureResize { size: capture_size(window), offset_x: capture_offset(window) })
        }
    }

    /// The state after a resize that has settled at the given time has been
    /// applied.
    pub open spec fn resize_applied(self, now_ms: u64) -> WebViewRenderer {
        if !self.has_settled(now_ms) {
            self
        } else {
            WebViewRenderer {
                pending_resize: None,
                committed_capture: capture_size(self.pending_resize->0.window),
                ..self
            }
        }
    }

    /// What the producer is told before a frame is rendered: the size and offset
    /// of its capture, once the window has kept its size for a while and the
    /// capture changes with it. The new size counts as taken over even if the
    /// producer rejects it.
    pub fn apply_pending_resize(&mut self, now_ms: u64) -> (r: Option<CaptureResize>)
        ensures
            r == old(self).resize_due(now_ms),
            *final(self) == old(self).resize_applied(now_ms),
    {
        let pending = match self.pending_resize {
            Some(pending) => pending,
            None => return None,
        };
        if now_ms.saturating_sub(pending.since_ms) < RESIZE_SETTLE_MS {
            return None;
        }
        let size = capture_size_for_window(pending.window);
        self.pending_resize = None;
        if size == self.committed_capture {
            return None;
        }
        self.committed_capture = size;
        Some(CaptureResize { size, offset_x: capture_offset_for_window(pending.window) })
    }

    /// Whether a frame is preceded by a throwaway copy out of the imported
    /// texture, which flushes the caches that hold what was in it before.
    pub fn flushes_cache(&self) -> (r: bool)
        ensures
            r == self.has_imported,
    {
        self.has_imported
    }
}

impl WebViewRenderer {
    /// The state after so many polls in a row without a frame.
    pub open spec fn after_empty_polls(self, n: nat) -> WebViewRenderer
        decreases n,
    {
        if n == 0 {
            self
        } else {
            self.after_empty_polls((n - 1) as nat).polled(PollOutcome::Empty)
        }
    }
}

/// What a [`RenderPass`] asks of its caller.
#[derive(Clone, Copy, Debug, PartialEq, Eq, Structural)]
pub enum RenderStep {
    /// Configure the surface with this size.
    ConfigureSurface(PhysicalSize),
    /// Move the capture to the offset; a failure is only reported.
    MoveCapture(CaptureResize),
    /// Give the capture the size; a failure is only reported.
    ResizeCapture(CaptureResize),
    /// Drop the producer's destination.
    DropDestination,
    /// Poll the producer for a frame.
    Poll,
    /// Import the resource of the polled frame with [`capture_import_options`].
    Import,
    /// Close the handle of the imported resource, and bind it.
    CloseHandle,
    /// Restart the capture.
    RestartCapture,
    /// Report these metrics.
    LogMetrics(RenderMetrics),
    /// Acquire the surface's next texture.
    AcquireSurface,
    /// Configure the surface again.
    ReconfigureSurface,
    /// Draw into the acquired texture and present it, after a throwaway copy out
    /// of the imported texture if caches have to be flushed.
    Draw { flush_cache: bool },
    /// Nothing is left to do.
    Finish,
}

/// What came of a [`RenderStep`].
#[derive(Clone, Copy, Debug, PartialEq, Eq, Structural)]
pub enum RenderReply {
    /// It has been taken.
    Done,
    /// It failed.
    Failed,
    /// The poll gave this.
    Polled(PollOutcome),
    /// Acquiring the surface's next texture gave this.
    Surface(SurfaceOutcome),
}

/// Whether `reply` is of the kind that `step` gives.
pub open spec fn reply_fits(step: RenderStep, reply: RenderReply) -> bool {
    match step {
        RenderStep::MoveCapture(_) => reply is Done || reply is Failed,
        RenderStep::ResizeCapture(_) => reply is Done || reply is Failed,
        RenderStep::Poll => reply is Polled,
        RenderStep::Import => reply is Done || reply is Failed,
        RenderStep::CloseHandle => reply is Done || reply is Failed,
        RenderStep::AcquireSurface => reply is Surface,
        RenderStep::Finish => false,
        _ => reply is Done,
    }
}

impl WebViewRenderer {
    /// The state and the step where the producer is polled next.
    pub open spec fn to_poll(self, force_reimport: bool) -> (WebViewRenderer, RenderStep) {
        (
            WebViewRenderer { frames_polled: counted(self.frames_polled), ..self },
            if force_reimport {
                RenderStep::DropDestination
            } else {
                RenderStep::Poll
            },
        )
    }

    /// The state and the step where a pending resize is looked at next.
    pub open spec fn to_resize(self, force_reimport: bool, now_ms: u64) -> (
        WebViewRenderer,
        RenderStep,
    ) {
        match self.resize_due(now_ms) {
            Some(resize) => (self.resize_applied(now_ms), RenderStep::MoveCapture(resize)),
            None => self.resize_applied(now_ms).to_poll(force_reimport),
        }
    }

    /// The state and the step where metrics are reported next, if they are due.
    pub open spec fn to_metrics(self, now_ms: u64) -> (WebViewRenderer, RenderStep) {
        (
            self.metrics_reported(now_ms),
            match self.metrics_due(now_ms) {
                Some(metrics) => RenderStep::LogMetrics(metrics),
                None => RenderStep::AcquireSurface,
            },
        )
    }

    /// The state and the step with which a frame begins.
    pub open spec fn to_frame(self, force_reimport: bool, now_ms: u64) -> (
        WebViewRenderer,
        RenderStep,
    ) {
        if self.surface_size == self.configured_surface {
            self.to_resize(force_reimport, now_ms)
        } else {
            (
                WebViewRenderer { configured_surface: self.surface_size, ..self },
                RenderStep::ConfigureSurface(self.surface_size),
            )
        }
    }

    /// The state and the step after `reply` to `step`.
    ///
    /// The surface is configured, a settled resize is handed to the producer, the
    /// producer is polled, a new resource is imported, metrics are reported, and
    /// only then is the surface's next texture acquired and drawn into. A poll
    /// that fails is followed by no metrics, and an import that fails ends the
    /// frame.
    pub open spec fn after(
        self,
        step: RenderStep,
        reply: RenderReply,
        force_reimport: bool,
        now_ms: u64,
    ) -> (WebViewRenderer, RenderStep) {
        match (step, reply) {
            (RenderStep::ConfigureSurface(_), _) => self.to_resize(force_reimport, now_ms),
            (RenderStep::MoveCapture(resize), _) => (self, RenderStep::ResizeCapture(resize)),
            (RenderStep::ResizeCapture(_), _) => self.to_poll(force_reimport),
            (RenderStep::DropDestination, _) => (self, RenderStep::Poll),
            (RenderStep::Poll, RenderReply::Polled(outcome)) => match outcome {
                PollOutcome::Failed => (self.polled(outcome), RenderStep::AcquireSurface),
                PollOutcome::Frame { resource_is_new: true } => (
                    self.polled(outcome),
                    RenderStep::Import,
                ),
                PollOutcome::Empty if self.consecutive_empty_polls + 1 >= STALL_POLLS => (
                    self.polled(outcome),
                    RenderStep::RestartCapture,
                ),
                _ => self.polled(outcome).to_metrics(now_ms),
            },
            (RenderStep::Import, RenderReply::Done) => (self, RenderStep::CloseHandle),
            (RenderStep::CloseHandle, RenderReply::Done) => self.imported().to_metrics(now_ms),
            (RenderStep::RestartCapture, _) => self.to_metrics(now_ms),
            (RenderStep::LogMetrics(_), _) => (self, RenderStep::AcquireSurface),
            (RenderStep::AcquireSurface, RenderReply::Surface(outcome)) => (
                self,
                match outcome {
                    SurfaceOutcome::Success => RenderStep::Draw { flush_cache: self.has_imported },
                    SurfaceOutcome::Suboptimal => RenderStep::Draw {
                        flush_cache: self.has_imported,
                    },
                    SurfaceOutcome::Outdated => RenderStep::ReconfigureSurface,
                    SurfaceOutcome::Lost => RenderStep::ReconfigureSurface,
                    _ => RenderStep::Finish,
                },
            ),
            _ => (self, RenderStep::Finish),
        }
    }

    /// Begins to render a frame at the given time.
    pub fn render(&mut self, force_reimport: bool, now_ms: u64) -> (r: RenderPass)
        ensures
            (*final(self), r.step()) == old(self).to_frame(force_reimport, now_ms),
    {
        match self.surface_to_configure() {
            Some(size) => RenderPass { step: RenderStep::ConfigureSurface(size) },
            None => RenderPass { step: self.enter_resize(force_reimport, now_ms) },
        }
    }

    fn enter_poll(&mut self, force_reimport: bool) -> (r: RenderStep)
        ensures
            (*final(self), r) == old(self).to_poll(force_reimport),
    {
        if self.before_poll(force_reimport) {
            RenderStep::DropDestination
        } else {
            RenderStep::Poll
        }
    }

    fn enter_resize(&mut self, force_reimport: bool, now_ms: u64) -> (r: RenderStep)
        ensures
            (*final(self), r) == old(self).to_resize(force_reimport, now_ms),
    {
        match self.apply_pending_resize(now_ms) {
            Some(resize) => RenderStep::MoveCapture(resize),
            None => self.enter_poll(force_reimport),
        }
    }

    fn enter_metrics(&mut self, now_ms: u64) -> (r: RenderStep)
        ensures
            (*final(self), r) == old(self).to_metrics(now_ms),
    {
        match self.maybe_log_metrics(now_ms) {
            Some(metrics) => RenderStep::LogMetrics(metrics),
            None => RenderStep::AcquireSurface,
        }
    }
}

/// A frame that is being rendered.
#[derive(Clone, Copy, Debug, PartialEq, Eq, Structural)]
pub struct RenderPass {
    step: RenderStep,
}

impl RenderPass {
    /// What to do next.
    pub closed spec fn spec_step(self) -> RenderStep {
        self.step
    }

    /// What to do next.
    #[verifier::when_used_as_spec(spec_step)]
    pub fn step(self) -> (r: RenderStep)
        ensures
            r == self.step(),
    {
        self.step
    }

    /// Reports what came of the step that was due, at the given time.
    pub fn report(
        &mut self,
        renderer: &mut WebViewRenderer,
        reply: RenderReply,
        force_reimport: bool,
        now_ms: u64,
    )
        requires
            reply_fits(old(self).step(), reply),
        ensures
            (*final(renderer), final(self).step()) == old(renderer).after(
                old(self).step(),
                reply,
                force_reimport,
                now_ms,
            ),
    {
        self.step = match (self.step, reply) {
            (RenderStep::ConfigureSurface(_), _) => renderer.enter_resize(force_reimport, now_ms),
            (RenderStep::MoveCapture(resize), _) => RenderStep::ResizeCapture(resize),
            (RenderStep::ResizeCapture(_), _) => renderer.enter_poll(force_reimport),
            (RenderStep::DropDestination, _) => RenderStep::Poll,
            (RenderStep::Poll, RenderReply::Polled(outcome)) => {
                match renderer.refresh_captured_texture(outcome) {
                    PollAction::Import => RenderStep::Import,
                    PollAction::RestartCapture => RenderStep::RestartCapture,
                    PollAction::Keep => if matches!(outcome, PollOutcome::Failed) {
                        RenderStep::AcquireSurface
                    } else {
                        renderer.enter_metrics(now_ms)
                    },
                }
            },
            (RenderStep::Import, RenderReply::Done) => RenderStep::CloseHandle,
            (RenderStep::CloseHandle, RenderReply::Done) => {
                renderer.resource_imported();
                renderer.enter_metrics(now_ms)
            },
            (RenderStep::RestartCapture, _) => renderer.enter_metrics(now_ms),
            (RenderStep::LogMetrics(_), _) => RenderStep::AcquireSurface,
            (RenderStep::AcquireSurface, RenderReply::Surface(outcome)) => {
                match after_surface(outcome) {
                    SurfaceAction::Draw => RenderStep::Draw {
                        flush_cache: renderer.flushes_cache(),
                    },
                    SurfaceAction::Reconfigure => RenderStep::ReconfigureSurface,
                    SurfaceAction::Skip => RenderStep::Finish,
                }
            },
            _ => RenderStep::Finish,
        };
    }
}

/// A frame is drawn only right after its surface texture has been acquired, the
/// surface texture is acquired only after the producer has been polled, and a
/// poll that failed is followed by that and not by metrics.
pub proof fn frame_steps_are_ordered(
    renderer: WebViewRenderer,
    step: RenderStep,
    reply: RenderReply,
    force_reimport: bool,
    now_ms: u64,
)
    requires
        reply_fits(step, reply),
    ensures
        renderer.after(step, reply, force_reimport, now_ms).1 is Draw ==> step is AcquireSurface,
        renderer.after(step, reply, force_reimport, now_ms).1 is AcquireSurface ==> {
            ||| step is Poll
            ||| step is CloseHandle
            ||| step is RestartCapture
            ||| step is LogMetrics
        },
        renderer.after(step, reply, force_reimport, now_ms).1 is CloseHandle <==> step is Import
            && reply is Done,
        reply == RenderReply::Polled(PollOutcome::Failed) ==> renderer.after(
            step,
            reply,
            force_reimport,
            now_ms,
        ) == (renderer, RenderStep::AcquireSurface),
{
}

/// A stalled capture is restarted, and not before it has stalled: right after a
/// frame, the capture is restarted by the last of [`STALL_POLLS`] empty polls in
/// a row, and by none of those before.
pub proof fn stalled_capture_restarts(state: WebViewRenderer, n: nat)
    requires
        state.consecutive_empty_polls == 0,
        state.capture_restarts < u64::MAX,
        n <= STALL_POLLS,
    ensures
        state.after_empty_polls(n).capture_restarts == (if n == STALL_POLLS {
            state.capture_restarts + 1
        } else {
            state.capture_restarts as int
        }),
        state.after_empty_polls(n).consecutive_empty_polls == (if n == STALL_POLLS {
            0
        } else {
            n as int
        }),
    decreases n,
{
    if n > 0 {
        stalled_capture_restarts(state, (n - 1) as nat);
    }
}

/// The capture covers the right half of its window, from the top edge down: no side is
/// shorter than 120 pixels, and none is longer than that takes. Together with what is
/// left of it, it spans the window, or just itself where the window is narrower.
pub proof fn capture_covers_the_right_half(window: PhysicalSize, size: PhysicalSize, offset: u32)
    requires
        call_ensures(capture_size_for_window, (window,), size),
        call_ensures(capture_offset_for_window, (window,), offset),
    ensures
        size.width >= 120 && size.height >= 120,
        window.width >= 240 ==> window.width - 1 <= 2 * size.width <= window.width,
        window.width < 240 ==> size.width == 120,
        window.height >= 120 ==> size.height == window.height,
        window.height < 120 ==> size.height == 120,
        window.width >= size.width ==> offset + size.width == window.width,
        window.width < size.width ==> offset == 0,
{
}

/// A flag is off exactly if it is not set, empty or zero.
pub proof fn flags_are_set_by_any_text(value: Option<&str>, set: bool)
    requires
        call_ensures(flag_is_set, (value,), set),
    ensures
        value is None ==> !set,
        value matches Some(text) ==> (!set <==> text@.len() == 0 || text@ == seq!['0']),
{
    reveal_strlit("");
    reveal_strlit("0");
    assert(""@ =~= Seq::<char>::empty());
    assert("0"@ =~= seq!['0']);
    if let Some(text) = value {
        if text@.len() == 0 {
            assert(text@ =~= ""@);
        }
    }
}

/// Each line of a report ends in what it reports, in full: the adapter, the backend, the
/// webview, its preferred mode, what it supports, and why.
pub proof fn report_lines_end_in_what_they_report(
    adapter: &str,
    backend: InteropBackend,
    capabilities: &WryWebSurfaceCapabilities,
    lines: Vec<String>,
    i: int,
)
    requires
        call_ensures(capability_report, (adapter, backend, capabilities), lines),
        0 <= i < 8,
    ensures
        lines@.len() == 8,
        ({
            let reported = if i == 0 {
                adapter@
            } else if i == 1 {
                backend.name()@
            } else if i == 2 {
                capabilities.backend.name()@
            } else if i == 3 {
                capabilities.preferred_mode.name()@
            } else if i == 4 {
                capabilities.imported_texture.shown()
            } else if i == 5 {
                capabilities.native_child_overlay.shown()
            } else if i == 6 {
                capabilities.cpu_snapshot.shown()
            } else {
                capabilities.reason@
            };
            &&& lines@[i]@.len() >= reported.len()
            &&& lines@[i]@.skip(lines@[i]@.len() - reported.len()) == reported
        }),
{
}

/// A captured frame is imported as it is, so its texture keeps the format of the
/// resource that the producer goes on writing to, and no conversion is asked for.
pub proof fn captured_frames_are_not_converted(
    options: ImportOptions,
    frame: crate::interop::Dx12SharedTexture,
    request: crate::interop::HalTextureRequest,
    conversion: Option<crate::texture::TextureFormat>,
)
    requires
        call_ensures(capture_import_options, (), options),
        call_ensures(
            crate::interop::import_dx12_shared_texture,
            (
                &frame,
                InteropBackend::Dx12,
                &options,
                crate::platform::TargetPlatform::Windows,
            ),
            Ok::<crate::interop::HalTextureRequest, crate::error::InteropError>(request),
        ),
        call_ensures(crate::interop::HalTextureRequest::conversion, (request,), conversion),
    ensures
        conversion is None,
        request.output_format() == frame.format,
        options.normalize_origin,
        !options.allow_copy_fallback,
{
}

/// A poll that gave a frame is answered by its import exactly if its resource is new;
/// frames are counted, and a frame ends a run of empty polls. An error counts as
/// neither, and changes nothing.
pub proof fn polls_are_answered(
    renderer: &mut WebViewRenderer,
    outcome: PollOutcome,
    action: PollAction,
)
    requires
        call_ensures(WebViewRenderer::refresh_captured_texture, (renderer, outcome), action),
    ensures
        action == PollAction::Import <==> outcome == (PollOutcome::Frame { resource_is_new: true }),
        action == PollAction::RestartCapture <==> outcome == PollOutcome::Empty
            && old(renderer).consecutive_empty_polls >= 119,
        outcome is Frame ==> final(renderer).consecutive_empty_polls == 0,
        outcome is Frame && old(renderer).frames_acquired < u64::MAX
            ==> final(renderer).frames_acquired == old(renderer).frames_acquired + 1,
        !(outcome is Frame) ==> final(renderer).frames_acquired == old(renderer).frames_acquired,
        outcome == PollOutcome::Empty && old(renderer).consecutive_empty_polls < 119
            ==> final(renderer).consecutive_empty_polls == old(renderer).consecutive_empty_polls + 1
            && final(renderer).capture_restarts == old(renderer).capture_restarts,
        action == PollAction::RestartCapture ==> final(renderer).consecutive_empty_polls == 0,
        action == PollAction::RestartCapture && old(renderer).capture_restarts < u64::MAX
            ==> final(renderer).capture_restarts == old(renderer).capture_restarts + 1,
        outcome == PollOutcome::Failed ==> *final(renderer) == *old(renderer),
        final(renderer).frames_polled == old(renderer).frames_polled,
        final(renderer).frames_imported == old(renderer).frames_imported,
        final(renderer).has_imported == old(renderer).has_imported,
        final(renderer).pending_resize == old(renderer).pending_resize,
        final(renderer).committed_capture == old(renderer).committed_capture,
{
}

/// Polls and imports are counted one by one, and an import is remembered.
pub proof fn polls_and_imports_are_counted(
    polling: &mut WebViewRenderer,
    force_reimport: bool,
    drops: bool,
    importing: &mut WebViewRenderer,
)
    requires
        call_ensures(WebViewRenderer::before_poll, (polling, force_reimport), drops),
        call_ensures(WebViewRenderer::resource_imported, (importing,), ()),
    ensures
        drops == force_reimport,
        old(polling).frames_polled < u64::MAX ==> final(polling).frames_polled
            == old(polling).frames_polled + 1,
        old(polling).frames_polled == u64::MAX ==> final(polling).frames_polled == u64::MAX,
        final(importing).has_imported,
        old(importing).frames_imported < u64::MAX ==> final(importing).frames_imported
            == old(importing).frames_imported + 1,
        old(importing).frames_resource_swapped < u64::MAX
            ==> final(importing).frames_resource_swapped == old(importing).frames_resource_swapped
            + 1,
        final(importing).frames_polled == old(importing).frames_polled,
        final(importing).frames_acquired == old(importing).frames_acquired,
{
}

/// Metrics are reported every two seconds, with what has been counted since; then
/// counting starts anew, except for imports and restarts, which are counted in all.
pub proof fn metrics_are_reported_every_two_seconds(
    renderer: &mut WebViewRenderer,
    now_ms: u64,
    metrics: Option<RenderMetrics>,
)
    requires
        call_ensures(WebViewRenderer::maybe_log_metrics, (renderer, now_ms), metrics),
    ensures
        metrics is Some <==> now_ms >= old(renderer).last_metric_log_ms + 2000,
        metrics is None ==> *final(renderer) == *old(renderer),
        metrics matches Some(m) ==> {
            &&& m.elapsed_ms == now_ms - old(renderer).last_metric_log_ms
            &&& m.polled == old(renderer).frames_polled
            &&& m.acquired == old(renderer).frames_acquired
            &&& m.resource_swaps == old(renderer).frames_resource_swapped
            &&& m.total_imports == old(renderer).frames_imported
            &&& m.capture_restarts == old(renderer).capture_restarts
            &&& final(renderer).frames_polled == 0
            &&& final(renderer).frames_acquired == 0
            &&& final(renderer).frames_resource_swapped == 0
            &&& final(renderer).last_metric_log_ms == now_ms
            &&& final(renderer).frames_imported == old(renderer).frames_imported
            &&& final(renderer).capture_restarts == old(renderer).capture_restarts
            &&& final(renderer).consecutive_empty_polls == old(renderer).consecutive_empty_polls
            &&& final(renderer).pending_resize == old(renderer).pending_resize
            &&& final(renderer).has_imported == old(renderer).has_imported
        },
{
}

/// The capture follows the window once that has kept its size for 120 milliseconds, and
/// not before: it is given the size and place for the window's last size, exactly if
/// that changes its size, and only once.
pub proof fn capture_follows_a_settled_window(
    resizing: &mut WebViewRenderer,
    window: PhysicalSize,
    since_ms: u64,
    applying: &mut WebViewRenderer,
    now_ms: u64,
    told: Option<CaptureResize>,
    again: &mut WebViewRenderer,
    later_ms: u64,
    told_again: Option<CaptureResize>,
    size: PhysicalSize,
    offset: u32,
)
    requires
        window.width > 0 && window.height > 0,
        call_ensures(WebViewRenderer::resize, (resizing, window, since_ms), ()),
        *applying == *final(resizing),
        call_ensures(WebViewRenderer::apply_pending_resize, (applying, now_ms), told),
        *again == *final(applying),
        call_ensures(WebViewRenderer::apply_pending_resize, (again, later_ms), told_again),
        call_ensures(capture_size_for_window, (window,), size),
        call_ensures(capture_offset_for_window, (window,), offset),
    ensures
        final(resizing).surface_size == window,
        now_ms < since_ms + 120 ==> told is None && *final(applying) == *old(applying),
        now_ms >= since_ms + 120 ==> {
            &&& told is None <==> size == old(resizing).committed_capture
            &&& told matches Some(resize) ==> resize.size == size && resize.offset_x == offset
            &&& final(applying).committed_capture == size
            &&& final(applying).pending_resize is None
            &&& told_again is None
        },
{
}

/// A minimized window changes nothing, and any other size is kept for the surface and
/// the capture to follow.
pub proof fn minimized_window_changes_nothing(
    renderer: &mut WebViewRenderer,
    window: PhysicalSize,
    now_ms: u64,
)
    requires
        call_ensures(WebViewRenderer::resize, (renderer, window, now_ms), ()),
    ensures
        window.width == 0 || window.height == 0 ==> *final(renderer) == *old(renderer),
        window.width > 0 && window.height > 0 ==> final(renderer).surface_size == window && (
        final(renderer).pending_resize matches Some(pending) && pending.window == window
            && pending.since_ms == now_ms),
        final(renderer).committed_capture == old(renderer).committed_capture,
        final(renderer).configured_surface == old(renderer).configured_surface,
{
}

/// A renderer begins with the capture of its window, a surface that is not empty and
/// configured already, nothing counted, and its first import counted in advance.
pub proof fn renderer_begins_with_its_window(
    window: PhysicalSize,
    has_imported: bool,
    now_ms: u64,
    renderer: WebViewRenderer,
    size: PhysicalSize,
)
    requires
        call_ensures(WebViewRenderer::new, (window, has_imported, now_ms), renderer),
        call_ensures(capture_size_for_window, (window,), size),
    ensures
        renderer.committed_capture == size,
        renderer.surface_size == renderer.configured_surface,
        renderer.surface_size.width >= 1 && renderer.surface_size.height >= 1,
        window.width > 0 ==> renderer.surface_size.width == window.width,
        window.height > 0 ==> renderer.surface_size.height == window.height,
        renderer.has_imported == has_imported,
        renderer.frames_imported == 1,
        renderer.frames_polled == 0 && renderer.frames_acquired == 0,
        renderer.frames_resource_swapped == 0 && renderer.capture_restarts == 0,
        renderer.consecutive_empty_polls == 0,
        renderer.pending_resize is None,
        renderer.last_metric_log_ms == now_ms,
{
}

/// A frame begins with the surface where that has another size, and then with the
/// capture where that has; the producer is polled only after both, and after its
/// destination has been dropped where every frame is to be imported anew.
pub proof fn frame_begins_with_what_changed(
    renderer: &mut WebViewRenderer,
    force_reimport: bool,
    now_ms: u64,
    pass: RenderPass,
    due: Option<CaptureResize>,
)
    requires
        call_ensures(WebViewRenderer::render, (renderer, force_reimport, now_ms), pass),
        due == old(renderer).resize_due(now_ms),
    ensures
        ({
            let surface_changed = old(renderer).surface_size != old(renderer).configured_surface;
            &&& surface_changed <==> pass.step() is ConfigureSurface
            &&& pass.step() matches RenderStep::ConfigureSurface(size) ==> size
                == old(renderer).surface_size
            &&& final(renderer).configured_surface == old(renderer).surface_size
            &&& !surface_changed && due is Some ==> pass.step() == RenderStep::MoveCapture(due->0)
            &&& !surface_changed && due is None ==> pass.step() == (if force_reimport {
                RenderStep::DropDestination
            } else {
                RenderStep::Poll
            })
            &&& pass.step() is Poll || pass.step() is DropDestination ==> (
            old(renderer).frames_polled < u64::MAX ==> final(renderer).frames_polled
                == old(renderer).frames_polled + 1)
        }),
{
}

/// Each step of a frame is followed by the next: the capture is moved before it is
/// resized and both before the poll; a new resource is imported and its handle closed;
/// a stalled capture is restarted; and the frame is drawn into the texture that was
/// acquired, after a flush exactly if something has been imported, or the surface is
/// configured again where it is stale, or the frame is skipped.
pub proof fn steps_of_a_frame_follow_each_other(
    pass: &mut RenderPass,
    renderer: &mut WebViewRenderer,
    reply: RenderReply,
    force_reimport: bool,
    now_ms: u64,
)
    requires
        reply_fits(pass.step(), reply),
        call_ensures(RenderPass::report, (pass, renderer, reply, force_reimport, now_ms), ()),
    ensures
        old(pass).step() matches RenderStep::MoveCapture(resize) ==> final(pass).step()
            == RenderStep::ResizeCapture(resize),
        old(pass).step() is ResizeCapture ==> final(pass).step() == (if force_reimport {
            RenderStep::DropDestination
        } else {
            RenderStep::Poll
        }),
        old(pass).step() is DropDestination ==> final(pass).step() is Poll,
        reply == RenderReply::Polled(PollOutcome::Frame { resource_is_new: true })
            ==> final(pass).step() is Import,
        old(pass).step() is Poll && old(renderer).consecutive_empty_polls >= 119 && reply
            == RenderReply::Polled(PollOutcome::Empty) ==> final(pass).step() is RestartCapture,
        old(pass).step() is Import && reply is Done ==> final(pass).step() is CloseHandle,
        old(pass).step() is Import && reply is Failed ==> final(pass).step() is Finish,
        old(pass).step() is CloseHandle && reply is Done ==> final(renderer).has_imported,
        old(pass).step() is CloseHandle && reply is Failed ==> final(pass).step() is Finish,
        old(pass).step() is LogMetrics ==> final(pass).step() is AcquireSurface,
        old(pass).step() is RestartCapture ==> final(pass).step() is LogMetrics
            || final(pass).step() is AcquireSurface,
        reply == RenderReply::Surface(SurfaceOutcome::Success) || reply == RenderReply::Surface(
            SurfaceOutcome::Suboptimal,
        ) ==> final(pass).step() == (RenderStep::Draw { flush_cache: old(renderer).has_imported }),
        reply == RenderReply::Surface(SurfaceOutcome::Outdated) || reply == RenderReply::Surface(
            SurfaceOutcome::Lost,
        ) ==> final(pass).step() is ReconfigureSurface,
        reply == RenderReply::Surface(SurfaceOutcome::Timeout) || reply == RenderReply::Surface(
            SurfaceOutcome::Occluded,
        ) || reply == RenderReply::Surface(SurfaceOutcome::Validation) ==> final(pass).step()
            is Finish,
        old(pass).step() is Draw || old(pass).step() is ReconfigureSurface ==> final(pass).step()
            is Finish,
        final(pass).step() matches RenderStep::LogMetrics(metrics) ==> metrics.elapsed_ms >= 2000
            && final(renderer).last_metric_log_ms == now_ms,
{
}

/// Every outcome of a step can be reported, its failure too.
pub proof fn outcomes_can_be_reported(
    resize: CaptureResize,
    size: PhysicalSize,
    metrics: RenderMetrics,
    poll: PollOutcome,
    surface: SurfaceOutcome,
    flush_cache: bool,
)
    ensures
        reply_fits(RenderStep::ConfigureSurface(size), RenderReply::Done),
        reply_fits(RenderStep::MoveCapture(resize), RenderReply::Done),
        reply_fits(RenderStep::MoveCapture(resize), RenderReply::Failed),
        reply_fits(RenderStep::ResizeCapture(resize), RenderReply::Done),
        reply_fits(RenderStep::ResizeCapture(resize), RenderReply::Failed),
        reply_fits(RenderStep::DropDestination, RenderReply::Done),
        reply_fits(RenderStep::Poll, RenderReply::Polled(poll)),
        reply_fits(RenderStep::Import, RenderReply::Done),
        reply_fits(RenderStep::Import, RenderReply::Failed),
        reply_fits(RenderStep::CloseHandle, RenderReply::Done),
        reply_fits(RenderStep::CloseHandle, RenderReply::Failed),
        reply_fits(RenderStep::RestartCapture, RenderReply::Done),
        reply_fits(RenderStep::LogMetrics(metrics), RenderReply::Done),
        reply_fits(RenderStep::AcquireSurface, RenderReply::Surface(surface)),
        reply_fits(RenderStep::ReconfigureSurface, RenderReply::Done),
        reply_fits(RenderStep::Draw { flush_cache }, RenderReply::Done),
{
}

/// Once the surface is configured, a frame goes on as if it had been all along; and a
/// poll that neither imports nor restarts nor fails leads to the metrics where they are
/// due and to the surface where they are not, as an import and a restart do.
pub proof fn frame_goes_on_after_each_step(
    pass: &mut RenderPass,
    renderer: &mut WebViewRenderer,
    reply: RenderReply,
    force_reimport: bool,
    now_ms: u64,
    due: Option<CaptureResize>,
)
    requires
        reply_fits(pass.step(), reply),
        call_ensures(RenderPass::report, (pass, renderer, reply, force_reimport, now_ms), ()),
        due == old(renderer).resize_due(now_ms),
    ensures
        ({
            let to_metrics = {
                ||| reply == RenderReply::Polled(PollOutcome::Frame { resource_is_new: false })
                ||| reply == RenderReply::Polled(PollOutcome::Empty)
                    && old(renderer).consecutive_empty_polls < 119
                ||| old(pass).step() is CloseHandle && reply is Done
                ||| old(pass).step() is RestartCapture
            };
            &&& old(pass).step() is ConfigureSurface && due is Some ==> final(pass).step()
                == RenderStep::MoveCapture(due->0)
            &&& old(pass).step() is ConfigureSurface && due is None ==> final(pass).step() == (
            if force_reimport {
                RenderStep::DropDestination
            } else {
                RenderStep::Poll
            })
            &&& to_metrics ==> (final(pass).step() is LogMetrics <==> now_ms >= old(
                renderer,
            ).last_metric_log_ms + 2000)
            &&& to_metrics ==> (final(pass).step() is AcquireSurface <==> now_ms < old(
                renderer,
            ).last_metric_log_ms + 2000)
            &&& old(pass).step() is ResizeCapture && old(renderer).frames_polled < u64::MAX
                ==> final(renderer).frames_polled == old(renderer).frames_polled + 1
            &&& reply == RenderReply::Polled(PollOutcome::Failed) ==> final(pass).step()
                is AcquireSurface && *final(renderer) == *old(renderer)
        }),
{
}

/// The surface's next texture is drawn into where there is one, a stale surface is
/// configured again, and one that is not there yet is skipped; the surface is configured
/// exactly where its size has changed since.
pub proof fn surface_is_used_as_it_comes(
    outcome: SurfaceOutcome,
    action: SurfaceAction,
    renderer: &mut WebViewRenderer,
    size: Option<PhysicalSize>,
)
    requires
        call_ensures(after_surface, (outcome,), action),
        call_ensures(WebViewRenderer::surface_to_configure, (renderer,), size),
    ensures
        action == SurfaceAction::Draw <==> outcome == SurfaceOutcome::Success || outcome
            == SurfaceOutcome::Suboptimal,
        action == SurfaceAction::Reconfigure <==> outcome == SurfaceOutcome::Outdated || outcome
            == SurfaceOutcome::Lost,
        size is Some <==> old(renderer).surface_size != old(renderer).configured_surface,
        size matches Some(configured) ==> configured == old(renderer).surface_size,
        final(renderer).configured_surface == old(renderer).surface_size,
        final(renderer).surface_size == old(renderer).surface_size,
        final(renderer).pending_resize == old(renderer).pending_resize,
{
}

} // verus!

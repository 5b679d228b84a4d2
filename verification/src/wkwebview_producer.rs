//! The macOS producer, over WKWebView. Its capture path (ScreenCaptureKit to
//! IOSurface to Metal) is not wired: the webview stays an overlay.

use vstd::prelude::*;

use crate::error::UnsupportedReason;
use crate::geometry::{PhysicalSize, PixelOffset};
use crate::interop::{CapabilityStatus, InteropBackend};
use crate::web_surface::{
    SurfaceReport, SystemWebviewBackend, WebSurfaceMode, WryWebSurfaceCapabilities,
    WryWebSurfaceError, WryWebSurfaceFrame, WryWebSurfaceProducer,
};

verus! {

/// Configuration for [`WkWebViewProducer::new`].
#[derive(Clone, Debug)]
pub struct WkWebViewProducerConfig {
    /// Initial size of the WKWebView frame and the capture region, in physical pixels.
    pub size: PhysicalSize,
    /// Offset of the WKWebView relative to the parent `NSView`, in points.
    pub offset: PixelOffset,
    /// Directory of the persistent `WKWebsiteDataStore`.
    pub data_dir: String,
    /// How long a navigation may take, in milliseconds.
    pub navigation_timeout_ms: u64,
    /// How long the first frame after the start of a capture may take, in
    /// milliseconds.
    pub frame_timeout_ms: u64,
}

impl WkWebViewProducerConfig {
    /// A configuration with no offset, five seconds for a navigation and two
    /// seconds for the first frame.
    pub fn new(size: PhysicalSize, data_dir: String) -> (r: Self)
        ensures
            r.size == size,
            r.offset == PixelOffset::zero(),
            r.data_dir@ == data_dir@,
            r.navigation_timeout_ms == 5000,
            r.frame_timeout_ms == 2000,
    {
        WkWebViewProducerConfig {
            size,
            offset: PixelOffset::zero(),
            data_dir,
            navigation_timeout_ms: 5000,
            frame_timeout_ms: 2000,
        }
    }

    /// This configuration with another offset.
    pub fn with_offset(self, offset: PixelOffset) -> (r: Self)
        ensures
            r == (WkWebViewProducerConfig { offset, ..self }),
    {
        WkWebViewProducerConfig {
            size: self.size,
            offset,
            data_dir: self.data_dir,
            navigation_timeout_ms: self.navigation_timeout_ms,
            frame_timeout_ms: self.frame_timeout_ms,
        }
    }
}

/// WKWebView producer that leaves the webview a platform overlay.
#[derive(Debug)]
pub struct WkWebViewProducer {
    capabilities: WryWebSurfaceCapabilities,
}

/// What the producer advertises as long as its capture path is not wired.
pub open spec fn skeleton_report() -> SurfaceReport {
    SurfaceReport {
        backend: SystemWebviewBackend::WkWebView,
        preferred_mode: WebSurfaceMode::NativeChildOverlay,
        imported_texture: crate::web_surface::not_yet_implemented(),
        native_child_overlay: CapabilityStatus::Supported,
        cpu_snapshot: CapabilityStatus::Supported,
        supported_frames: seq![],
        reason: "WkWebViewProducer is a planning skeleton; ScreenCaptureKit + IOSurface → Metal capture is not yet wired.",
    }
}

impl WkWebViewProducer {
    /// What this producer advertises.
    pub closed spec fn report(&self) -> SurfaceReport {
        self.capabilities@
    }

    /// The producer for a `NSView` at the given address, which stays untouched.
    pub fn new(_parent_view: u64, _config: WkWebViewProducerConfig) -> (r: Result<Self, WryWebSurfaceError>)
        ensures
            r matches Ok(producer) && producer.report() == skeleton_report(),
    {
        let capabilities = WryWebSurfaceCapabilities {
            backend: SystemWebviewBackend::WkWebView,
            preferred_mode: WebSurfaceMode::NativeChildOverlay,
            imported_texture: CapabilityStatus::Unsupported(
                UnsupportedReason::NativeImportNotYetImplemented,
            ),
            native_child_overlay: CapabilityStatus::Supported,
            cpu_snapshot: CapabilityStatus::Supported,
            supported_frames: Vec::new(),
            reason: "WkWebViewProducer is a planning skeleton; ScreenCaptureKit + IOSurface → Metal capture is not yet wired.",
        };
        assert(capabilities.supported_frames@ =~= seq![]);
        Ok(WkWebViewProducer { capabilities })
    }

    /// A snapshot of the page as CPU pixels. Not implemented yet.
    pub fn capture_cpu_snapshot(&mut self) -> (r: Result<WryWebSurfaceFrame, WryWebSurfaceError>)
        ensures
            *final(self) == *old(self),
            r == Err::<WryWebSurfaceFrame, WryWebSurfaceError>(
                WryWebSurfaceError::Unsupported(
                    "WkWebViewProducer::capture_cpu_snapshot is not implemented yet",
                ),
            ),
    {
        Err(
            WryWebSurfaceError::Unsupported(
                "WkWebViewProducer::capture_cpu_snapshot is not implemented yet",
            ),
        )
    }

    /// Non-blocking acquire. No capture path is wired, so there is no frame.
    pub fn try_acquire_frame(&mut self) -> (r: Result<
        Option<WryWebSurfaceFrame>,
        WryWebSurfaceError,
    >)
        ensures
            *final(self) == *old(self),
            r == Ok::<Option<WryWebSurfaceFrame>, WryWebSurfaceError>(None),
    {
        Ok(None)
    }
}

impl WryWebSurfaceProducer for WkWebViewProducer {
    open spec fn may_advertise(&self, report: SurfaceReport) -> bool {
        report == self.report()
    }

    fn capabilities(&self) -> (r: WryWebSurfaceCapabilities) {
        self.capabilities.clone()
    }

    /// The webview remains a platform overlay that the consumer composites.
    fn acquire_frame(&mut self) -> (r: Result<WryWebSurfaceFrame, WryWebSurfaceError>)
        ensures
            *final(self) == *old(self),
            r == Ok::<WryWebSurfaceFrame, WryWebSurfaceError>(WryWebSurfaceFrame::OverlayOnly),
    {
        Ok(WryWebSurfaceFrame::OverlayOnly)
    }

    fn navigate_to_string(&mut self, _html: &str, _timeout_ms: u64) -> (r: Result<
        (),
        WryWebSurfaceError,
    >)
        ensures
            *final(self) == *old(self),
            r == Err::<(), WryWebSurfaceError>(
                WryWebSurfaceError::Unsupported(
                    "WkWebViewProducer::navigate_to_string is not implemented yet",
                ),
            ),
    {
        Err(
            WryWebSurfaceError::Unsupported(
                "WkWebViewProducer::navigate_to_string is not implemented yet",
            ),
        )
    }

    fn resize(&mut self, _size: PhysicalSize) -> (r: Result<(), WryWebSurfaceError>)
        ensures
            *final(self) == *old(self),
            r == Err::<(), WryWebSurfaceError>(
                WryWebSurfaceError::Unsupported("WkWebViewProducer::resize is not implemented yet"),
            ),
    {
        Err(WryWebSurfaceError::Unsupported("WkWebViewProducer::resize is not implemented yet"))
    }

    fn set_offset(&mut self, _offset: PixelOffset) -> (r: Result<(), WryWebSurfaceError>)
        ensures
            *final(self) == *old(self),
            r == Err::<(), WryWebSurfaceError>(
                WryWebSurfaceError::Unsupported("WkWebViewProducer::set_offset is not implemented yet"),
            ),
    {
        Err(WryWebSurfaceError::Unsupported("WkWebViewProducer::set_offset is not implemented yet"))
    }
}

/// The producer advertises what a probe of its webview reports, whatever the
/// host; only the reason is its own.
pub proof fn skeleton_agrees_with_probe(host: Option<InteropBackend>)
    ensures
        crate::web_surface::surface_report(SystemWebviewBackend::WkWebView, host) == (SurfaceReport {
            reason: crate::web_surface::surface_report(SystemWebviewBackend::WkWebView, host).reason,
            ..skeleton_report()
        }),
{
}

/// Without a capture path the webview stays an overlay: the producer says so, offers no
/// frames, and says of itself what it is.
pub proof fn skeleton_offers_an_overlay(
    parent: u64,
    config: WkWebViewProducerConfig,
    producer: &WkWebViewProducer,
    offered: WryWebSurfaceCapabilities,
)
    requires
        call_ensures(
            WkWebViewProducer::new,
            (parent, config),
            Ok::<WkWebViewProducer, WryWebSurfaceError>(*producer),
        ),
        call_ensures(
            <WkWebViewProducer as WryWebSurfaceProducer>::capabilities,
            (producer,),
            offered,
        ),
    ensures
        offered@.backend == SystemWebviewBackend::WkWebView,
        offered@.preferred_mode == WebSurfaceMode::NativeChildOverlay,
        offered@.native_child_overlay is Supported,
        offered@.imported_texture == CapabilityStatus::Unsupported(
            UnsupportedReason::NativeImportNotYetImplemented,
        ),
        offered@.cpu_snapshot is Supported,
        offered@.supported_frames.len() == 0,
{
}

/// A configuration is built up piece by piece: an offset changes nothing else, and where
/// none is set there is none.
pub proof fn configuration_is_built_up(
    size: PhysicalSize,
    data_dir: String,
    plain: WkWebViewProducerConfig,
    offset: PixelOffset,
    moved: WkWebViewProducerConfig,
)
    requires
        call_ensures(WkWebViewProducerConfig::new, (size, data_dir), plain),
        call_ensures(WkWebViewProducerConfig::with_offset, (plain, offset), moved),
    ensures
        plain.offset.x_bits == 0 && plain.offset.y_bits == 0,
        moved.offset == offset,
        moved.size == size,
        moved.data_dir@ == data_dir@,
        moved.navigation_timeout_ms == 5000,
        moved.frame_timeout_ms == 2000,
{
}

} // verus!

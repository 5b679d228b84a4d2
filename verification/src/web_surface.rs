//! What a system webview can contribute to a host compositor.

use vstd::prelude::*;
use vstd::std_specs::convert::FromSpecImpl;

use crate::error::{InteropError, UnsupportedReason};
use crate::geometry::{PhysicalSize, PixelOffset};
use crate::interop::{
    CapabilityStatus, HostWgpuContext, InteropBackend, NativeFrame, NativeFrameKind,
    ProducerCapabilities,
};
use crate::platform::TargetPlatform;
use crate::text::join2;
use crate::texture::RgbaImage;

verus! {

/// How a system webview can participate in a host compositor.
#[derive(Clone, Copy, Debug, PartialEq, Eq, Structural)]
#[non_exhaustive]
pub enum WebSurfaceMode {
    /// The adapter can emit a native GPU frame that the host can import.
    ImportedTexture,
    /// The webview must remain a platform child window/visual overlay.
    NativeChildOverlay,
    /// The adapter can emit CPU pixels or encoded snapshots.
    CpuSnapshot,
    /// No usable surface path is available.
    Unsupported,
}

impl WebSurfaceMode {
    /// The variant's name.
    pub open spec fn spec_name(self) -> &'static str {
        match self {
            WebSurfaceMode::ImportedTexture => "ImportedTexture",
            WebSurfaceMode::NativeChildOverlay => "NativeChildOverlay",
            WebSurfaceMode::CpuSnapshot => "CpuSnapshot",
            WebSurfaceMode::Unsupported => "Unsupported",
        }
    }

    /// The variant's name.
    #[verifier::when_used_as_spec(spec_name)]
    pub fn name(self) -> (r: &'static str)
        ensures
            r == self.name(),
    {
        match self {
            WebSurfaceMode::ImportedTexture => "ImportedTexture",
            WebSurfaceMode::NativeChildOverlay => "NativeChildOverlay",
            WebSurfaceMode::CpuSnapshot => "CpuSnapshot",
            WebSurfaceMode::Unsupported => "Unsupported",
        }
    }

    /// What a surface of this mode is called in reports.
    pub open spec fn spec_label(self) -> &'static str {
        match self {
            WebSurfaceMode::ImportedTexture => "imported texture",
            WebSurfaceMode::NativeChildOverlay => "native child overlay",
            WebSurfaceMode::CpuSnapshot => "CPU snapshot",
            WebSurfaceMode::Unsupported => "unsupported",
        }
    }

    /// What a surface of this mode is called in reports.
    #[verifier::when_used_as_spec(spec_label)]
    pub fn label(self) -> (r: &'static str)
        ensures
            r == self.label(),
    {
        match self {
            WebSurfaceMode::ImportedTexture => "imported texture",
            WebSurfaceMode::NativeChildOverlay => "native child overlay",
            WebSurfaceMode::CpuSnapshot => "CPU snapshot",
            WebSurfaceMode::Unsupported => "unsupported",
        }
    }
}

/// The system webview backend behind Wry on the current platform.
#[derive(Clone, Copy, Debug, PartialEq, Eq, Structural)]
#[non_exhaustive]
pub enum SystemWebviewBackend {
    WebView2,
    WkWebView,
    WebKitGtk,
    Unknown,
}

impl SystemWebviewBackend {
    /// The variant's name.
    pub open spec fn spec_name(self) -> &'static str {
        match self {
            SystemWebviewBackend::WebView2 => "WebView2",
            SystemWebviewBackend::WkWebView => "WkWebView",
            SystemWebviewBackend::WebKitGtk => "WebKitGtk",
            SystemWebviewBackend::Unknown => "Unknown",
        }
    }

    /// The variant's name.
    #[verifier::when_used_as_spec(spec_name)]
    pub fn name(self) -> (r: &'static str)
        ensures
            r == self.name(),
    {
        match self {
            SystemWebviewBackend::WebView2 => "WebView2",
            SystemWebviewBackend::WkWebView => "WkWebView",
            SystemWebviewBackend::WebKitGtk => "WebKitGtk",
            SystemWebviewBackend::Unknown => "Unknown",
        }
    }

    /// The system webview of `platform`.
    pub open spec fn of_platform(platform: TargetPlatform) -> SystemWebviewBackend {
        match platform {
            TargetPlatform::Windows => SystemWebviewBackend::WebView2,
            TargetPlatform::MacOs => SystemWebviewBackend::WkWebView,
            TargetPlatform::Linux => SystemWebviewBackend::WebKitGtk,
            _ => SystemWebviewBackend::Unknown,
        }
    }

    /// The system webview of `platform`.
    pub fn detect(platform: TargetPlatform) -> (r: Self)
        ensures
            r == SystemWebviewBackend::of_platform(platform),
    {
        match platform {
            TargetPlatform::Windows => SystemWebviewBackend::WebView2,
            TargetPlatform::MacOs => SystemWebviewBackend::WkWebView,
            TargetPlatform::Linux => SystemWebviewBackend::WebKitGtk,
            _ => SystemWebviewBackend::Unknown,
        }
    }
}

/// Probe result for a Wry/system-webview surface.
#[derive(Debug, PartialEq, Eq)]
pub struct WryWebSurfaceCapabilities {
    pub backend: SystemWebviewBackend,
    pub preferred_mode: WebSurfaceMode,
    pub imported_texture: CapabilityStatus,
    pub native_child_overlay: CapabilityStatus,
    pub cpu_snapshot: CapabilityStatus,
    pub supported_frames: Vec<NativeFrameKind>,
    pub reason: &'static str,
}

/// The contents of a [`WryWebSurfaceCapabilities`].
pub struct SurfaceReport {
    pub backend: SystemWebviewBackend,
    pub preferred_mode: WebSurfaceMode,
    pub imported_texture: CapabilityStatus,
    pub native_child_overlay: CapabilityStatus,
    pub cpu_snapshot: CapabilityStatus,
    pub supported_frames: Seq<NativeFrameKind>,
    pub reason: &'static str,
}

impl View for WryWebSurfaceCapabilities {
    type V = SurfaceReport;

    open spec fn view(&self) -> SurfaceReport {
        SurfaceReport {
            backend: self.backend,
            preferred_mode: self.preferred_mode,
            imported_texture: self.imported_texture,
            native_child_overlay: self.native_child_overlay,
            cpu_snapshot: self.cpu_snapshot,
            supported_frames: self.supported_frames@,
            reason: self.reason,
        }
    }
}

impl Clone for WryWebSurfaceCapabilities {
    fn clone(&self) -> (r: Self)
        ensures
            r@ == self@,
    {
        let supported_frames = self.supported_frames.clone();
        assert(supported_frames@ =~= self.supported_frames@);
        WryWebSurfaceCapabilities {
            backend: self.backend,
            preferred_mode: self.preferred_mode,
            imported_texture: self.imported_texture,
            native_child_overlay: self.native_child_overlay,
            cpu_snapshot: self.cpu_snapshot,
            supported_frames,
            reason: self.reason,
        }
    }
}

/// A capability that is not implemented yet.
pub open spec fn not_yet_implemented() -> CapabilityStatus {
    CapabilityStatus::Unsupported(UnsupportedReason::NativeImportNotYetImplemented)
}

/// A capability that no backend stands behind.
pub open spec fn unavailable() -> CapabilityStatus {
    CapabilityStatus::Unsupported(UnsupportedReason::HostBackendUnavailable)
}

/// What WebView2 offers a host: its frames are D3D12 textures, so they can be
/// imported exactly where the host runs on Direct3D 12.
pub open spec fn webview2_report(host: Option<InteropBackend>) -> SurfaceReport {
    let importable = host == Some(InteropBackend::Dx12);
    SurfaceReport {
        backend: SystemWebviewBackend::WebView2,
        preferred_mode: if importable {
            WebSurfaceMode::ImportedTexture
        } else {
            WebSurfaceMode::NativeChildOverlay
        },
        imported_texture: if importable {
            CapabilityStatus::Supported
        } else if host is Some {
            CapabilityStatus::Unsupported(UnsupportedReason::HostBackendMismatch)
        } else {
            unavailable()
        },
        native_child_overlay: CapabilityStatus::Supported,
        cpu_snapshot: CapabilityStatus::Supported,
        supported_frames: seq![NativeFrameKind::Dx12SharedTexture],
        reason: "Windows target path is WebView2 CompositionController visual capture into a D3D texture, then Dx12SharedTexture import.",
    }
}

/// What a system webview offers a host on the given wgpu backend.
pub open spec fn surface_report(
    webview: SystemWebviewBackend,
    host: Option<InteropBackend>,
) -> SurfaceReport {
    match webview {
        SystemWebviewBackend::WebView2 => webview2_report(host),
        SystemWebviewBackend::WkWebView => SurfaceReport {
            backend: webview,
            preferred_mode: WebSurfaceMode::NativeChildOverlay,
            imported_texture: not_yet_implemented(),
            native_child_overlay: CapabilityStatus::Supported,
            cpu_snapshot: CapabilityStatus::Supported,
            supported_frames: seq![],
            reason: "WKWebView snapshot capture is useful as a fallback, but no Metal texture producer is wired.",
        },
        SystemWebviewBackend::WebKitGtk => SurfaceReport {
            backend: webview,
            preferred_mode: WebSurfaceMode::NativeChildOverlay,
            imported_texture: not_yet_implemented(),
            native_child_overlay: CapabilityStatus::Supported,
            cpu_snapshot: not_yet_implemented(),
            supported_frames: seq![],
            reason: "WebKitGTK has internal DMABUF presentation paths, but Wry does not expose them as a frame producer.",
        },
        SystemWebviewBackend::Unknown => SurfaceReport {
            backend: webview,
            preferred_mode: WebSurfaceMode::Unsupported,
            imported_texture: unavailable(),
            native_child_overlay: unavailable(),
            cpu_snapshot: unavailable(),
            supported_frames: seq![],
            reason: "No Wry/system-webview backend is defined for this platform.",
        },
    }
}

/// The backend of a host, where there is one.
pub open spec fn backend_of_host(host: Option<&HostWgpuContext>) -> Option<InteropBackend> {
    match host {
        Some(context) => Some(context.backend),
        None => None,
    }
}

impl WryWebSurfaceCapabilities {
    /// What the system webview of `platform` offers to `host`.
    pub fn probe(host: Option<&HostWgpuContext>, platform: TargetPlatform) -> (r: Self)
        ensures
            r@ == surface_report(
                SystemWebviewBackend::of_platform(platform),
                backend_of_host(host),
            ),
    {
        match SystemWebviewBackend::detect(platform) {
            SystemWebviewBackend::WebView2 => probe_webview2(host),
            SystemWebviewBackend::WkWebView => {
                let r = WryWebSurfaceCapabilities {
                    backend: SystemWebviewBackend::WkWebView,
                    preferred_mode: WebSurfaceMode::NativeChildOverlay,
                    imported_texture: CapabilityStatus::Unsupported(
                        UnsupportedReason::NativeImportNotYetImplemented,
                    ),
                    native_child_overlay: CapabilityStatus::Supported,
                    cpu_snapshot: CapabilityStatus::Supported,
                    supported_frames: Vec::new(),
                    reason: "WKWebView snapshot capture is useful as a fallback, but no Metal texture producer is wired.",
                };
                assert(r.supported_frames@ =~= seq![]);
                r
            },
            SystemWebviewBackend::WebKitGtk => {
                let r = WryWebSurfaceCapabilities {
                    backend: SystemWebviewBackend::WebKitGtk,
                    preferred_mode: WebSurfaceMode::NativeChildOverlay,
                    imported_texture: CapabilityStatus::Unsupported(
                        UnsupportedReason::NativeImportNotYetImplemented,
                    ),
                    native_child_overlay: CapabilityStatus::Supported,
                    cpu_snapshot: CapabilityStatus::Unsupported(
                        UnsupportedReason::NativeImportNotYetImplemented,
                    ),
                    supported_frames: Vec::new(),
                    reason: "WebKitGTK has internal DMABUF presentation paths, but Wry does not expose them as a frame producer.",
                };
                assert(r.supported_frames@ =~= seq![]);
                r
            },
            SystemWebviewBackend::Unknown => {
                let r = WryWebSurfaceCapabilities {
                    backend: SystemWebviewBackend::Unknown,
                    preferred_mode: WebSurfaceMode::Unsupported,
                    imported_texture: CapabilityStatus::Unsupported(
                        UnsupportedReason::HostBackendUnavailable,
                    ),
                    native_child_overlay: CapabilityStatus::Unsupported(
                        UnsupportedReason::HostBackendUnavailable,
                    ),
                    cpu_snapshot: CapabilityStatus::Unsupported(
                        UnsupportedReason::HostBackendUnavailable,
                    ),
                    supported_frames: Vec::new(),
                    reason: "No Wry/system-webview backend is defined for this platform.",
                };
                assert(r.supported_frames@ =~= seq![]);
                r
            },
        }
    }

    /// The frame kinds of this report.
    pub fn producer_capabilities(&self) -> (r: ProducerCapabilities)
        ensures
            r.supported_frames@ == self@.supported_frames,
    {
        let supported_frames = self.supported_frames.clone();
        assert(supported_frames@ =~= self.supported_frames@);
        ProducerCapabilities { supported_frames }
    }
}

/// What WebView2 offers to `host`.
pub fn probe_webview2(host: Option<&HostWgpuContext>) -> (r: WryWebSurfaceCapabilities)
    ensures
        r@ == webview2_report(backend_of_host(host)),
{
    let imported_texture = match host {
        Some(context) => if matches!(context.backend, InteropBackend::Dx12) {
            CapabilityStatus::Supported
        } else {
            CapabilityStatus::Unsupported(UnsupportedReason::HostBackendMismatch)
        },
        None => CapabilityStatus::Unsupported(UnsupportedReason::HostBackendUnavailable),
    };

    let preferred_mode = if imported_texture == CapabilityStatus::Supported {
        WebSurfaceMode::ImportedTexture
    } else {
        WebSurfaceMode::NativeChildOverlay
    };

    let r = WryWebSurfaceCapabilities {
        backend: SystemWebviewBackend::WebView2,
        preferred_mode,
        imported_texture,
        native_child_overlay: CapabilityStatus::Supported,
        cpu_snapshot: CapabilityStatus::Supported,
        supported_frames: vec![NativeFrameKind::Dx12SharedTexture],
        reason: "Windows target path is WebView2 CompositionController visual capture into a D3D texture, then Dx12SharedTexture import.",
    };
    assert(r.supported_frames@ =~= seq![NativeFrameKind::Dx12SharedTexture]);
    r
}

/// A frame emitted by a Wry/system-webview producer.
#[non_exhaustive]
pub enum WryWebSurfaceFrame {
    Native(NativeFrame),
    CpuRgba { size: PhysicalSize, pixels: RgbaImage, generation: u64 },
    PngSnapshot { size: PhysicalSize, bytes: Vec<u8>, generation: u64 },
    OverlayOnly,
}

impl WryWebSurfaceFrame {
    /// How this frame reaches the compositor.
    pub open spec fn spec_mode(&self) -> WebSurfaceMode {
        match self {
            WryWebSurfaceFrame::Native(_) => WebSurfaceMode::ImportedTexture,
            WryWebSurfaceFrame::CpuRgba { .. } => WebSurfaceMode::CpuSnapshot,
            WryWebSurfaceFrame::PngSnapshot { .. } => WebSurfaceMode::CpuSnapshot,
            WryWebSurfaceFrame::OverlayOnly => WebSurfaceMode::NativeChildOverlay,
        }
    }

    /// How this frame reaches the compositor.
    #[verifier::when_used_as_spec(spec_mode)]
    pub fn mode(&self) -> (r: WebSurfaceMode)
        ensures
            r == self.mode(),
    {
        match self {
            WryWebSurfaceFrame::Native(_) => WebSurfaceMode::ImportedTexture,
            WryWebSurfaceFrame::CpuRgba { .. } => WebSurfaceMode::CpuSnapshot,
            WryWebSurfaceFrame::PngSnapshot { .. } => WebSurfaceMode::CpuSnapshot,
            WryWebSurfaceFrame::OverlayOnly => WebSurfaceMode::NativeChildOverlay,
        }
    }

    /// What this frame is called in reports.
    pub fn frame_label(&self) -> (r: &'static str)
        ensures
            r == self.mode().label(),
    {
        self.mode().label()
    }
}

/// Errors of a web surface.
#[derive(Debug)]
pub enum WryWebSurfaceError {
    /// The web surface mode is unsupported.
    Unsupported(&'static str),
    /// The frame is not ready yet.
    NotReady(&'static str),
    /// The import of a frame failed.
    Interop(InteropError),
    /// Platform capture failed.
    Platform(String),
}

impl WryWebSurfaceError {
    /// What a reader is shown of this error.
    pub open spec fn message_text(&self) -> Seq<char> {
        match *self {
            WryWebSurfaceError::Unsupported(what) => "web surface mode is unsupported: "@ + what@,
            WryWebSurfaceError::NotReady(what) => "frame is not ready yet: "@ + what@,
            WryWebSurfaceError::Interop(error) => error.message_text(),
            WryWebSurfaceError::Platform(what) => "platform capture failed: "@ + what@,
        }
    }

    /// What a reader is shown of this error.
    pub fn message(&self) -> (r: String)
        ensures
            r@ == self.message_text(),
    {
        match self {
            WryWebSurfaceError::Unsupported(what) =>
                join2("web surface mode is unsupported: ", what),
            WryWebSurfaceError::NotReady(what) => join2("frame is not ready yet: ", what),
            WryWebSurfaceError::Interop(error) => error.message(),
            WryWebSurfaceError::Platform(what) =>
                join2("platform capture failed: ", what.as_str()),
        }
    }

    /// Whether this is a platform failure with the given text.
    pub open spec fn is_platform(self, text: Seq<char>) -> bool {
        self matches WryWebSurfaceError::Platform(what) && what@ == text
    }
}

impl From<InteropError> for WryWebSurfaceError {
    fn from(error: InteropError) -> (r: Self) {
        WryWebSurfaceError::Interop(error)
    }
}

impl FromSpecImpl<InteropError> for WryWebSurfaceError {
    open spec fn obeys_from_spec() -> bool {
        true
    }

    open spec fn from_spec(error: InteropError) -> Self {
        WryWebSurfaceError::Interop(error)
    }
}

/// Producer contract implemented by platform-specific Wry/WebView frame sources.
///
/// The trait covers the cross-platform lifecycle (capabilities + navigate +
/// resize + offset + a blocking acquire). Per-frame fast-path acquisition
/// and any platform-specific optimization signals are exposed on the concrete
/// platform producer types and not on the trait, since they have no portable
/// shape.
pub trait WryWebSurfaceProducer: Sized {
    /// Whether this producer may advertise `report`.
    spec fn may_advertise(&self, report: SurfaceReport) -> bool;

    fn capabilities(&self) -> (r: WryWebSurfaceCapabilities)
        ensures
            self.may_advertise(r@),
    ;

    /// The mode that the producer's capabilities prefer.
    fn mode(&self) -> (r: WebSurfaceMode)
        ensures
            exists|report: SurfaceReport| #[trigger]
                self.may_advertise(report) && r == report.preferred_mode,
    {
        let capabilities = self.capabilities();
        assert(self.may_advertise(capabilities@));
        capabilities.preferred_mode
    }

    /// Blocking acquire — returns the next available frame from the
    /// underlying capture path, possibly waiting for the WebView to
    /// produce one.
    fn acquire_frame(&mut self) -> Result<WryWebSurfaceFrame, WryWebSurfaceError>;

    /// Navigate the underlying WebView to inline HTML and block until
    /// `NavigationCompleted` (or analog) fires, or the timeout elapses.
    /// Producers that don't yet support navigation return
    /// [`WryWebSurfaceError::Unsupported`].
    fn navigate_to_string(&mut self, _html: &str, _timeout_ms: u64) -> (r: Result<
        (),
        WryWebSurfaceError,
    >)
        default_ensures
            *final(self) == *old(self),
            r == Err::<(), WryWebSurfaceError>(
                WryWebSurfaceError::Unsupported(
                    "WryWebSurfaceProducer::navigate_to_string is not implemented for this platform",
                ),
            ),
    {
        Err(
            WryWebSurfaceError::Unsupported(
                "WryWebSurfaceProducer::navigate_to_string is not implemented for this platform",
            ),
        )
    }

    /// Resize the underlying WebView and capture region.
    fn resize(&mut self, _size: PhysicalSize) -> (r: Result<(), WryWebSurfaceError>)
        default_ensures
            *final(self) == *old(self),
            r == Err::<(), WryWebSurfaceError>(
                WryWebSurfaceError::Unsupported(
                    "WryWebSurfaceProducer::resize is not implemented for this platform",
                ),
            ),
    {
        Err(
            WryWebSurfaceError::Unsupported(
                "WryWebSurfaceProducer::resize is not implemented for this platform",
            ),
        )
    }

    /// Reposition the underlying WebView overlay relative to the parent
    /// host, in physical pixels.
    fn set_offset(&mut self, _offset: PixelOffset) -> (r: Result<(), WryWebSurfaceError>)
        default_ensures
            *final(self) == *old(self),
            r == Err::<(), WryWebSurfaceError>(
                WryWebSurfaceError::Unsupported(
                    "WryWebSurfaceProducer::set_offset is not implemented for this platform",
                ),
            ),
    {
        Err(
            WryWebSurfaceError::Unsupported(
                "WryWebSurfaceProducer::set_offset is not implemented for this platform",
            ),
        )
    }
}

/// Conservative overlay-only producer used when no capture backend is available yet.
#[derive(Debug)]
pub struct OverlayOnlyProducer {
    capabilities: WryWebSurfaceCapabilities,
}

impl OverlayOnlyProducer {
    /// What this producer advertises.
    pub closed spec fn report(&self) -> SurfaceReport {
        self.capabilities@
    }

    pub fn new(capabilities: WryWebSurfaceCapabilities) -> (r: Self)
        ensures
            r.report() == capabilities@,
    {
        OverlayOnlyProducer { capabilities }
    }
}

impl WryWebSurfaceProducer for OverlayOnlyProducer {
    open spec fn may_advertise(&self, report: SurfaceReport) -> bool {
        report == self.report()
    }

    fn capabilities(&self) -> (r: WryWebSurfaceCapabilities) {
        self.capabilities.clone()
    }

    fn acquire_frame(&mut self) -> (r: Result<WryWebSurfaceFrame, WryWebSurfaceError>)
        ensures
            *final(self) == *old(self),
            r == Ok::<WryWebSurfaceFrame, WryWebSurfaceError>(WryWebSurfaceFrame::OverlayOnly),
    {
        Ok(WryWebSurfaceFrame::OverlayOnly)
    }
}

/// The capability that `mode` relies on.
pub open spec fn status_of_mode(report: SurfaceReport, mode: WebSurfaceMode) -> CapabilityStatus {
    match mode {
        WebSurfaceMode::ImportedTexture => report.imported_texture,
        WebSurfaceMode::NativeChildOverlay => report.native_child_overlay,
        WebSurfaceMode::CpuSnapshot => report.cpu_snapshot,
        WebSurfaceMode::Unsupported => unavailable(),
    }
}

/// A probe prefers imported textures exactly where they are supported, and it
/// never prefers a mode that is not.
pub proof fn preferred_mode_is_supported(webview: SystemWebviewBackend, host: Option<InteropBackend>)
    ensures
        ({
            let report = surface_report(webview, host);
            &&& report.preferred_mode is ImportedTexture <==> report.imported_texture is Supported
            &&& report.preferred_mode is Unsupported || status_of_mode(
                report,
                report.preferred_mode,
            ) is Supported
            &&& report.preferred_mode is Unsupported <==> webview is Unknown
        }),
{
}

/// Where a probe says that frames can be imported, the host can import every
/// kind of frame that the webview emits, and it emits at least one.
pub proof fn imported_frames_are_importable(
    webview: SystemWebviewBackend,
    host: Option<InteropBackend>,
)
    ensures
        ({
            let report = surface_report(webview, host);
            report.imported_texture is Supported ==> {
                &&& report.supported_frames.len() > 0
                &&& host is Some
                &&& forall|i: int|
                    0 <= i < report.supported_frames.len() ==> crate::interop::status_on(
                        host->0,
                        #[trigger] report.supported_frames[i],
                    ) is Supported
            }
        }),
{
}

/// The child overlay is the fallback on every platform that has a system webview.
pub proof fn overlay_is_the_fallback(webview: SystemWebviewBackend, host: Option<InteropBackend>)
    ensures
        surface_report(webview, host).native_child_overlay is Supported <==> !(webview is Unknown),
{
}

/// What the system webview of each platform offers: WebView2 on Windows, WKWebView on
/// macOS and WebKitGTK on Linux, and nothing elsewhere. Frames are imported on Windows
/// alone, by a host on Direct3D 12; snapshots are there on Windows and macOS; and where
/// there is a webview at all, it can stay an overlay.
pub proof fn platform_decides_what_is_offered(
    host: Option<&HostWgpuContext>,
    platform: TargetPlatform,
    offered: WryWebSurfaceCapabilities,
)
    requires
        call_ensures(WryWebSurfaceCapabilities::probe, (host, platform), offered),
    ensures
        ({
            let r = offered@;
            let importable = platform is Windows && (host matches Some(context) && context.backend
                == InteropBackend::Dx12);
            let has_webview = platform is Windows || platform is MacOs || platform is Linux;
            &&& r.backend == SystemWebviewBackend::WebView2 <==> platform is Windows
            &&& r.backend == SystemWebviewBackend::WkWebView <==> platform is MacOs
            &&& r.backend == SystemWebviewBackend::WebKitGtk <==> platform is Linux
            &&& r.backend == SystemWebviewBackend::Unknown <==> !has_webview
            &&& r.imported_texture is Supported <==> importable
            &&& platform is Windows && !importable && host is Some ==> r.imported_texture
                == CapabilityStatus::Unsupported(UnsupportedReason::HostBackendMismatch)
            &&& platform is Windows && host is None ==> r.imported_texture
                == CapabilityStatus::Unsupported(UnsupportedReason::HostBackendUnavailable)
            &&& platform is MacOs || platform is Linux ==> r.imported_texture
                == CapabilityStatus::Unsupported(UnsupportedReason::NativeImportNotYetImplemented)
            &&& !has_webview ==> r.imported_texture == CapabilityStatus::Unsupported(
                UnsupportedReason::HostBackendUnavailable,
            )
            &&& r.native_child_overlay is Supported <==> has_webview
            &&& !has_webview ==> r.native_child_overlay == CapabilityStatus::Unsupported(
                UnsupportedReason::HostBackendUnavailable,
            )
            &&& r.cpu_snapshot is Supported <==> platform is Windows || platform is MacOs
            &&& platform is Linux ==> r.cpu_snapshot == CapabilityStatus::Unsupported(
                UnsupportedReason::NativeImportNotYetImplemented,
            )
            &&& !has_webview ==> r.cpu_snapshot == CapabilityStatus::Unsupported(
                UnsupportedReason::HostBackendUnavailable,
            )
            &&& r.preferred_mode == WebSurfaceMode::ImportedTexture <==> importable
            &&& r.preferred_mode == WebSurfaceMode::NativeChildOverlay <==> has_webview
                && !importable
            &&& r.preferred_mode == WebSurfaceMode::Unsupported <==> !has_webview
            &&& platform is Windows ==> r.supported_frames == seq![
                NativeFrameKind::Dx12SharedTexture,
            ]
            &&& !(platform is Windows) ==> r.supported_frames.len() == 0
        }),
{
}

/// A probe of WebView2 says what a probe on Windows says, on any host, and producers
/// are told the frame kinds of the report.
pub proof fn webview2_probe_is_the_one_of_windows(
    host: Option<&HostWgpuContext>,
    on_windows: WryWebSurfaceCapabilities,
    direct: WryWebSurfaceCapabilities,
    kinds: ProducerCapabilities,
)
    requires
        call_ensures(WryWebSurfaceCapabilities::probe, (host, TargetPlatform::Windows), on_windows),
        call_ensures(probe_webview2, (host,), direct),
        call_ensures(WryWebSurfaceCapabilities::producer_capabilities, (&direct,), kinds),
    ensures
        direct@ == on_windows@,
        kinds.supported_frames@ == direct.supported_frames@,
{
}

/// A native frame is imported, pixels and encoded pictures are snapshots, and where
/// there is neither the webview stays an overlay.
pub proof fn frame_decides_its_mode(frame: &WryWebSurfaceFrame, label: &'static str)
    requires
        call_ensures(WryWebSurfaceFrame::frame_label, (frame,), label),
    ensures
        frame.mode() == WebSurfaceMode::ImportedTexture <==> frame is Native,
        frame.mode() == WebSurfaceMode::CpuSnapshot <==> frame is CpuRgba || frame is PngSnapshot,
        frame.mode() == WebSurfaceMode::NativeChildOverlay <==> frame is OverlayOnly,
        frame is Native ==> label == "imported texture",
        frame is CpuRgba || frame is PngSnapshot ==> label == "CPU snapshot",
        frame is OverlayOnly ==> label == "native child overlay",
{
}

/// An error of a web surface shows its cause: its message ends in it, and that of an
/// import is the import's own.
pub proof fn message_ends_in_the_cause(error: &WryWebSurfaceError, shown: String)
    requires
        call_ensures(WryWebSurfaceError::message, (error,), shown),
    ensures
        ({
            let cause = match *error {
                WryWebSurfaceError::Unsupported(what) => what@,
                WryWebSurfaceError::NotReady(what) => what@,
                WryWebSurfaceError::Interop(inner) => inner.message_text(),
                WryWebSurfaceError::Platform(what) => what@,
            };
            &&& shown@.len() >= cause.len()
            &&& shown@.skip(shown@.len() - cause.len()) == cause
            &&& error is Interop ==> shown@ == cause
        }),
        error is Unsupported ==> "web surface mode is unsupported"@.is_prefix_of(shown@),
        error is NotReady ==> "frame is not ready yet"@.is_prefix_of(shown@),
        error is Platform ==> "platform capture failed"@.is_prefix_of(shown@),
{
    reveal_strlit("web surface mode is unsupported: ");
    reveal_strlit("frame is not ready yet: ");
    reveal_strlit("platform capture failed: ");
    reveal_strlit("web surface mode is unsupported");
    reveal_strlit("frame is not ready yet");
    reveal_strlit("platform capture failed");
}

/// The names that reports show tell the modes and the webviews apart.
pub proof fn modes_and_webviews_are_told_by_name(
    mode: WebSurfaceMode,
    webview: SystemWebviewBackend,
)
    ensures
        mode.name()@ == "ImportedTexture"@ <==> mode is ImportedTexture,
        mode.name()@ == "NativeChildOverlay"@ <==> mode is NativeChildOverlay,
        mode.name()@ == "CpuSnapshot"@ <==> mode is CpuSnapshot,
        webview.name()@ == "WebView2"@ <==> webview is WebView2,
        webview.name()@ == "WkWebView"@ <==> webview is WkWebView,
        webview.name()@ == "WebKitGtk"@ <==> webview is WebKitGtk,
        webview.name()@ == "Unknown"@ <==> webview is Unknown,
{
    reveal_strlit("ImportedTexture");
    reveal_strlit("NativeChildOverlay");
    reveal_strlit("CpuSnapshot");
    reveal_strlit("Unsupported");
    reveal_strlit("WebView2");
    reveal_strlit("WkWebView");
    reveal_strlit("WebKitGtk");
    reveal_strlit("Unknown");
    assert("ImportedTexture"@.len() == 15 && "NativeChildOverlay"@.len() == 18);
    assert("CpuSnapshot"@[0] == 'C' && "Unsupported"@[0] == 'U');
    assert("CpuSnapshot"@.len() == 11 && "Unsupported"@.len() == 11);
    assert("WebView2"@.len() == 8 && "WkWebView"@.len() == 9);
    assert("WebKitGtk"@.len() == 9 && "Unknown"@.len() == 7);
    assert("WkWebView"@[1] == 'k' && "WebKitGtk"@[1] == 'e');
}

} // verus!

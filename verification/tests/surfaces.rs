use wgpu_gui_bridge::error::{InteropError, UnsupportedReason};
use wgpu_gui_bridge::geometry::{PhysicalSize, PixelOffset};
use wgpu_gui_bridge::interop::{
    CapabilityStatus, HalApis, HostWgpuContext, InteropBackend, NativeFrameKind,
};
use wgpu_gui_bridge::platform::TargetPlatform;
use wgpu_gui_bridge::texture::RgbaImage;
use wgpu_gui_bridge::web_surface::{
    probe_webview2, OverlayOnlyProducer, SystemWebviewBackend, WebSurfaceMode,
    WryWebSurfaceCapabilities, WryWebSurfaceError, WryWebSurfaceFrame, WryWebSurfaceProducer,
};
use wgpu_gui_bridge::webkitgtk_producer::{WebKitGtkProducer, WebKitGtkProducerConfig};
use wgpu_gui_bridge::wkwebview_producer::{WkWebViewProducer, WkWebViewProducerConfig};
use wgpu_gui_bridge::wry_demo::capability_report;

fn host(platform: TargetPlatform, apis: HalApis) -> HostWgpuContext {
    let (device, queue) = wgpu::Device::noop(&wgpu::DeviceDescriptor::default());
    HostWgpuContext::new(device, queue, platform, apis)
}

fn dx12_host() -> HostWgpuContext {
    host(TargetPlatform::Windows, HalApis { vulkan: false, metal: false, dx12: true })
}

#[test]
fn overlay_frame_reports_overlay_mode() {
    assert_eq!(
        WryWebSurfaceFrame::OverlayOnly.mode(),
        WebSurfaceMode::NativeChildOverlay
    );
}

#[test]
fn unknown_host_on_windows_does_not_promise_imported_texture() {
    let caps = probe_webview2(None);
    assert_eq!(caps.backend, SystemWebviewBackend::WebView2);
    assert_eq!(caps.preferred_mode, WebSurfaceMode::NativeChildOverlay);
    assert_eq!(
        caps.imported_texture,
        CapabilityStatus::Unsupported(UnsupportedReason::HostBackendUnavailable)
    );
}

#[test]
fn dx12_host_on_windows_imports_textures() {
    let host = dx12_host();
    let caps = WryWebSurfaceCapabilities::probe(Some(&host), TargetPlatform::Windows);
    assert_eq!(caps.preferred_mode, WebSurfaceMode::ImportedTexture);
    assert_eq!(caps.imported_texture, CapabilityStatus::Supported);
    assert_eq!(
        caps.producer_capabilities().supported_frames,
        vec![NativeFrameKind::Dx12SharedTexture]
    );
}

#[test]
fn vulkan_host_on_windows_does_not_match() {
    let host = host(
        TargetPlatform::Windows,
        HalApis { vulkan: true, metal: false, dx12: true },
    );
    let caps = probe_webview2(Some(&host));
    assert_eq!(caps.preferred_mode, WebSurfaceMode::NativeChildOverlay);
    assert_eq!(
        caps.imported_texture,
        CapabilityStatus::Unsupported(UnsupportedReason::HostBackendMismatch)
    );
}

#[test]
fn each_platform_has_its_webview() {
    let backends = [
        (TargetPlatform::Windows, SystemWebviewBackend::WebView2),
        (TargetPlatform::MacOs, SystemWebviewBackend::WkWebView),
        (TargetPlatform::Linux, SystemWebviewBackend::WebKitGtk),
        (TargetPlatform::OtherApple, SystemWebviewBackend::Unknown),
        (TargetPlatform::Android, SystemWebviewBackend::Unknown),
        (TargetPlatform::Other, SystemWebviewBackend::Unknown),
    ];
    for (platform, backend) in backends {
        assert_eq!(SystemWebviewBackend::detect(platform), backend);
        let caps = WryWebSurfaceCapabilities::probe(None, platform);
        assert_eq!(caps.backend, backend);
        let overlay = caps.native_child_overlay == CapabilityStatus::Supported;
        assert_eq!(overlay, backend != SystemWebviewBackend::Unknown);
        assert_eq!(backend.name(), format!("{backend:?}"));
    }
}

#[test]
fn overlay_producer_hands_out_what_it_was_given() {
    let caps = WryWebSurfaceCapabilities::probe(None, TargetPlatform::Linux);
    let mut producer = OverlayOnlyProducer::new(caps.clone());
    assert_eq!(producer.capabilities(), caps);
    assert_eq!(producer.mode(), WebSurfaceMode::NativeChildOverlay);
    let frame = producer.acquire_frame().unwrap();
    assert_eq!(frame.mode(), WebSurfaceMode::NativeChildOverlay);
    assert_eq!(frame.frame_label(), "native child overlay");
    assert!(matches!(
        producer.navigate_to_string("<p>", 5000),
        Err(WryWebSurfaceError::Unsupported(
            "WryWebSurfaceProducer::navigate_to_string is not implemented for this platform"
        ))
    ));
    assert!(matches!(
        producer.resize(PhysicalSize::new(1, 1)),
        Err(WryWebSurfaceError::Unsupported(
            "WryWebSurfaceProducer::resize is not implemented for this platform"
        ))
    ));
    assert!(matches!(
        producer.set_offset(PixelOffset::zero()),
        Err(WryWebSurfaceError::Unsupported(
            "WryWebSurfaceProducer::set_offset is not implemented for this platform"
        ))
    ));
}

#[test]
fn snapshots_are_cpu_frames() {
    let size = PhysicalSize::new(1, 1);
    let pixels = RgbaImage::from_raw(size, vec![1, 2, 3, 4]).unwrap();
    let rgba = WryWebSurfaceFrame::CpuRgba { size, pixels, generation: 0 };
    let png = WryWebSurfaceFrame::PngSnapshot { size, bytes: vec![0x89], generation: 0 };
    assert_eq!(rgba.frame_label(), "CPU snapshot");
    assert_eq!(png.mode(), WebSurfaceMode::CpuSnapshot);
}

#[test]
fn surface_errors_are_worded() {
    let cases = [
        (
            WryWebSurfaceError::Unsupported("navigation"),
            "web surface mode is unsupported: navigation",
        ),
        (
            WryWebSurfaceError::Platform("StartCapture failed: 1".to_string()),
            "platform capture failed: StartCapture failed: 1",
        ),
        (
            WryWebSurfaceError::from(InteropError::InvalidFrame("empty")),
            "invalid frame: empty",
        ),
    ];
    for (error, text) in cases {
        assert_eq!(error.message(), text);
    }
}

#[test]
fn webkitgtk_skeleton_stays_an_overlay() {
    let config = WebKitGtkProducerConfig::new(PhysicalSize::new(8, 8), "/tmp/w".to_string())
        .with_offset(PixelOffset { x_bits: 1, y_bits: 2 });
    assert_eq!(config.offset, PixelOffset { x_bits: 1, y_bits: 2 });
    assert_eq!(config.navigation_timeout_ms, 5000);
    assert_eq!(config.frame_timeout_ms, 2000);
    let mut producer = WebKitGtkProducer::new(0, config).unwrap();
    assert!(matches!(producer.try_acquire_frame(), Ok(None)));
    assert!(matches!(producer.acquire_frame(), Ok(WryWebSurfaceFrame::OverlayOnly)));
    assert!(producer.capture_cpu_snapshot().is_err());
    assert!(producer.resize(PhysicalSize::new(1, 1)).is_err());
    let probed = WryWebSurfaceCapabilities::probe(None, TargetPlatform::Linux);
    let mut advertised = producer.capabilities();
    assert_ne!(advertised.reason, probed.reason);
    advertised.reason = probed.reason;
    assert_eq!(advertised, probed);
}

#[test]
fn wkwebview_skeleton_advertises_snapshots() {
    let config = WkWebViewProducerConfig::new(PhysicalSize::new(8, 8), "/tmp/k".to_string());
    let mut producer = WkWebViewProducer::new(0, config).unwrap();
    assert!(matches!(producer.try_acquire_frame(), Ok(None)));
    assert!(matches!(producer.acquire_frame(), Ok(WryWebSurfaceFrame::OverlayOnly)));
    assert_eq!(producer.capabilities().cpu_snapshot, CapabilityStatus::Supported);
    assert_eq!(producer.mode(), WebSurfaceMode::NativeChildOverlay);
}

#[test]
fn capability_report_has_a_line_for_everything() {
    let host = dx12_host();
    let caps = WryWebSurfaceCapabilities::probe(Some(&host), TargetPlatform::Windows);
    let lines = capability_report("WARP", InteropBackend::Dx12, &caps);
    assert_eq!(
        lines,
        vec![
            "wgpu adapter: WARP".to_string(),
            format!("wgpu backend: {:?}", host.backend),
            format!("system webview backend: {:?}", caps.backend),
            format!("preferred surface mode: {:?}", caps.preferred_mode),
            format!("imported texture support: {:?}", caps.imported_texture),
            format!("native overlay support: {:?}", caps.native_child_overlay),
            format!("CPU snapshot support: {:?}", caps.cpu_snapshot),
            format!("reason: {}", caps.reason),
        ]
    );
}

use wgpu_gui_bridge::geometry::{PhysicalSize, SignedSize};
use wgpu_gui_bridge::interop::{ImportOptions, NativeFrame};
use wgpu_gui_bridge::platform_call::{CallReply, CallSequence, PlatformCall};
use wgpu_gui_bridge::sync::SyncMechanism;
use wgpu_gui_bridge::texture::TextureFormat;
use wgpu_gui_bridge::web_surface::{WryWebSurfaceError, WryWebSurfaceFrame};
use wgpu_gui_bridge::windows_capture::{
    capture_window_frame_once, close_shared_handle, dxgi_format_for_wgpu,
    export_capture_frame_shared_handle, probe_graphics_capture_prerequisites,
    CapturedWindowFrame, D3D11SharedTextureFactory, D3D11ToDx12Bridge, DxgiFormat,
    DxgiSharedHandleBridge, FramePoolDesc, GraphicsCaptureProbe, GraphicsCaptureProbeWork,
    SharedHandleWork, UnsupportedD3D11ToDx12Bridge,
    WebView2CompositionCapturePlan, WebView2D3D11CaptureFrame, WebView2DxgiSharedHandleFrame,
    WindowCapture, WindowCaptureStep,
};
use wgpu_gui_bridge::windows_probe::{
    probe_texture_work, CompositionProbe, CompositionStep, ProbeError, ProbeReply, ProbeStep,
    ProbeTarget, SharedTextureProbe,
};

const CONTENT: SignedSize = SignedSize { width: 420, height: 260 };

fn good_reply(call: PlatformCall) -> CallReply {
    match call {
        PlatformCall::IsCaptureSupported => CallReply::Flag(true),
        PlatformCall::ReadItemSize => CallReply::Extent(CONTENT),
        PlatformCall::ReadContentSize => CallReply::Extent(CONTENT),
        PlatformCall::CreateSharedHandle => CallReply::Handle(0x99),
        _ => CallReply::Done,
    }
}

trait Work {
    fn due(&self) -> Option<PlatformCall>;
    fn take(&mut self, reply: &CallReply) -> Result<(), WryWebSurfaceError>;
}

impl Work for CallSequence {
    fn due(&self) -> Option<PlatformCall> {
        self.current()
    }

    fn take(&mut self, reply: &CallReply) -> Result<(), WryWebSurfaceError> {
        self.report(reply)
    }
}

impl Work for SharedHandleWork {
    fn due(&self) -> Option<PlatformCall> {
        self.current()
    }

    fn take(&mut self, reply: &CallReply) -> Result<(), WryWebSurfaceError> {
        self.report(reply)
    }
}

impl Work for GraphicsCaptureProbeWork {
    fn due(&self) -> Option<PlatformCall> {
        self.current()
    }

    fn take(&mut self, reply: &CallReply) -> Result<(), WryWebSurfaceError> {
        self.report(reply)
    }
}

fn run(work: &mut dyn Work) -> Vec<PlatformCall> {
    let mut made = Vec::new();
    while let Some(call) = work.due() {
        made.push(call);
        work.take(&good_reply(call)).unwrap();
    }
    made
}

fn platform_text(error: WryWebSurfaceError) -> String {
    match error {
        WryWebSurfaceError::Platform(text) => text,
        other => panic!("{other:?}"),
    }
}

fn capture_frame(raw: u64) -> WebView2D3D11CaptureFrame {
    WebView2D3D11CaptureFrame {
        size: PhysicalSize::new(420, 260),
        format: TextureFormat::Bgra8Unorm,
        generation: 5,
        raw_d3d11_texture: raw,
    }
}

fn shared_frame(handle: u64) -> WebView2DxgiSharedHandleFrame {
    WebView2DxgiSharedHandleFrame {
        size: PhysicalSize::new(420, 260),
        format: TextureFormat::Bgra8Unorm,
        generation: 5,
        shared_handle: handle,
    }
}

#[test]
fn sequence_stops_at_the_first_failure() {
    let mut sequence = D3D11SharedTextureFactory::new_hardware();
    assert_eq!(sequence.current(), Some(PlatformCall::CreateD3d11Device));
    sequence.report(&CallReply::Done).unwrap();
    let error = sequence.report(&CallReply::Missing).unwrap_err();
    assert_eq!(platform_text(error), "D3D11CreateDevice returned no device");
    assert_eq!(sequence.current(), Some(PlatformCall::TakeD3d11Device));
    sequence.report(&CallReply::Done).unwrap();
    let error = sequence.report(&CallReply::Missing).unwrap_err();
    assert_eq!(platform_text(error), "D3D11CreateDevice returned no immediate context");
}

#[test]
fn winrt_device_is_made_in_three_calls() {
    let mut sequence = D3D11SharedTextureFactory.create_winrt_direct3d_device();
    assert_eq!(
        run(&mut sequence),
        vec![
            PlatformCall::CastDxgiDevice,
            PlatformCall::CreateWinrtDevice,
            PlatformCall::CastWinrtDevice,
        ]
    );
    assert_eq!(
        platform_text(PlatformCall::CreateWinrtDevice.failure("0x1")),
        "CreateDirect3D11DeviceFromDXGIDevice failed: 0x1"
    );
}

#[test]
fn replies_are_told_apart_from_calls_that_cannot_give_them() {
    assert!(PlatformCall::IsCaptureSupported.fits(&CallReply::Flag(false)));
    assert!(!PlatformCall::IsCaptureSupported.fits(&CallReply::Done));
    assert!(!PlatformCall::StartCapture.fits(&CallReply::Missing));
    assert!(PlatformCall::StartCapture.fits(&CallReply::Failed("x".to_string())));
    assert!(PlatformCall::CreateSharedHandle.fits(&CallReply::Handle(1)));
}

#[test]
fn directory_failure_names_the_directory() {
    let reply = CallReply::FailedFor {
        subject: "C:\\data".to_string(),
        cause: "access denied".to_string(),
    };
    let error = PlatformCall::CreateUserDataDir.judge(&reply).unwrap_err();
    assert_eq!(platform_text(error), "create user_data_dir C:\\data: access denied");
    let error = PlatformCall::RequestEnvironment
        .judge(&CallReply::Failed("0x80004005".to_string()))
        .unwrap_err();
    assert_eq!(platform_text(error), "CreateCoreWebView2Environment: 0x80004005");
}

#[test]
fn only_two_formats_are_shared() {
    assert_eq!(
        dxgi_format_for_wgpu(TextureFormat::Rgba8Unorm).unwrap(),
        DxgiFormat::R8G8B8A8Unorm
    );
    assert_eq!(
        dxgi_format_for_wgpu(TextureFormat::Bgra8Unorm).unwrap(),
        DxgiFormat::B8G8R8A8Unorm
    );
    assert!(matches!(
        dxgi_format_for_wgpu(TextureFormat::Bgra8UnormSrgb),
        Err(WryWebSurfaceError::Unsupported(
            "only Rgba8Unorm and Bgra8Unorm D3D11 capture textures are supported"
        ))
    ));
}

#[test]
fn shared_texture_is_created_and_exported() {
    let mut work = D3D11SharedTextureFactory
        .create_shared_texture_frame(PhysicalSize::new(3, 2), TextureFormat::Rgba8Unorm, 8)
        .unwrap();
    let desc = work.desc().unwrap();
    assert_eq!(desc.size, PhysicalSize::new(3, 2));
    assert_eq!((desc.mip_levels, desc.array_size), (1, 1));
    assert_eq!((desc.sample_count, desc.sample_quality), (1, 0));
    assert!(desc.shared_nt_handle && desc.shared_keyed_mutex);
    assert!(desc.bind_render_target && desc.bind_shader_resource);
    assert!(work.finish().is_none());
    assert_eq!(
        run(&mut work),
        vec![
            PlatformCall::CreateTexture,
            PlatformCall::TakeTexture,
            PlatformCall::CastDxgiResource,
            PlatformCall::CreateSharedHandle,
        ]
    );
    let frame = work.finish().unwrap().unwrap();
    assert_eq!(frame.shared_handle, 0x99);
    assert_eq!(frame.size, PhysicalSize::new(3, 2));
    assert_eq!(frame.format, TextureFormat::Rgba8Unorm);
    assert_eq!(frame.generation, 8);
}

#[test]
fn capture_is_copied_into_a_shared_texture() {
    let mut work =
        D3D11SharedTextureFactory.copy_capture_into_shared_frame(capture_frame(0x10)).unwrap();
    let made = run(&mut work);
    assert_eq!(made.last(), Some(&PlatformCall::CopyCapture));
    assert_eq!(made.len(), 6);
    assert_eq!(work.finish().unwrap().unwrap().generation, 5);
}

#[test]
fn null_capture_is_noticed_after_the_target_exists() {
    let mut work =
        D3D11SharedTextureFactory.copy_capture_into_shared_frame(capture_frame(0)).unwrap();
    assert_eq!(run(&mut work).len(), 4);
    let error = work.finish().unwrap().unwrap_err();
    assert_eq!(platform_text(error), "D3D11 capture texture pointer was null");
}

#[test]
fn capture_can_be_exported_itself() {
    let bridge = DxgiSharedHandleBridge;
    let mut work = bridge.bridge_frame(capture_frame(0x10)).unwrap();
    assert_eq!(
        run(&mut work),
        vec![
            PlatformCall::BorrowTexture,
            PlatformCall::CastDxgiResource,
            PlatformCall::CreateSharedHandle,
        ]
    );
    let bridged = bridge.finish_frame(&work).unwrap().unwrap();
    assert_eq!(bridged.shared_handle, 0x99);
    let error = export_capture_frame_shared_handle(capture_frame(0)).unwrap_err();
    assert_eq!(platform_text(error), "D3D11 capture texture pointer was null");
    assert!(matches!(
        UnsupportedD3D11ToDx12Bridge.bridge_frame(capture_frame(0x10)),
        Err(WryWebSurfaceError::Unsupported(
            "D3D11 capture texture to D3D12 shared texture bridge is not implemented yet"
        ))
    ));
}

#[test]
fn shared_frame_becomes_a_native_frame() {
    match shared_frame(0x77).into_surface_frame() {
        WryWebSurfaceFrame::Native(NativeFrame::Dx12SharedTexture(native)) => {
            assert_eq!(native.handle, 0x77);
            assert_eq!(native.generation, 5);
            assert_eq!(native.size, PhysicalSize::new(420, 260));
            assert_eq!(native.producer_sync, SyncMechanism::Unsynchronized);
        }
        _ => panic!("a D3D12 frame"),
    }
    let error = DxgiSharedHandleBridge.bridge_shared_handle(shared_frame(0)).unwrap_err();
    assert_eq!(platform_text(error), "WebView2 capture shared handle was null");
}

#[test]
fn null_handle_is_not_closed() {
    assert!(close_shared_handle(0).current().is_none());
    let mut sequence = close_shared_handle(5);
    assert_eq!(run(&mut sequence), vec![PlatformCall::CloseHandle]);
}

#[test]
fn probe_stops_where_the_session_cannot_capture() {
    let work = probe_graphics_capture_prerequisites(Ok(false)).unwrap();
    assert_eq!(
        work.finish(),
        Some(GraphicsCaptureProbe {
            session_supported: false,
            winrt_d3d_device_created: false,
            free_threaded_frame_pool_created: false,
        })
    );
    let mut work = probe_graphics_capture_prerequisites(Ok(true)).unwrap();
    assert_eq!(work.finish(), None);
    let made = run(&mut work);
    assert_eq!(made.last(), Some(&PlatformCall::CreateFramePool));
    assert!(work.finish().unwrap().free_threaded_frame_pool_created);
    let error = probe_graphics_capture_prerequisites(Err("E".to_string())).unwrap_err();
    assert_eq!(platform_text(error), "GraphicsCaptureSession::IsSupported failed: E");
    let pool = FramePoolDesc::for_probe();
    assert_eq!((pool.buffers, pool.size.width, pool.size.height), (1, 64, 64));
}

fn start_window_capture(timeout_ms: u64, now_ms: u64) -> WindowCapture {
    let mut capture = capture_window_frame_once(0x1, timeout_ms).unwrap();
    while !capture.is_waiting() {
        if let WindowCaptureStep::Call(call) = capture.step() {
            if call == PlatformCall::CreateFramePool {
                assert_eq!(capture.frame_pool(), Some(FramePoolDesc::for_item(CONTENT)));
            }
            let reply = match call {
                PlatformCall::DisableCaptureBorder => CallReply::Failed("no access".to_string()),
                _ => good_reply(call),
            };
            capture.report(&reply, now_ms).unwrap();
        }
    }
    capture
}

#[test]
fn window_capture_waits_for_its_frame() {
    let mut capture = start_window_capture(2000, 100);
    let empty = CallReply::Failed("no frame".to_string());
    capture.report(&empty, 101).unwrap();
    assert!(capture.is_waiting());
    capture.report(&empty, 2099).unwrap();
    assert!(capture.is_waiting());
    assert_eq!(capture.destination(), None);
    let mut made = Vec::new();
    while let WindowCaptureStep::Call(call) = capture.step() {
        if call == PlatformCall::CreateTexture {
            assert_eq!(capture.destination().unwrap().size, PhysicalSize::new(420, 260));
        }
        made.push(call);
        let reply = match call {
            PlatformCall::CloseCaptureSession => CallReply::Failed("closed already".to_string()),
            _ => good_reply(call),
        };
        capture.report(&reply, 2100).unwrap();
    }
    assert_eq!(
        made[made.len() - 3..],
        [
            PlatformCall::CloseFrame,
            PlatformCall::CloseCaptureSession,
            PlatformCall::CloseFramePool,
        ]
    );
    let captured = capture.finish().unwrap().unwrap();
    assert_eq!(captured.content_size, PhysicalSize::new(420, 260));
    assert_eq!(captured.shared_frame.shared_handle, 0x99);
    assert_eq!(captured.shared_frame.generation, 1);
    assert_eq!(captured.shared_frame.format, TextureFormat::Bgra8Unorm);
}

#[test]
fn window_capture_gives_up_at_the_deadline() {
    let mut capture = start_window_capture(2000, 100);
    assert_eq!(capture.window(), 0x1);
    capture.report(&CallReply::Failed("no frame".to_string()), 2100).unwrap();
    let mut made = Vec::new();
    while let WindowCaptureStep::Call(call) = capture.step() {
        made.push(call);
        capture.report(&CallReply::Done, 2100).unwrap();
    }
    assert_eq!(made, vec![PlatformCall::CloseCaptureSession, PlatformCall::CloseFramePool]);
    let error = capture.finish().unwrap().unwrap_err();
    assert_eq!(platform_text(error), "TryGetNextFrame failed before timeout: no frame");
    assert!(start_window_capture(2000, 100).finish().is_none());
}

#[test]
fn window_capture_needs_a_window_a_session_and_pixels() {
    let error = capture_window_frame_once(0, 1).unwrap_err();
    assert_eq!(platform_text(error), "window capture HWND was null");
    let mut capture = capture_window_frame_once(1, 1).unwrap();
    assert!(matches!(
        capture.report(&CallReply::Flag(false), 0),
        Err(WryWebSurfaceError::Unsupported(
            "Windows.Graphics.Capture is not supported in this session"
        ))
    ));
    capture.report(&CallReply::Flag(true), 0).unwrap();
    capture.report(&CallReply::Done, 0).unwrap();
    capture.report(&CallReply::Done, 0).unwrap();
    let bad = CallReply::Extent(SignedSize { width: -1, height: 20 });
    let error = capture.report(&bad, 0).unwrap_err();
    assert_eq!(platform_text(error), "GraphicsCaptureItem returned invalid size -1x20");
}

#[test]
fn capture_plan_names_its_path() {
    let plan = WebView2CompositionCapturePlan::default();
    assert!(plan.requires_composition_controller);
    assert!(plan.requires_graphics_capture_item_from_visual);
    assert_eq!(
        plan.capture_texture_api,
        "Windows.Graphics.Capture.Direct3D11CaptureFrame.Surface"
    );
    assert_eq!(plan.import_texture_kind, "NativeFrame::Dx12SharedTexture");
}

fn captured(handle: u64) -> ProbeReply {
    ProbeReply::Captured(CapturedWindowFrame {
        shared_frame: shared_frame(handle),
        content_size: PhysicalSize::new(420, 260),
    })
}

#[test]
fn probe_tries_texture_window_and_webview() {
    let work = probe_texture_work().unwrap();
    assert_eq!(work.desc().unwrap().size, PhysicalSize::new(64, 64));
    let mut probe = SharedTextureProbe::run_windows_shared_texture_probe();
    let mut closed = Vec::new();
    loop {
        let reply = match probe.step() {
            ProbeStep::CreateSharedTexture => ProbeReply::Shared(shared_frame(1)),
            ProbeStep::CaptureWindow => captured(2),
            ProbeStep::CaptureWebviewWindow => captured(3),
            ProbeStep::CloseHandle { target, handle } => {
                closed.push((target, handle));
                ProbeReply::Done
            }
            ProbeStep::Finish => break,
            _ => ProbeReply::Done,
        };
        probe.report(reply).unwrap();
    }
    assert_eq!(
        closed,
        vec![
            (ProbeTarget::SharedTexture, 1),
            (ProbeTarget::Window, 2),
            (ProbeTarget::WebviewWindow, 3),
        ]
    );
}

#[test]
fn webview_window_need_not_be_capturable() {
    let mut probe = SharedTextureProbe::run_windows_shared_texture_probe();
    loop {
        let reply = match probe.step() {
            ProbeStep::CreateSharedTexture => ProbeReply::Shared(shared_frame(1)),
            ProbeStep::CaptureWindow => captured(2),
            ProbeStep::CaptureWebviewWindow => {
                ProbeReply::Failed(ProbeError::Host("0x80070057".to_string()))
            }
            ProbeStep::Finish => break,
            _ => ProbeReply::Done,
        };
        probe.report(reply).unwrap();
    }
}

#[test]
fn window_must_be_capturable_and_have_a_handle() {
    let mut probe = SharedTextureProbe::run_windows_shared_texture_probe();
    probe.report(ProbeReply::Done).unwrap();
    probe.report(ProbeReply::Done).unwrap();
    assert!(matches!(
        probe.report(ProbeReply::Shared(shared_frame(0))),
        Err(ProbeError::Surface(_))
    ));
    assert_eq!(probe.step(), ProbeStep::Finish);
    let mut probe = SharedTextureProbe::run_windows_shared_texture_probe();
    assert!(matches!(
        probe.report(ProbeReply::Failed(ProbeError::Host("x".to_string()))),
        Err(ProbeError::Host(_))
    ));
}

#[test]
fn composition_probe_checks_pixels_on_request() {
    let steps = |validate: bool| {
        let mut probe = CompositionProbe::run_webview2_composition_visual_probe(validate);
        let mut steps = Vec::new();
        while probe.step() != CompositionStep::Finish {
            steps.push(probe.step());
            probe.report(Ok(())).unwrap();
        }
        steps
    };
    assert_eq!(
        steps(false),
        vec![
            CompositionStep::CreateDispatcherQueue,
            CompositionStep::SetUpProducer,
            CompositionStep::Navigate,
        ]
    );
    assert_eq!(
        steps(true)[3..],
        [
            CompositionStep::AcquireFrame,
            CompositionStep::ImportFrame(ImportOptions {
                normalize_format: false,
                ..ImportOptions::default()
            }),
            CompositionStep::ValidatePixels,
            CompositionStep::CloseHandle,
        ]
    );
    let mut probe = CompositionProbe::run_webview2_composition_visual_probe(true);
    probe.report(Err(ProbeError::Host("queue".to_string()))).unwrap();
    assert_eq!(probe.step(), CompositionStep::SetUpProducer);
    assert!(probe.report(Err(ProbeError::Host("hwnd".to_string()))).is_err());
    assert_eq!(probe.step(), CompositionStep::Finish);
}

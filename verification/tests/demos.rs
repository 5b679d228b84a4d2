use std::path::PathBuf;

use wgpu_gui_bridge::geometry::{PhysicalSize, PixelOffset};
use wgpu_gui_bridge::platform::TargetPlatform;
use wgpu_gui_bridge::readback::{BgraPixel, ReadbackLayout, ROW_ALIGNMENT};
use wgpu_gui_bridge::render_plan::{
    backends_for_servo, clear_color, placeholder_texture, preferred_backends,
    wants_external_memory, BackendChoice, Blend, ClearColor, FrameCache, PipelinePlan,
    SurfacePlan,
};
use wgpu_gui_bridge::servo_demo::{
    choose_url, fixture_page_url, path_argument_url, resolve_fixture, resolve_path_argument,
    resolve_url_argument, window_title, ButtonAction, CursorPosition, DemoAction, FrameRender,
    FrameStep, HostButton, HostEvent, InputState, PageButton, UrlArgument, WheelMode,
};
use wgpu_gui_bridge::text::{push_decimal, push_signed};
use wgpu_gui_bridge::texture::{AstcBlock, AstcChannel, RgbaImage, TextureFormat};
use wgpu_gui_bridge::wry_demo::{
    after_surface, capture_import_options, capture_offset_for_window, capture_size_for_window,
    composition_config, flag_is_set, wants_probe_only, CaptureResize, PollAction, PollOutcome,
    RenderReply, RenderStep, SurfaceAction, SurfaceOutcome, WebViewRenderer,
};

fn url(argument: &str) -> Option<String> {
    match resolve_url_argument(argument) {
        UrlArgument::Url(url) => Some(url),
        UrlArgument::MaybePath => None,
    }
}

#[test]
fn url_arguments_are_normalized() {
    assert_eq!(url("https://example.com").as_deref(), Some("https://example.com/"));
    assert_eq!(url("servo.org").as_deref(), Some("https://servo.org/"));
    assert_eq!(url("HTTP://A.B/c d").as_deref(), Some("http://a.b/c%20d"));
    assert_eq!(url("a b"), None);
    assert_eq!(url(""), None);
}

#[test]
fn first_url_counts() {
    let some = |text: &str| Some(text.to_string());
    assert!(matches!(choose_url(some("a"), some("b")), UrlArgument::Url(url) if url == "a"));
    assert!(matches!(choose_url(None, some("b")), UrlArgument::Url(url) if url == "b"));
    assert!(matches!(choose_url(None, None), UrlArgument::MaybePath));
}

#[test]
fn path_arguments_become_file_urls() {
    let absolute = PathBuf::from("/tmp/a b.html");
    assert_eq!(
        resolve_path_argument("a b.html", &absolute).unwrap(),
        "file:///tmp/a%20b.html"
    );
    assert_eq!(
        resolve_path_argument("a b", &PathBuf::from("a b")).unwrap_err(),
        "argument was neither a URL nor a file path: a b"
    );
    assert_eq!(
        resolve_fixture("/f/x.html", &PathBuf::from("/f/x.html")).unwrap(),
        "file:///f/x.html"
    );
    assert_eq!(
        resolve_fixture("x.html", &PathBuf::from("x.html")).unwrap_err(),
        "failed to convert fixture path to file URL: x.html"
    );
    assert_eq!(path_argument_url("x", Some("u".to_string())).unwrap(), "u");
    assert_eq!(fixture_page_url("x", Some("u".to_string())).unwrap(), "u");
}

#[test]
fn title_shows_the_url() {
    assert_eq!(window_title("https://servo.org/"), "demo-servo-winit — https://servo.org/");
}

const ORIGIN: CursorPosition = CursorPosition { x_bits: 0, y_bits: 0 };

fn input() -> InputState {
    InputState { cursor: ORIGIN, modifiers: 0, scale_bits: 1.0f64.to_bits() }
}

#[test]
fn window_events_become_actions() {
    let mut state = input();
    let size = PhysicalSize::new(10, 20);
    assert_eq!(state.window_event(HostEvent::CloseRequested), vec![DemoAction::Exit]);
    assert_eq!(state.window_event(HostEvent::RedrawRequested), vec![DemoAction::Render]);
    assert_eq!(
        state.window_event(HostEvent::Resized(size)),
        vec![
            DemoAction::ResizeRenderer(size),
            DemoAction::ResizeViewport(size),
            DemoAction::ResizePage(size),
            DemoAction::RequestRedraw,
        ]
    );
    let scale_bits = 2.0f64.to_bits();
    assert_eq!(
        state.window_event(HostEvent::ScaleFactorChanged { scale_bits }),
        vec![DemoAction::SetScaleFactor { scale_bits }, DemoAction::RequestRedraw]
    );
    assert_eq!(state.scale_bits, scale_bits);
    assert!(state.window_event(HostEvent::ModifiersChanged { modifiers: 4 }).is_empty());
    assert_eq!(
        state.window_event(HostEvent::KeyboardInput),
        vec![DemoAction::SendKey { modifiers: 4 }]
    );
    assert_eq!(state.window_event(HostEvent::CursorLeft), vec![DemoAction::LeaveViewport]);
    assert!(state.window_event(HostEvent::Other).is_empty());
}

#[test]
fn clicks_and_scrolls_act_under_the_cursor() {
    let mut state = input();
    let at = CursorPosition { x_bits: 5.5f64.to_bits(), y_bits: 7.0f64.to_bits() };
    assert_eq!(state.window_event(HostEvent::CursorMoved(at)), vec![DemoAction::MoveMouse(at)]);
    assert_eq!(
        state.window_event(HostEvent::MouseInput { pressed: true, button: HostButton::Right }),
        vec![DemoAction::PressButton {
            action: ButtonAction::Down,
            button: PageButton::Right,
            at,
        }]
    );
    assert_eq!(
        state.window_event(HostEvent::MouseInput { pressed: false, button: HostButton::Middle }),
        vec![DemoAction::PressButton {
            action: ButtonAction::Up,
            button: PageButton::Middle,
            at,
        }]
    );
    assert!(state
        .window_event(HostEvent::MouseInput { pressed: true, button: HostButton::Other })
        .is_empty());
    assert_eq!(
        state.window_event(HostEvent::MouseWheel(WheelMode::Line)),
        vec![DemoAction::Scroll { mode: WheelMode::Line, factor: 38, at }]
    );
    assert_eq!(
        state.window_event(HostEvent::MouseWheel(WheelMode::Pixel)),
        vec![DemoAction::Scroll { mode: WheelMode::Pixel, factor: 1, at }]
    );
}

#[test]
fn one_failed_import_is_enough() {
    let mut render = FrameRender::new();
    render.render_frame();
    render.taken();
    assert_eq!(render.step, FrameStep::ImportFrame);
    render.frame_imported(true);
    assert_eq!(render.step, FrameStep::RenderImported);
    render.shown(Ok(())).unwrap();
    render.render_frame();
    render.taken();
    render.frame_imported(false);
    assert_eq!(render.step, FrameStep::ReadAndUpload);
    render.taken();
    assert_eq!(render.step, FrameStep::RenderCached);
    assert_eq!(
        render.shown(Err("lost".to_string())).unwrap_err(),
        "surface render error: lost"
    );
    render.render_frame();
    render.taken();
    assert_eq!(render.step, FrameStep::ReadAndUpload);
}

fn rgba(width: u32, height: u32) -> RgbaImage {
    let bytes = vec![0; 4 * width as usize * height as usize];
    RgbaImage::from_raw(PhysicalSize::new(width, height), bytes).unwrap()
}

#[test]
fn upload_reuses_a_texture_of_the_same_size() {
    let mut cache = FrameCache::new();
    let first = cache.upload_frame(&rgba(3, 2));
    let shape = first.create.unwrap();
    assert_eq!(shape.label, "servo-frame-cpu");
    assert_eq!(shape.format, TextureFormat::Rgba8UnormSrgb);
    assert!(shape.usage.copy_dst && shape.usage.texture_binding && !shape.usage.copy_src);
    assert!(first.writes);
    assert_eq!((first.bytes_per_row, first.rows_per_image), (12, 2));
    assert!(cache.upload_frame(&rgba(3, 2)).create.is_none());
    assert!(cache.upload_frame(&rgba(2, 3)).create.is_some());
    let mut empty = FrameCache::new();
    let plan = empty.upload_frame(&rgba(0, 0));
    assert!(plan.create.is_none() && !plan.writes);
    assert!(!empty.has_texture());
}

#[test]
fn image_holds_the_bytes_of_its_pixels() {
    assert!(RgbaImage::from_raw(PhysicalSize::new(2, 2), vec![0; 15]).is_none());
    let image = RgbaImage::from_raw(PhysicalSize::new(2, 1), vec![1, 2, 3, 4, 5, 6, 7, 8]).unwrap();
    assert_eq!(image.dimensions(), PhysicalSize::new(2, 1));
    assert_eq!(image.as_raw().len(), 8);
    assert_eq!(image.clone(), image);
}

#[test]
fn surface_takes_a_format_that_suits_it() {
    let formats = vec![
        TextureFormat::Rgba8Unorm,
        TextureFormat::Bgra8Unorm,
        TextureFormat::Bgra8UnormSrgb,
        TextureFormat::Rgba8UnormSrgb,
    ];
    let size = PhysicalSize::new(0, 7);
    let servo = SurfacePlan::for_servo(&formats, size);
    assert_eq!(servo.format, TextureFormat::Bgra8UnormSrgb);
    assert_eq!(servo.size, PhysicalSize::new(1, 7));
    assert_eq!((servo.alpha_mode, servo.maximum_frame_latency), (0, 2));
    assert_eq!(SurfacePlan::for_webview(&formats, size).format, TextureFormat::Bgra8Unorm);
    let odd = vec![TextureFormat::Rgba16Float];
    let mut plan = SurfacePlan::for_servo(&odd, size);
    assert_eq!(plan.format, TextureFormat::Rgba16Float);
    assert_eq!(SurfacePlan::for_webview(&odd, size).format, TextureFormat::Rgba16Float);
    assert!(!plan.resize(PhysicalSize::new(3, 0)));
    assert_eq!(plan.size, PhysicalSize::new(1, 7));
    assert!(plan.resize(PhysicalSize::new(3, 4)));
    assert_eq!(plan.size, PhysicalSize::new(3, 4));
    assert_eq!(PipelinePlan::for_servo(&servo).blend, Blend::Replace);
    assert_eq!(PipelinePlan::for_webview(&servo).label, "webview-blit-pipeline");
    assert_eq!(PipelinePlan::for_webview(&servo).format, TextureFormat::Bgra8UnormSrgb);
    assert_eq!(placeholder_texture().size, PhysicalSize::new(1, 1));
}

#[test]
fn backends_depend_on_the_platform() {
    assert_eq!(preferred_backends(TargetPlatform::Windows), BackendChoice::Dx12);
    assert_eq!(preferred_backends(TargetPlatform::Linux), BackendChoice::Primary);
    assert_eq!(backends_for_servo(TargetPlatform::Windows), BackendChoice::VulkanOrDx12);
    assert_eq!(backends_for_servo(TargetPlatform::MacOs), BackendChoice::All);
    assert!(wants_external_memory(TargetPlatform::Windows, true));
    assert!(!wants_external_memory(TargetPlatform::Windows, false));
    assert!(!wants_external_memory(TargetPlatform::Linux, true));
    assert_eq!(clear_color(true), ClearColor::Black);
    assert_eq!(clear_color(false), ClearColor::NoFrame);
}

fn same_format(ours: TextureFormat, theirs: wgpu::TextureFormat) {
    assert_eq!(ours.is_srgb(), theirs.is_srgb());
    assert_eq!(ours.show(), format!("{theirs:?}"));
}

#[test]
fn formats_agree_with_wgpu() {
    same_format(TextureFormat::R8Unorm, wgpu::TextureFormat::R8Unorm);
    same_format(TextureFormat::Rgba8Unorm, wgpu::TextureFormat::Rgba8Unorm);
    same_format(TextureFormat::Rgba8UnormSrgb, wgpu::TextureFormat::Rgba8UnormSrgb);
    same_format(TextureFormat::Bgra8UnormSrgb, wgpu::TextureFormat::Bgra8UnormSrgb);
    same_format(TextureFormat::Bc7RgbaUnormSrgb, wgpu::TextureFormat::Bc7RgbaUnormSrgb);
    same_format(TextureFormat::Etc2Rgb8A1UnormSrgb, wgpu::TextureFormat::Etc2Rgb8A1UnormSrgb);
    same_format(TextureFormat::NV12, wgpu::TextureFormat::NV12);
    same_format(
        TextureFormat::Astc { block: AstcBlock::B10x8, channel: AstcChannel::UnormSrgb },
        wgpu::TextureFormat::Astc {
            block: wgpu::AstcBlock::B10x8,
            channel: wgpu::AstcChannel::UnormSrgb,
        },
    );
    same_format(
        TextureFormat::Astc { block: AstcBlock::B4x4, channel: AstcChannel::Hdr },
        wgpu::TextureFormat::Astc {
            block: wgpu::AstcBlock::B4x4,
            channel: wgpu::AstcChannel::Hdr,
        },
    );
    assert_eq!(ROW_ALIGNMENT, wgpu::COPY_BYTES_PER_ROW_ALIGNMENT);
}

const BACKGROUND: (u8, u8, u8) = (0x17, 0x20, 0x2a);

fn filled(layout: &ReadbackLayout, pixel: [u8; 4], padding: u8) -> Vec<u8> {
    let mut data = vec![padding; layout.buffer_size as usize];
    for y in 0..layout.size.height as usize {
        for x in 0..layout.size.width as usize {
            let at = y * layout.padded_bytes_per_row as usize + 4 * x;
            data[at..at + 4].copy_from_slice(&pixel);
        }
    }
    data
}

fn layout(width: u32, height: u32) -> ReadbackLayout {
    ReadbackLayout::for_texture(TextureFormat::Bgra8Unorm, PhysicalSize::new(width, height))
        .unwrap()
}

#[test]
fn rows_are_padded_to_the_alignment() {
    assert_eq!(layout(420, 260).padded_bytes_per_row, 1792);
    assert_eq!(layout(420, 260).buffer_size, 1792 * 260);
    assert_eq!(layout(64, 1).padded_bytes_per_row, 256);
    assert_eq!(layout(65, 1).padded_bytes_per_row, 512);
    let error = ReadbackLayout::for_texture(
        TextureFormat::Rgba8Unorm,
        PhysicalSize::new(u32::MAX, 1),
    )
    .unwrap_err();
    assert_eq!(
        error,
        "WebView readback: expected Bgra8Unorm imported texture, got Rgba8Unorm"
    );
}

#[test]
fn background_passes_whatever_the_padding() {
    for (width, height) in [(420, 260), (1, 1), (3, 5), (9, 9)] {
        let layout = layout(width, height);
        for padding in [0, 255] {
            let data = filled(&layout, [0x2a, 0x20, 0x17, 255], padding);
            let report = layout.validate_imported_pixels(&data, BACKGROUND);
            assert!(report.corners_match);
            assert!(report.verdict.is_ok());
            assert_eq!(
                report.samples.center,
                BgraPixel { b: 0x2a, g: 0x20, r: 0x17, a: 255 }
            );
        }
    }
}

#[test]
fn wrong_corners_and_empty_captures_fail() {
    let layout = layout(20, 20);
    let corners = "WebView readback: corner pixels do not match the HTML background; \
                   capture content is likely wrong (zeros, swapped channels, or empty).";
    let swapped = filled(&layout, [0x17, 0x20, 0x2a, 255], 0);
    let report = layout.validate_imported_pixels(&swapped, BACKGROUND);
    assert_eq!(report.verdict, Err(corners));
    let zeros = filled(&layout, [0; 4], 0);
    assert_eq!(layout.validate_imported_pixels(&zeros, BACKGROUND).verdict, Err(corners));
    assert_eq!(
        layout.validate_imported_pixels(&zeros, (6, 6, 6)).verdict,
        Err("WebView readback: every sampled alpha is zero; capture is likely uninitialized.")
    );
    let within = filled(&layout, [0x30, 0x26, 0x11, 1], 0);
    assert!(layout.validate_imported_pixels(&within, BACKGROUND).verdict.is_ok());
    let beyond = filled(&layout, [0x31, 0x20, 0x17, 255], 0);
    assert!(layout.validate_imported_pixels(&beyond, BACKGROUND).verdict.is_err());
}

#[test]
fn corners_are_sampled_away_from_the_edge() {
    let layout = layout(20, 20);
    let mut data = filled(&layout, [0x2a, 0x20, 0x17, 255], 0);
    for x in 0..20usize {
        data[4 * x] = 200;
    }
    assert!(layout.validate_imported_pixels(&data, BACKGROUND).verdict.is_ok());
    let at = 4 * layout.padded_bytes_per_row as usize + 4 * 4;
    data[at] = 200;
    let report = layout.validate_imported_pixels(&data, BACKGROUND);
    assert_eq!(report.samples.top_left.b, 200);
    assert!(report.verdict.is_err());
}

#[test]
fn flags_are_read_from_text() {
    assert!(flag_is_set(Some("1")));
    assert!(flag_is_set(Some("00")));
    assert!(!flag_is_set(Some("0")));
    assert!(!flag_is_set(Some("")));
    assert!(!flag_is_set(None));
    let arguments = vec!["demo".to_string(), "--probe-only".to_string()];
    assert!(wants_probe_only(&arguments));
    assert!(!wants_probe_only(&vec!["--probe".to_string()]));
}

#[test]
fn capture_covers_the_right_half() {
    assert_eq!(
        capture_size_for_window(PhysicalSize::new(900, 600)),
        PhysicalSize::new(450, 600)
    );
    assert_eq!(capture_offset_for_window(PhysicalSize::new(900, 600)), 450);
    assert_eq!(
        capture_size_for_window(PhysicalSize::new(100, 10)),
        PhysicalSize::new(120, 120)
    );
    assert_eq!(capture_offset_for_window(PhysicalSize::new(100, 10)), 0);
    assert_eq!(capture_offset_for_window(PhysicalSize::new(201, 10)), 81);
}

#[test]
fn composition_probe_is_laid_out() {
    let config = composition_config("d".to_string());
    assert_eq!(config.size, PhysicalSize::new(420, 260));
    assert_eq!(
        config.offset,
        PixelOffset { x_bits: 450.0f32.to_bits(), y_bits: 48.0f32.to_bits() }
    );
    assert_eq!(config.diagnostic_backdrop, Some((27, 86, 96)));
}

#[test]
fn surface_outcomes_lead_to_actions() {
    assert_eq!(after_surface(SurfaceOutcome::Success), SurfaceAction::Draw);
    assert_eq!(after_surface(SurfaceOutcome::Suboptimal), SurfaceAction::Draw);
    assert_eq!(after_surface(SurfaceOutcome::Outdated), SurfaceAction::Reconfigure);
    assert_eq!(after_surface(SurfaceOutcome::Lost), SurfaceAction::Reconfigure);
    assert_eq!(after_surface(SurfaceOutcome::Timeout), SurfaceAction::Skip);
    assert_eq!(after_surface(SurfaceOutcome::Occluded), SurfaceAction::Skip);
    assert_eq!(after_surface(SurfaceOutcome::Validation), SurfaceAction::Skip);
}

#[test]
fn stalled_capture_is_restarted() {
    let mut renderer = WebViewRenderer::new(PhysicalSize::new(900, 600), false, 0);
    for _ in 0..119 {
        assert_eq!(renderer.refresh_captured_texture(PollOutcome::Empty), PollAction::Keep);
        assert_eq!(renderer.refresh_captured_texture(PollOutcome::Failed), PollAction::Keep);
    }
    assert_eq!(
        renderer.refresh_captured_texture(PollOutcome::Empty),
        PollAction::RestartCapture
    );
    assert_eq!(renderer.capture_restarts, 1);
    assert_eq!(renderer.consecutive_empty_polls, 0);
}

#[test]
fn frames_are_imported_when_their_resource_is_new() {
    let mut renderer = WebViewRenderer::new(PhysicalSize::new(900, 600), false, 0);
    assert!(!renderer.flushes_cache());
    assert!(!renderer.before_poll(false));
    assert!(renderer.before_poll(true));
    assert_eq!(
        renderer.refresh_captured_texture(PollOutcome::Frame { resource_is_new: true }),
        PollAction::Import
    );
    renderer.resource_imported();
    assert!(renderer.flushes_cache());
    assert_eq!(
        renderer.refresh_captured_texture(PollOutcome::Frame { resource_is_new: false }),
        PollAction::Keep
    );
    assert!(renderer.maybe_log_metrics(1999).is_none());
    let metrics = renderer.maybe_log_metrics(2500).unwrap();
    assert_eq!(metrics.elapsed_ms, 2500);
    assert_eq!((metrics.polled, metrics.acquired), (2, 2));
    assert_eq!((metrics.resource_swaps, metrics.total_imports), (1, 2));
    assert!(renderer.maybe_log_metrics(4499).is_none());
    let metrics = renderer.maybe_log_metrics(4500).unwrap();
    assert_eq!((metrics.polled, metrics.acquired, metrics.resource_swaps), (0, 0, 0));
    assert_eq!(metrics.total_imports, 2);
}

#[test]
fn producer_follows_a_window_that_has_settled() {
    let mut renderer = WebViewRenderer::new(PhysicalSize::new(900, 600), true, 0);
    assert_eq!(renderer.surface_to_configure(), None);
    renderer.resize(PhysicalSize::new(0, 600), 10);
    assert_eq!(renderer.surface_to_configure(), None);
    renderer.resize(PhysicalSize::new(1000, 700), 10);
    assert_eq!(renderer.surface_to_configure(), Some(PhysicalSize::new(1000, 700)));
    assert_eq!(renderer.surface_to_configure(), None);
    assert_eq!(renderer.apply_pending_resize(129), None);
    let resize = renderer.apply_pending_resize(130).unwrap();
    assert_eq!(resize.size, PhysicalSize::new(500, 700));
    assert_eq!(resize.offset_x, 500);
    assert_eq!(renderer.apply_pending_resize(1000), None);
    renderer.resize(PhysicalSize::new(1001, 700), 2000);
    assert_eq!(renderer.apply_pending_resize(2120), None);
    assert_eq!(renderer.pending_resize, None);
}

#[test]
fn numbers_are_written_as_rust_writes_them() {
    for n in [0u64, 9, 10, 1234567890, u64::MAX] {
        let mut out = String::new();
        push_decimal(&mut out, n);
        assert_eq!(out, n.to_string());
    }
    for n in [0i32, -1, i32::MIN, i32::MAX] {
        let mut out = String::new();
        push_signed(&mut out, n);
        assert_eq!(out, n.to_string());
    }
}

fn rendered(
    renderer: &mut WebViewRenderer,
    poll: PollOutcome,
    surface: SurfaceOutcome,
    force_reimport: bool,
    now_ms: u64,
) -> Vec<RenderStep> {
    let mut pass = renderer.render(force_reimport, now_ms);
    let mut steps = Vec::new();
    while pass.step() != RenderStep::Finish {
        steps.push(pass.step());
        let reply = match pass.step() {
            RenderStep::Poll => RenderReply::Polled(poll),
            RenderStep::AcquireSurface => RenderReply::Surface(surface),
            _ => RenderReply::Done,
        };
        pass.report(renderer, reply, force_reimport, now_ms);
    }
    steps
}

#[test]
fn frame_is_rendered_in_order() {
    let mut renderer = WebViewRenderer::new(PhysicalSize::new(900, 600), false, 0);
    renderer.resize(PhysicalSize::new(1000, 500), 10);
    let resize = CaptureResize { size: PhysicalSize::new(500, 500), offset_x: 500 };
    let new = PollOutcome::Frame { resource_is_new: true };
    let steps = rendered(&mut renderer, new, SurfaceOutcome::Success, true, 2500);
    assert_eq!(
        steps[..8],
        [
            RenderStep::ConfigureSurface(PhysicalSize::new(1000, 500)),
            RenderStep::MoveCapture(resize),
            RenderStep::ResizeCapture(resize),
            RenderStep::DropDestination,
            RenderStep::Poll,
            RenderStep::Import,
            RenderStep::CloseHandle,
            steps[7],
        ]
    );
    match steps[7] {
        RenderStep::LogMetrics(metrics) => {
            assert_eq!((metrics.polled, metrics.acquired, metrics.total_imports), (1, 1, 2));
        }
        other => panic!("{other:?}"),
    }
    assert_eq!(
        steps[8..],
        [RenderStep::AcquireSurface, RenderStep::Draw { flush_cache: true }]
    );
    let reused = PollOutcome::Frame { resource_is_new: false };
    assert_eq!(
        rendered(&mut renderer, reused, SurfaceOutcome::Lost, false, 2600),
        vec![RenderStep::Poll, RenderStep::AcquireSurface, RenderStep::ReconfigureSurface]
    );
}

#[test]
fn failed_poll_is_followed_by_no_metrics() {
    let mut renderer = WebViewRenderer::new(PhysicalSize::new(900, 600), false, 0);
    assert_eq!(
        rendered(&mut renderer, PollOutcome::Failed, SurfaceOutcome::Occluded, false, 9000),
        vec![RenderStep::Poll, RenderStep::AcquireSurface]
    );
    assert_eq!(renderer.last_metric_log_ms, 0);
    assert_eq!(renderer.consecutive_empty_polls, 0);
}

#[test]
fn failed_import_ends_the_frame() {
    let mut renderer = WebViewRenderer::new(PhysicalSize::new(900, 600), false, 0);
    let mut pass = renderer.render(false, 0);
    let new = PollOutcome::Frame { resource_is_new: true };
    pass.report(&mut renderer, RenderReply::Polled(new), false, 0);
    assert_eq!(pass.step(), RenderStep::Import);
    pass.report(&mut renderer, RenderReply::Failed, false, 0);
    assert_eq!(pass.step(), RenderStep::Finish);
    assert!(!renderer.has_imported);
}

#[test]
fn stalled_capture_is_restarted_before_the_frame_is_drawn() {
    let mut renderer = WebViewRenderer::new(PhysicalSize::new(900, 600), false, 0);
    for _ in 0..119 {
        let steps = rendered(&mut renderer, PollOutcome::Empty, SurfaceOutcome::Timeout, false, 0);
        assert_eq!(steps, vec![RenderStep::Poll, RenderStep::AcquireSurface]);
    }
    assert_eq!(
        rendered(&mut renderer, PollOutcome::Empty, SurfaceOutcome::Suboptimal, false, 0),
        vec![
            RenderStep::Poll,
            RenderStep::RestartCapture,
            RenderStep::AcquireSurface,
            RenderStep::Draw { flush_cache: false },
        ]
    );
    assert_eq!(renderer.capture_restarts, 1);
}

#[test]
fn captures_are_imported_as_they_are() {
    let options = capture_import_options();
    assert!(!options.normalize_format);
    assert!(options.normalize_origin);
    assert!(!options.allow_copy_fallback);
}

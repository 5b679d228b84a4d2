use wgpu_gui_bridge::geometry::{ClientRect, PhysicalSize, PixelOffset, SignedSize};
use wgpu_gui_bridge::interop::NativeFrame;
use wgpu_gui_bridge::platform_call::{CallReply, CallSequence, PlatformCall};
use wgpu_gui_bridge::web_surface::{WebSurfaceMode, WryWebSurfaceError, WryWebSurfaceFrame};
use wgpu_gui_bridge::webview2_acquisition::{
    AcquisitionPhase, AcquisitionProgress, AcquisitionStep, FrameAcquisition, DESTINATION_KEY,
    LOCK_TIMEOUT_MS,
};
use wgpu_gui_bridge::webview2_composition_producer::{
    Color, ProducerSetup, WebView2CompositionConfig, WebView2CompositionFrame, WebView2CompositionProducer,
};
use wgpu_gui_bridge::webview2_navigation::{
    MessagePump, Navigation, NavigationPhase, NavigationStep, WaitAdvice,
};
use wgpu_gui_bridge::webview2_script::{
    nudge_script, sanitize_label, FIRST_FRAME_NUDGE_LABEL, RENDER_TICK_SCRIPT,
};
use wgpu_gui_bridge::windows_capture::FramePoolDesc;

const SMALL: SignedSize = SignedSize { width: 420, height: 260 };
const LARGE: SignedSize = SignedSize { width: 640, height: 480 };

fn text(error: WryWebSurfaceError) -> String {
    match error {
        WryWebSurfaceError::Platform(text) => text,
        other => panic!("{other:?}"),
    }
}

fn failed(cause: &str) -> CallReply {
    CallReply::Failed(cause.to_string())
}

fn run(sequence: &mut CallSequence) -> Vec<PlatformCall> {
    let mut made = Vec::new();
    while let Some(call) = sequence.current() {
        made.push(call);
        sequence.report(&CallReply::Done).unwrap();
    }
    made
}

fn set_up(setup: &mut ProducerSetup) -> Vec<PlatformCall> {
    let mut made = Vec::new();
    while let Some(call) = setup.current() {
        made.push(call);
        setup.report(&CallReply::Done).unwrap();
    }
    made
}

fn config() -> WebView2CompositionConfig {
    WebView2CompositionConfig::new(PhysicalSize::new(420, 260), "C:\\data".to_string())
}

fn producer() -> WebView2CompositionProducer {
    let mut setup = WebView2CompositionProducer::new(1, config()).unwrap();
    assert!(setup.finish().is_none());
    set_up(&mut setup);
    setup.finish().unwrap()
}

fn reply(call: PlatformCall, content: SignedSize, handle: u64) -> CallReply {
    match call {
        PlatformCall::IsCaptureSupported => CallReply::Flag(true),
        PlatformCall::ReadItemSize => CallReply::Extent(content),
        PlatformCall::ReadContentSize => CallReply::Extent(content),
        PlatformCall::CreateSharedHandle => CallReply::Handle(handle),
        _ => CallReply::Done,
    }
}

fn finish(
    mut work: FrameAcquisition,
    content: SignedSize,
    handle: u64,
) -> (WebView2CompositionProducer, WebView2CompositionFrame, Vec<PlatformCall>) {
    let mut made = Vec::new();
    loop {
        match work.step() {
            AcquisitionStep::Call(call) => {
                made.push(call);
                if call == PlatformCall::CreateFramePool {
                    assert_eq!(work.frame_pool(), Some(FramePoolDesc::for_item(content)));
                }
                if call == PlatformCall::CreateTexture {
                    assert_eq!(work.destination().unwrap().size, content.unsigned());
                }
                match work.report(&reply(call, content, handle), 1000).unwrap() {
                    AcquisitionProgress::Captured(frame) => {
                        assert_eq!(work.step(), AcquisitionStep::Finish);
                        return (work.into_producer(), frame, made);
                    }
                    AcquisitionProgress::Continue => {}
                    AcquisitionProgress::GaveUp => panic!("there is a frame"),
                }
            }
            AcquisitionStep::Sleep(ms) => {
                assert_eq!(ms, 500);
                work.resumed();
            }
            AcquisitionStep::Pump(ms) => {
                assert_eq!(ms, 16);
                work.resumed();
            }
            AcquisitionStep::Finish => panic!("there is a frame"),
        }
    }
}

fn next(
    producer: WebView2CompositionProducer,
    content: SignedSize,
    handle: u64,
) -> (WebView2CompositionProducer, WebView2CompositionFrame) {
    let (producer, frame, _) = finish(producer.try_acquire_frame(1000), content, handle);
    (producer, frame)
}

#[test]
fn config_is_built_up() {
    let config = config()
        .with_offset(PixelOffset { x_bits: 3, y_bits: 4 })
        .with_diagnostic_backdrop((1, 2, 3));
    assert_eq!(config.offset, PixelOffset { x_bits: 3, y_bits: 4 });
    assert_eq!(config.diagnostic_backdrop, Some((1, 2, 3)));
    assert_eq!(config.navigation_timeout_ms, 5000);
    assert_eq!(config.frame_timeout_ms, 2000);
    let setup = WebView2CompositionProducer::new(9, config).unwrap();
    assert_eq!(setup.arguments().backdrop, Some(Color { a: 255, r: 1, g: 2, b: 3 }));
    assert_eq!(setup.arguments().bounds, ClientRect { left: 0, top: 0, right: 420, bottom: 260 });
    assert_eq!(setup.arguments().user_data_dir, "C:\\data");
}

#[test]
fn setup_calls_come_in_order() {
    let mut plain = WebView2CompositionProducer::new(1, config()).unwrap();
    let mut backed = WebView2CompositionProducer::new(
        1,
        config().with_diagnostic_backdrop((27, 86, 96)),
    )
    .unwrap();
    let plain = set_up(&mut plain);
    let backed = set_up(&mut backed);
    assert_eq!(plain.len(), 30);
    assert_eq!(backed.len(), 36);
    assert_eq!(plain[0], PlatformCall::CreateCompositor);
    assert_eq!(plain[29], PlatformCall::CastWinrtDevice);
    let bottom = backed.iter().position(|c| *c == PlatformCall::InsertBackdropAtBottom).unwrap();
    let top = backed.iter().position(|c| *c == PlatformCall::InsertWebviewAtTop).unwrap();
    assert!(bottom < top);
    assert!(!plain.contains(&PlatformCall::InsertBackdropAtBottom));
}

#[test]
fn setup_needs_a_window_and_pixels() {
    let error = WebView2CompositionProducer::new(0, config()).unwrap_err();
    assert_eq!(text(error), "parent HWND was null");
    let empty = WebView2CompositionConfig::new(PhysicalSize::new(0, 9), String::new());
    let error = WebView2CompositionProducer::new(1, empty).unwrap_err();
    assert_eq!(text(error), "WebView2 producer size must be non-zero, got 0x9");
    let mut setup = WebView2CompositionProducer::new(1, config()).unwrap();
    let error = setup.report(&failed("0x1")).unwrap_err();
    assert_eq!(text(error), "Compositor::new failed: 0x1");
}

#[test]
fn first_frame_starts_the_capture_and_nudges() {
    let (producer, frame, made) = finish(producer().try_acquire_frame(0), SMALL, 0x50);
    assert_eq!(
        made,
        vec![
            PlatformCall::IsCaptureSupported,
            PlatformCall::CastWebviewVisual,
            PlatformCall::CreateItemFromVisual,
            PlatformCall::ReadItemSize,
            PlatformCall::CreateFramePool,
            PlatformCall::CreateCaptureSession,
            PlatformCall::DisableCursorCapture,
            PlatformCall::DisableCaptureBorder,
            PlatformCall::StartCapture,
            PlatformCall::ExecuteScript,
            PlatformCall::TryGetNextFrame,
            PlatformCall::ReadContentSize,
            PlatformCall::ReadSurface,
            PlatformCall::CastSurfaceAccess,
            PlatformCall::GetCapturedTexture,
            PlatformCall::CreateTexture,
            PlatformCall::TakeTexture,
            PlatformCall::CastDxgiResource,
            PlatformCall::CreateSharedHandle,
            PlatformCall::BorrowTexture,
            PlatformCall::LockDestination,
            PlatformCall::CopyCapture,
            PlatformCall::AwaitCopy,
            PlatformCall::UnlockDestination,
            PlatformCall::CloseFrame,
        ]
    );
    assert!(frame.resource_is_new);
    assert_eq!(frame.shared_handle, 0x50);
    assert_eq!(frame.generation, 1);
    assert_eq!(frame.content_size, PhysicalSize::new(420, 260));
    match frame.frame {
        WryWebSurfaceFrame::Native(NativeFrame::Dx12SharedTexture(native)) => {
            assert_eq!(native.handle, 0x50);
        }
        _ => panic!("a D3D12 frame"),
    }
    let (_, frame, made) = finish(producer.try_acquire_frame(0), SMALL, 0x60);
    assert_eq!(made.first(), Some(&PlatformCall::TryGetNextFrame));
    assert_eq!(made.len(), 11);
    assert!(!frame.resource_is_new);
    assert_eq!(frame.shared_handle, 0);
    assert_eq!(frame.generation, 2);
}

#[test]
fn consumer_imports_once_per_content_size() {
    let mut producer = producer();
    let contents = [SMALL, SMALL, LARGE, LARGE, LARGE, SMALL];
    let mut new = Vec::new();
    let mut imported = 0;
    for (i, content) in contents.into_iter().enumerate() {
        let handle = 0x100 + i as u64;
        let (after, frame) = next(producer, content, handle);
        producer = after;
        assert_eq!(frame.generation, i as u64 + 1);
        if frame.resource_is_new {
            imported = frame.shared_handle;
        }
        new.push(frame.resource_is_new);
    }
    assert_eq!(new, vec![true, false, true, false, false, true]);
    assert_eq!(imported, 0x105);
}

#[test]
fn dropping_the_destination_makes_the_next_frame_new() {
    let (mut producer, _) = next(producer(), SMALL, 1);
    producer.invalidate_persistent_dest();
    let (mut producer, frame) = next(producer, SMALL, 2);
    assert!(frame.resource_is_new);
    assert_eq!(frame.shared_handle, 2);
    let closing = vec![PlatformCall::CloseCaptureSession, PlatformCall::CloseFramePool];
    assert_eq!(run(&mut producer.force_restart_capture()), closing);
    assert!(run(&mut producer.force_restart_capture()).is_empty());
    let (_, frame, made) = finish(producer.try_acquire_frame(0), SMALL, 3);
    assert_eq!(made.first(), Some(&PlatformCall::IsCaptureSupported));
    assert!(!frame.resource_is_new);
}

#[test]
fn resize_drops_capture_and_destination() {
    let (mut producer, _) = next(producer(), SMALL, 1);
    let error = producer.resize(PhysicalSize::new(5, 0)).unwrap_err();
    assert_eq!(text(error), "WebView2 producer resize must be non-zero, got 5x0");
    let unchanged = producer.resize(PhysicalSize::new(420, 260)).unwrap();
    assert_eq!(unchanged.current(), None);
    assert!(run(&mut producer.finish_resize(&unchanged)).is_empty());
    assert!(producer.is_capturing());

    let mut work = producer.resize(PhysicalSize::new(640, 480)).unwrap();
    assert_eq!(work.bounds(), ClientRect { left: 0, top: 0, right: 640, bottom: 480 });
    assert!(run(&mut producer.finish_resize(&work)).is_empty());
    assert_eq!(producer.size(), PhysicalSize::new(420, 260));
    let mut made = Vec::new();
    while let Some(call) = work.current() {
        made.push(call);
        work.report(&CallReply::Done).unwrap();
    }
    assert_eq!(
        made,
        vec![
            PlatformCall::ResizeRootVisual,
            PlatformCall::ResizeWebviewVisual,
            PlatformCall::SetControllerBounds,
        ]
    );
    assert_eq!(
        run(&mut producer.finish_resize(&work)),
        vec![PlatformCall::CloseCaptureSession, PlatformCall::CloseFramePool]
    );
    assert!(run(&mut producer.finish_resize(&unchanged)).is_empty());
    assert_eq!(producer.size(), PhysicalSize::new(640, 480));
    assert!(!producer.is_capturing());
    let (_, frame) = next(producer, SMALL, 2);
    assert!(frame.resource_is_new);
    assert_eq!(frame.generation, 2);
}

#[test]
fn failed_copy_still_hands_the_handle_out_later() {
    let mut work = producer().try_acquire_frame(0);
    loop {
        match work.step() {
            AcquisitionStep::Call(PlatformCall::CopyCapture) => {
                let error = work.report(&failed("lost"), 0).err().unwrap();
                assert_eq!(text(error), "CopyResource failed: lost");
                break;
            }
            AcquisitionStep::Call(call) => {
                work.report(&reply(call, SMALL, 0x31), 0).unwrap();
            }
            _ => work.resumed(),
        }
    }
    assert_eq!(work.phase(), AcquisitionPhase::Ended);
    let producer = work.into_producer();
    assert_eq!(producer.generation(), 1);
    let (_, frame) = next(producer, SMALL, 0x32);
    assert!(frame.resource_is_new);
    assert_eq!(frame.shared_handle, 0x31);
    assert_eq!(frame.generation, 2);
}

#[test]
fn destination_that_stays_locked_gets_no_copy() {
    assert_eq!((DESTINATION_KEY, LOCK_TIMEOUT_MS), (0, 500));
    let (producer, _) = next(producer(), SMALL, 1);
    let mut work = producer.try_acquire_frame(0);
    while work.step() != AcquisitionStep::Call(PlatformCall::LockDestination) {
        if let AcquisitionStep::Call(call) = work.step() {
            work.report(&reply(call, SMALL, 2), 0).unwrap();
        }
    }
    let error = work.report(&failed("0x102"), 0).err().unwrap();
    assert_eq!(text(error), "IDXGIKeyedMutex::AcquireSync failed: 0x102");
    assert_eq!(work.step(), AcquisitionStep::Finish);
}

#[test]
fn poll_gives_up_without_a_frame() {
    let (producer, _) = next(producer(), SMALL, 1);
    let mut work = producer.try_acquire_frame(10);
    assert_eq!(work.phase(), AcquisitionPhase::Polling);
    assert!(matches!(
        work.report(&failed("empty"), 10),
        Ok(AcquisitionProgress::GaveUp)
    ));
    assert_eq!(work.into_producer().generation(), 1);
}

#[test]
fn poll_waits_for_the_first_frame_of_a_capture() {
    let mut work = producer().try_acquire_frame(0);
    while work.phase() != AcquisitionPhase::Nudging {
        match work.step() {
            AcquisitionStep::Call(call) => {
                work.report(&reply(call, SMALL, 1), 0).unwrap();
            }
            _ => work.resumed(),
        }
    }
    work.report(&failed("no page"), 100).unwrap();
    assert_eq!(work.phase(), AcquisitionPhase::Polling);
    assert!(matches!(
        work.report(&failed("empty"), 599),
        Ok(AcquisitionProgress::Continue)
    ));
    assert_eq!(work.step(), AcquisitionStep::Pump(16));
    work.resumed();
    assert!(matches!(
        work.report(&failed("empty"), 600),
        Ok(AcquisitionProgress::GaveUp)
    ));
}

#[test]
fn blocking_acquire_times_out() {
    let (producer, _) = next(producer(), SMALL, 1);
    let mut work = producer.acquire_full_frame(0);
    assert!(matches!(
        work.report(&failed("empty"), 1999),
        Ok(AcquisitionProgress::Continue)
    ));
    work.resumed();
    let error = work.report(&failed("empty"), 2000).err().unwrap();
    assert_eq!(text(error), "TryGetNextFrame timed out after 2s for 420x260: empty");
    let mut work = work.into_producer().acquire_frame_with_timeout(1500, 0);
    let error = work.report(&failed("empty"), 1500).err().unwrap();
    assert_eq!(text(error), "TryGetNextFrame timed out after 1.5s for 420x260: empty");
}

#[test]
fn configured_times_are_kept() {
    let config = WebView2CompositionConfig {
        navigation_timeout_ms: 700,
        frame_timeout_ms: 5000,
        ..config()
    };
    let mut setup = WebView2CompositionProducer::new(1, config).unwrap();
    set_up(&mut setup);
    let producer = setup.finish().unwrap();
    assert_eq!(producer.frame_timeout_ms(), 5000);
    let mut navigation = producer.navigate_within_configured_time("<p></p>");
    navigation.report(&CallReply::Done, 0).unwrap();
    navigation.report(&CallReply::Done, 10).unwrap();
    assert_eq!(navigation.phase(), NavigationPhase::Waiting { deadline_ms: 710 });
    let (producer, _) = next(producer, SMALL, 1);
    let mut work = producer.acquire_full_frame(0);
    assert!(matches!(
        work.report(&failed("empty"), 4999),
        Ok(AcquisitionProgress::Continue)
    ));
    work.resumed();
    let error = work.report(&failed("empty"), 5000).err().unwrap();
    assert_eq!(text(error), "TryGetNextFrame timed out after 5s for 420x260: empty");
}

#[test]
fn capture_needs_a_session() {
    let mut work = producer().try_acquire_frame(0);
    assert!(matches!(
        work.report(&CallReply::Flag(false), 0),
        Err(WryWebSurfaceError::Unsupported(
            "Windows.Graphics.Capture is not supported in this session"
        ))
    ));
    assert!(!work.into_producer().is_capturing());
}

#[test]
fn producer_advertises_imported_textures() {
    let caps = producer().capabilities();
    assert_eq!(caps.preferred_mode, WebSurfaceMode::ImportedTexture);
    assert_eq!(caps.supported_frames.len(), 1);
}

#[test]
fn offset_is_one_call() {
    let mut work = producer().set_offset(PixelOffset { x_bits: 7, y_bits: 0 });
    assert_eq!(work.offset.x_bits, 7);
    assert_eq!(run(&mut work.sequence), vec![PlatformCall::MoveRootVisual]);
    let mut work = producer().set_offset(PixelOffset::zero());
    let error = work.sequence.report(&failed("0x2")).unwrap_err();
    assert_eq!(text(error), "root.SetOffset failed: 0x2");
}

#[test]
fn labels_are_sanitized() {
    assert_eq!(sanitize_label("a\"); alert('x'); //b-1_2.3:Z"), "aalertxb-1_2.3:Z");
    assert_eq!(sanitize_label(FIRST_FRAME_NUDGE_LABEL), FIRST_FRAME_NUDGE_LABEL);
    assert_eq!(sanitize_label("\u{e9}\u{1f600}"), "");
}

#[test]
fn nudge_is_the_whole_script() {
    let expected = concat_lines(&[
        "(() => new Promise(resolve => {",
        "                document.body.dataset.captureNudge = \"first\";",
        "                document.body.style.boxShadow = `inset 0 0 0 4px rgb(${Math.floor(Math.random() * 255)}, 190, 112)`;",
        "                requestAnimationFrame(() => requestAnimationFrame(() => resolve(\"nudged\")));",
        "            }))()",
    ]);
    assert_eq!(nudge_script("fi rst\""), expected);
    let (script, mut sequence) = producer().nudge_content("first");
    assert_eq!(script, expected);
    let error = sequence.report(&failed("0x3")).unwrap_err();
    assert_eq!(text(error), "ExecuteScript: 0x3");
    assert!(RENDER_TICK_SCRIPT.contains("resolve(\"present\")"));
}

fn concat_lines(lines: &[&str]) -> String {
    lines.join("\n")
}

fn waiting(timeout_ms: u64, now_ms: u64) -> Navigation {
    let mut navigation = producer().navigate_to_string("<p>hi</p>", timeout_ms);
    assert_eq!(navigation.html(), "<p>hi</p>");
    assert_eq!(navigation.step(), NavigationStep::Call(PlatformCall::AddNavigationHandler));
    navigation.report(&CallReply::Done, now_ms).unwrap();
    assert_eq!(navigation.step(), NavigationStep::Call(PlatformCall::NavigateToString));
    navigation.report(&CallReply::Done, now_ms).unwrap();
    assert_eq!(navigation.step(), NavigationStep::Poll);
    navigation
}

#[test]
fn navigation_waits_for_the_page_and_a_tick() {
    let mut navigation = waiting(5000, 100);
    assert_eq!(navigation.polled(false, 200), WaitAdvice::DispatchMessages);
    assert_eq!(navigation.message_dispatched(false), WaitAdvice::DispatchMessages);
    assert_eq!(navigation.message_dispatched(true), WaitAdvice::Proceed);
    assert_eq!(
        navigation.step(),
        NavigationStep::Call(PlatformCall::RemoveNavigationHandler)
    );
    navigation.report(&failed("ignored"), 300).unwrap();
    assert_eq!(navigation.step(), NavigationStep::Call(PlatformCall::ExecuteScript));
    navigation.report(&CallReply::Done, 300).unwrap();
    assert_eq!(navigation.step(), NavigationStep::Finish);
}

#[test]
fn navigation_times_out_after_the_handler_is_off() {
    let mut navigation = waiting(5000, 100);
    assert_eq!(navigation.polled(false, 5099), WaitAdvice::DispatchMessages);
    assert_eq!(navigation.polled(false, 5100), WaitAdvice::Proceed);
    assert_eq!(navigation.phase(), NavigationPhase::Unlistening { completed: false });
    let error = navigation.report(&CallReply::Done, 5100).unwrap_err();
    assert_eq!(text(error), "WebView2 navigation did not complete within 5s");
    assert_eq!(navigation.step(), NavigationStep::Finish);
}

#[test]
fn page_that_loads_at_the_deadline_has_loaded() {
    let mut navigation = waiting(250, 0);
    assert_eq!(navigation.polled(true, 250), WaitAdvice::Proceed);
    navigation.report(&CallReply::Done, 250).unwrap();
    let error = navigation.report(&failed("0x4"), 250).unwrap_err();
    assert_eq!(text(error), "ExecuteScript: 0x4");
}

#[test]
fn navigation_that_cannot_begin_fails() {
    let mut navigation = producer().navigate_to_string("", 1);
    let error = navigation.report(&failed("0x5"), 0).unwrap_err();
    assert_eq!(text(error), "add_NavigationCompleted failed: 0x5");
    let mut navigation = producer().navigate_to_string("", 1);
    navigation.report(&CallReply::Done, 0).unwrap();
    let error = navigation.report(&failed("0x6"), 0).unwrap_err();
    assert_eq!(text(error), "NavigateToString failed: 0x6");
    assert_eq!(navigation.step(), NavigationStep::Finish);
}

#[test]
fn messages_are_pumped_for_a_while() {
    let pump = MessagePump::pump_messages_for(16, 100);
    assert!(pump.goes_on(115));
    assert!(!pump.goes_on(116));
}

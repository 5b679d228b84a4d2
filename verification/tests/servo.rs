use wgpu_gui_bridge::error::InteropError;
use wgpu_gui_bridge::geometry::{
    as_signed, as_unsigned, PhysicalSize, SignedSize,
};
use wgpu_gui_bridge::interop::{
    Dx12SharedTexture, HalApis, ImportOptions, ImportProgress, InteropBackend, NativeFrame,
    OpenedTexture, TextureOrigin,
};
use wgpu_gui_bridge::platform::TargetPlatform;
use wgpu_gui_bridge::servo_adapter::{
    CapturingRenderingContext, FrameRegion, PresentStep, ServoWgpuInteropAdapter,
    ServoWgpuRenderingContext, SurfaceImport, SurfaceImportReply, SurfaceImportStep,
    SurfmanSurfaceImportError, SurfmanSurfaceImporter,
};
use wgpu_gui_bridge::surfman_gl::{SurfmanImport, SurfmanReply, SurfmanStep};
use wgpu_gui_bridge::sync::SyncMechanism;
use wgpu_gui_bridge::texture::{RgbaImage, TextureFormat};

const DX12: HalApis = HalApis { vulkan: false, metal: false, dx12: true };

#[derive(Debug, PartialEq)]
struct Surface(u32);

fn device() -> (wgpu::Device, wgpu::Queue) {
    wgpu::Device::noop(&wgpu::DeviceDescriptor::default())
}

fn texture(device: &wgpu::Device) -> wgpu::Texture {
    device.create_texture(&wgpu::TextureDescriptor {
        label: None,
        size: wgpu::Extent3d { width: 2, height: 2, depth_or_array_layers: 1 },
        mip_level_count: 1,
        sample_count: 1,
        dimension: wgpu::TextureDimension::D2,
        format: wgpu::TextureFormat::Rgba8Unorm,
        usage: wgpu::TextureUsages::COPY_SRC,
        view_formats: &[],
    })
}

fn frame() -> NativeFrame {
    NativeFrame::Dx12SharedTexture(Dx12SharedTexture {
        size: PhysicalSize::new(2, 2),
        format: TextureFormat::Rgba8Unorm,
        generation: 4,
        producer_sync: SyncMechanism::ImplicitGlFlush,
        handle: 8,
    })
}

fn surfman_import(dx12: bool) -> SurfmanImport {
    let options = ImportOptions::default();
    let frame = PhysicalSize::new(2, 2);
    let source = PhysicalSize::new(3, 3);
    if dx12 {
        SurfmanImport::import_current_frame_dx12(frame, source, 6, &options)
    } else {
        SurfmanImport::import_current_frame(frame, source, 6, &options)
    }
}

#[test]
fn angle_frame_needs_no_unbinding() {
    let (device, _queue) = device();
    let mut import = surfman_import(false);
    assert_eq!(import.step(), SurfmanStep::MakeCurrent);
    assert!(import.report(SurfmanReply::Done).is_none());
    assert_eq!(
        import.step(),
        SurfmanStep::ImportAngle { convert_to: Some(TextureFormat::Rgba8Unorm) }
    );
    assert_eq!(import.source_size(), PhysicalSize::new(3, 3));
    let opened = texture(&device);
    let imported = import.report(SurfmanReply::Texture(opened.clone())).unwrap().unwrap();
    assert_eq!(imported.texture, opened);
    assert_eq!(imported.format, TextureFormat::Rgba8Unorm);
    assert_eq!(imported.size, PhysicalSize::new(2, 2));
    assert_eq!(imported.origin, TextureOrigin::TopLeft);
    assert_eq!(imported.generation, 6);
    assert_eq!(imported.consumer_sync, SyncMechanism::ImplicitGlFlush);
    assert_eq!(import.step(), SurfmanStep::Finish);
}

#[test]
fn angle_frame_keeps_its_format_on_request() {
    let (device, _queue) = device();
    let mut import = SurfmanImport::import_current_frame(
        PhysicalSize::new(2, 2),
        PhysicalSize::new(2, 2),
        1,
        &ImportOptions { normalize_format: false, ..ImportOptions::default() },
    );
    import.report(SurfmanReply::Done);
    assert_eq!(import.step(), SurfmanStep::ImportAngle { convert_to: None });
    let imported = import.report(SurfmanReply::Texture(texture(&device))).unwrap().unwrap();
    assert_eq!(imported.format, TextureFormat::Bgra8Unorm);
}

#[test]
fn other_frame_is_imported_from_its_framebuffer() {
    let (device, _queue) = device();
    let mut import = surfman_import(false);
    import.report(SurfmanReply::Done);
    import.report(SurfmanReply::ImportFailed(InteropError::Angle("no".to_string())));
    assert_eq!(import.step(), SurfmanStep::UnbindSurface);
    import.report(SurfmanReply::Done);
    import.report(SurfmanReply::Done);
    assert_eq!(import.step(), SurfmanStep::InspectSurface);
    import.report(SurfmanReply::Framebuffer(Some(11)));
    assert_eq!(import.step(), SurfmanStep::ImportFramebuffer { framebuffer: 11 });
    assert!(import.report(SurfmanReply::Texture(texture(&device))).is_none());
    assert_eq!(import.step(), SurfmanStep::RebindSurface);
    let imported = import.report(SurfmanReply::Done).unwrap().unwrap();
    assert_eq!(imported.format, TextureFormat::Rgba8Unorm);
}

#[test]
fn surface_that_cannot_be_bound_again_is_destroyed() {
    let mut import = surfman_import(true);
    assert_eq!(import.step(), SurfmanStep::UnbindSurface);
    import.report(SurfmanReply::Done);
    import.report(SurfmanReply::Done);
    import.report(SurfmanReply::Framebuffer(None));
    assert_eq!(import.step(), SurfmanStep::ImportFramebuffer { framebuffer: 0 });
    import.report(SurfmanReply::ImportFailed(InteropError::Dx12("lost".to_string())));
    assert!(import.report(SurfmanReply::Failed("SurfaceDataInaccessible".to_string())).is_none());
    assert_eq!(import.step(), SurfmanStep::DestroySurface);
    let error = import.report(SurfmanReply::Done).unwrap().unwrap_err();
    assert_eq!(error.message(), "D3D12 interop failed: lost");
}

#[test]
fn surfman_failures_end_the_import() {
    let mut import = surfman_import(false);
    let error = import.report(SurfmanReply::Failed("Failed".to_string())).unwrap().unwrap_err();
    assert_eq!(error.message(), "surfman interop failed: Failed");
    let mut import = surfman_import(true);
    let error = import.report(SurfmanReply::NoSurface).unwrap().unwrap_err();
    assert_eq!(error.message(), "invalid frame: no surfman surface available");
}

fn surface_importer() -> SurfmanSurfaceImporter {
    let (device, queue) = device();
    SurfmanSurfaceImporter::new(device, queue, TargetPlatform::Windows, DX12)
}

fn begun(importer: &SurfmanSurfaceImporter) -> SurfaceImport {
    importer.import_surface(
        SignedSize { width: 2, height: -1 },
        &ImportOptions::default(),
        TargetPlatform::Windows,
    )
}

fn acquiring(importer: &SurfmanSurfaceImporter) -> SurfaceImport {
    let mut import = importer
        .import_surface_default(SignedSize { width: 2, height: 2 }, TargetPlatform::Windows);
    assert!(import.report::<Surface>(importer, SurfaceImportReply::Done).is_none());
    assert!(matches!(import.step(), SurfaceImportStep::MakeCurrent));
    assert!(import.report::<Surface>(importer, SurfaceImportReply::Done).is_none());
    assert!(matches!(import.step(), SurfaceImportStep::AcquireFrame));
    import
}

#[test]
fn surface_comes_back_with_its_texture() {
    let importer = surface_importer();
    let mut import = acquiring(&importer);
    assert_eq!(import.size(), PhysicalSize::new(2, 2));
    import.report::<Surface>(&importer, SurfaceImportReply::Frame(frame()));
    match import.step() {
        SurfaceImportStep::Open(request) => assert_eq!(request.raw, 8),
        _ => panic!("a resource has to be opened"),
    }
    let opened = texture(&importer.importer().host().device);
    import.report::<Surface>(
        &importer,
        SurfaceImportReply::Opened(OpenedTexture::Texture(opened.clone())),
    );
    assert!(matches!(import.step(), SurfaceImportStep::UnbindSurface));
    let imported = import
        .report(&importer, SurfaceImportReply::Unbound(Some(Surface(1))))
        .unwrap()
        .unwrap();
    assert_eq!(imported.surface, Surface(1));
    assert_eq!(imported.imported_texture.texture, opened);
    assert_eq!(imported.imported_texture.generation, 4);
    assert_eq!(importer.importer().host().backend, InteropBackend::Dx12);
}

#[test]
fn surface_that_cannot_be_bound_is_gone() {
    let importer = surface_importer();
    let mut import = begun(&importer);
    assert_eq!(import.size(), PhysicalSize::new(2, u32::MAX));
    let failure = import
        .report::<Surface>(
            &importer,
            SurfaceImportReply::SurfmanFailed(surfman::Error::Failed),
        )
        .unwrap()
        .unwrap_err();
    assert_eq!(failure.error().message(), "failed to bind surfman surface");
    let (error, surface) = failure.into_parts();
    assert!(matches!(error, SurfmanSurfaceImportError::BindSurface(surfman::Error::Failed)));
    assert!(surface.is_none());
}

#[test]
fn bound_surface_is_recovered_after_a_failure() {
    let importer = surface_importer();
    let mut import = begun(&importer);
    import.report::<Surface>(&importer, SurfaceImportReply::Done);
    import.report::<Surface>(
        &importer,
        SurfaceImportReply::SurfmanFailed(surfman::Error::NoCurrentConnection),
    );
    let failure = import
        .report(&importer, SurfaceImportReply::Unbound(Some(Surface(7))))
        .unwrap()
        .unwrap_err();
    assert_eq!(failure.error().message(), "failed to make surfman context current");
    assert_eq!(failure.into_parts().1, Some(Surface(7)));

    let mut import = acquiring(&importer);
    import.report::<Surface>(
        &importer,
        SurfaceImportReply::FrameFailed(InteropError::InvalidFrame("none")),
    );
    let failure = import
        .report::<Surface>(
            &importer,
            SurfaceImportReply::SurfmanFailed(surfman::Error::Failed),
        )
        .unwrap()
        .unwrap_err();
    assert_eq!(failure.error().message(), "failed to acquire frame from surfman context");
    assert_eq!(failure.into_parts().1, None);

    let mut import = acquiring(&importer);
    import.report::<Surface>(&importer, SurfaceImportReply::Frame(frame()));
    import.report::<Surface>(
        &importer,
        SurfaceImportReply::Opened(OpenedTexture::NullResource),
    );
    let failure = import
        .report(&importer, SurfaceImportReply::Unbound(Some(Surface(9))))
        .unwrap()
        .unwrap_err();
    assert_eq!(failure.error().message(), "failed to import frame into wgpu");
    assert_eq!(failure.into_parts().1, Some(Surface(9)));
}

#[test]
fn surface_must_come_back_after_an_import() {
    let importer = surface_importer();
    let imported = |importer: &SurfmanSurfaceImporter| {
        let mut import = acquiring(importer);
        import.report::<Surface>(importer, SurfaceImportReply::Frame(frame()));
        let opened = texture(&importer.importer().host().device);
        import.report::<Surface>(
            importer,
            SurfaceImportReply::Opened(OpenedTexture::Texture(opened)),
        );
        import
    };
    let failure = imported(&importer)
        .report::<Surface>(&importer, SurfaceImportReply::Unbound(None))
        .unwrap()
        .unwrap_err();
    assert_eq!(
        failure.error().message(),
        "import completed without returning a surfman surface"
    );
    let failure = imported(&importer)
        .report::<Surface>(
            &importer,
            SurfaceImportReply::SurfmanFailed(surfman::Error::Failed),
        )
        .unwrap()
        .unwrap_err();
    assert_eq!(failure.error().message(), "failed to unbind surfman surface");
}

#[test]
fn rendering_context_follows_its_size() {
    let mut context = ServoWgpuRenderingContext::new(PhysicalSize::new(800, 600));
    assert_eq!(context.surface_size(), SignedSize { width: 800, height: 600 });
    assert_eq!(context.resize_viewport(PhysicalSize::new(800, 600)), None);
    assert_eq!(
        context.resize_viewport(PhysicalSize::new(u32::MAX, 10)),
        Some(SignedSize { width: -1, height: 10 })
    );
    assert_eq!(context.size(), PhysicalSize::new(u32::MAX, 10));
    assert_eq!(
        context.read_full_frame(),
        FrameRegion { x: 0, y: 0, width: -1, height: 10 }
    );
}

fn image(byte: u8) -> RgbaImage {
    RgbaImage::from_raw(PhysicalSize::new(1, 1), vec![byte; 4]).unwrap()
}

#[test]
fn frame_is_captured_before_it_is_presented() {
    let inner = ServoWgpuRenderingContext::new(PhysicalSize::new(1, 1));
    let mut context = CapturingRenderingContext::new(inner);
    assert!(context.take_frame().is_none());
    for (byte, leftover_errors) in [(5, 0), (6, 3)] {
        let mut presentation = context.present();
        for _ in 0..leftover_errors {
            assert_eq!(presentation.step, PresentStep::PollGlError);
            context.gl_error_polled(&mut presentation, 0x0502);
        }
        context.gl_error_polled(&mut presentation, 0);
        assert_eq!(
            presentation.step,
            PresentStep::ReadFrame(FrameRegion { x: 0, y: 0, width: 1, height: 1 })
        );
        context.frame_read(&mut presentation, Some(image(byte)));
        assert_eq!(presentation.step, PresentStep::SwapBuffers);
        context.swapped(&mut presentation);
        assert_eq!(presentation.step, PresentStep::Finish);
    }
    assert_eq!(context.take_frame(), Some(image(6)));
    assert_eq!(context.take_frame(), None);
    assert_eq!(context.size(), PhysicalSize::new(1, 1));
    assert!(context.resize(PhysicalSize::new(2, 1)).is_some());
    assert!(context.resize(PhysicalSize::new(2, 1)).is_none());
}

#[test]
fn adapter_imports_what_was_acquired() {
    let (device, queue) = device();
    let size = PhysicalSize::new(2, 2);
    let mut adapter =
        ServoWgpuInteropAdapter::new(device, queue, size, TargetPlatform::Windows, DX12);
    assert!(matches!(
        adapter.import_current_frame_default(Ok(frame()), TargetPlatform::Windows),
        ImportProgress::Open(_)
    ));
    assert!(matches!(
        adapter.import_current_frame(
            Err(InteropError::InvalidFrame("gone")),
            &ImportOptions::default(),
            TargetPlatform::Windows,
        ),
        ImportProgress::Finished(Err(InteropError::InvalidFrame("gone")))
    ));
    adapter.rendering_context_handle().resize_viewport(PhysicalSize::new(5, 5));
    assert_eq!(adapter.rendering_context_handle().size(), PhysicalSize::new(5, 5));
    assert_eq!(adapter.importer().host().backend, InteropBackend::Dx12);
}

#[test]
fn pixel_counts_are_reinterpreted_as_casts_do() {
    for x in [0u32, 1, 0x7fff_ffff, 0x8000_0000, u32::MAX] {
        assert_eq!(as_signed(x), x as i32);
        assert_eq!(as_unsigned(as_signed(x)), x);
    }
}

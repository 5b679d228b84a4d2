use std::rc::Rc;

use wgpu_gui_bridge::error::{InteropError, UnsupportedReason};
use wgpu_gui_bridge::geometry::PhysicalSize;
use wgpu_gui_bridge::interop::{
    detect_backend, import_dx12_shared_texture, import_metal_texture_ref, CapabilityMatrix,
    CapabilityStatus, Dx12SharedTexture, GlFrameInfo, GlFramebufferSource, GlFramebufferSourceImpl,
    HalApis, HostWgpuContext, ImportOptions, ImportProgress, ImportedTexture, InteropBackend,
    MetalTextureRef, NativeFrame, NativeFrameKind, OpenedTexture, TextureImporter, TextureOrigin,
    VulkanExternalImage, WgpuTextureImporter,
};
use wgpu_gui_bridge::platform::TargetPlatform;
use wgpu_gui_bridge::sync::{
    ImplicitOnlySynchronizer, InteropSynchronizer, NoopSynchronizer, SyncMechanism,
};
use wgpu_gui_bridge::texture::TextureFormat;

const NO_APIS: HalApis = HalApis { vulkan: false, metal: false, dx12: false };

fn device() -> (wgpu::Device, wgpu::Queue) {
    wgpu::Device::noop(&wgpu::DeviceDescriptor::default())
}

fn texture(device: &wgpu::Device) -> wgpu::Texture {
    device.create_texture(&wgpu::TextureDescriptor {
        label: Some("test"),
        size: wgpu::Extent3d { width: 4, height: 4, depth_or_array_layers: 1 },
        mip_level_count: 1,
        sample_count: 1,
        dimension: wgpu::TextureDimension::D2,
        format: wgpu::TextureFormat::Rgba8Unorm,
        usage: wgpu::TextureUsages::TEXTURE_BINDING,
        view_formats: &[],
    })
}

fn importer(platform: TargetPlatform, apis: HalApis) -> WgpuTextureImporter {
    let (device, queue) = device();
    WgpuTextureImporter::new(HostWgpuContext::new(device, queue, platform, apis))
}

fn dx12_frame(sync: SyncMechanism) -> Dx12SharedTexture {
    Dx12SharedTexture {
        size: PhysicalSize::new(640, 480),
        format: TextureFormat::Bgra8Unorm,
        generation: 7,
        producer_sync: sync,
        handle: 0x44,
    }
}

fn metal_frame() -> MetalTextureRef {
    MetalTextureRef {
        size: PhysicalSize::new(32, 16),
        format: TextureFormat::Rgba8Unorm,
        generation: 3,
        producer_sync: SyncMechanism::ImplicitGlFlush,
        raw_metal_texture: 0x1000,
    }
}

#[test]
fn import_options_default_prefers_normalized_textures() {
    let options = ImportOptions::default();

    assert!(!options.allow_copy_fallback);
    assert!(options.normalize_origin);
    assert!(options.normalize_format);
}

#[test]
fn capability_matrix_tracks_backend_shape() {
    let vulkan = CapabilityMatrix::for_backend(InteropBackend::Vulkan);
    let metal = CapabilityMatrix::for_backend(InteropBackend::Metal);
    let dx12 = CapabilityMatrix::for_backend(InteropBackend::Dx12);
    let unknown = CapabilityMatrix::for_backend(InteropBackend::Unknown);

    assert_eq!(vulkan.gl_framebuffer_source, CapabilityStatus::Supported);
    assert_eq!(metal.gl_framebuffer_source, CapabilityStatus::Supported);
    assert_eq!(dx12.gl_framebuffer_source, CapabilityStatus::Supported);
    assert_eq!(
        unknown.gl_framebuffer_source,
        CapabilityStatus::Unsupported(UnsupportedReason::HostBackendUnavailable)
    );

    assert_eq!(
        vulkan.vulkan_external_image,
        CapabilityStatus::Unsupported(UnsupportedReason::NativeImportNotYetImplemented)
    );
    assert_eq!(
        metal.vulkan_external_image,
        CapabilityStatus::Unsupported(UnsupportedReason::HostBackendMismatch)
    );

    assert_eq!(metal.metal_texture_ref, CapabilityStatus::Supported);
    assert_eq!(
        vulkan.metal_texture_ref,
        CapabilityStatus::Unsupported(UnsupportedReason::HostBackendMismatch)
    );

    assert_eq!(dx12.dx12_shared_texture, CapabilityStatus::Supported);
    assert_eq!(
        vulkan.dx12_shared_texture,
        CapabilityStatus::Unsupported(UnsupportedReason::HostBackendMismatch)
    );
}

#[test]
fn implicit_synchronizer_accepts_implicit_flush() {
    assert!(ImplicitOnlySynchronizer::validate(SyncMechanism::ImplicitGlFlush).is_ok());
}

#[test]
fn implicit_synchronizer_rejects_explicit_sync() {
    assert!(matches!(
        ImplicitOnlySynchronizer::validate(SyncMechanism::ExplicitExternalSemaphore),
        Err(InteropError::UnsupportedSynchronization(
            SyncMechanism::ExplicitExternalSemaphore
        ))
    ));
}

#[test]
fn implicit_synchronizer_accepts_no_synchronization() {
    assert!(ImplicitOnlySynchronizer::validate(SyncMechanism::Unsynchronized).is_ok());
}

#[test]
fn backend_is_detected_where_it_can_exist() {
    let all = HalApis { vulkan: true, metal: true, dx12: true };
    assert_eq!(detect_backend(TargetPlatform::Windows, all), InteropBackend::Vulkan);
    assert_eq!(detect_backend(TargetPlatform::Linux, all), InteropBackend::Vulkan);
    assert_eq!(detect_backend(TargetPlatform::Android, all), InteropBackend::Vulkan);
    assert_eq!(detect_backend(TargetPlatform::MacOs, all), InteropBackend::Metal);
    assert_eq!(detect_backend(TargetPlatform::OtherApple, all), InteropBackend::Metal);
    assert_eq!(detect_backend(TargetPlatform::Other, all), InteropBackend::Unknown);
    let dx12 = HalApis { vulkan: false, metal: false, dx12: true };
    assert_eq!(detect_backend(TargetPlatform::Windows, dx12), InteropBackend::Dx12);
    assert_eq!(detect_backend(TargetPlatform::Linux, dx12), InteropBackend::Unknown);
    assert_eq!(detect_backend(TargetPlatform::Windows, NO_APIS), InteropBackend::Unknown);
}

#[test]
fn platform_is_known_by_its_name() {
    assert_eq!(TargetPlatform::from_os_name("windows"), TargetPlatform::Windows);
    assert_eq!(TargetPlatform::from_os_name("macos"), TargetPlatform::MacOs);
    assert_eq!(TargetPlatform::from_os_name("ios"), TargetPlatform::OtherApple);
    assert_eq!(TargetPlatform::from_os_name("linux"), TargetPlatform::Linux);
    assert_eq!(TargetPlatform::from_os_name("android"), TargetPlatform::Android);
    assert_eq!(TargetPlatform::from_os_name("freebsd"), TargetPlatform::Other);
}

#[test]
fn host_reports_its_own_backend() {
    let (device, queue) = device();
    let apis = HalApis { vulkan: true, metal: false, dx12: false };
    let host = HostWgpuContext::new(device, queue, TargetPlatform::Linux, apis);
    assert_eq!(host.backend, InteropBackend::Vulkan);
    assert_eq!(host.capabilities(), CapabilityMatrix::for_backend(InteropBackend::Vulkan));
}

#[test]
fn dx12_frame_is_opened_and_keeps_its_data() {
    let apis = HalApis { vulkan: false, metal: false, dx12: true };
    let importer = importer(TargetPlatform::Windows, apis);
    let frame = NativeFrame::Dx12SharedTexture(dx12_frame(SyncMechanism::Unsynchronized));
    assert_eq!(frame.kind(), NativeFrameKind::Dx12SharedTexture);
    let options = ImportOptions { normalize_format: false, ..ImportOptions::default() };
    let progress = importer.import_frame(&frame, &options, TargetPlatform::Windows);
    let request = match progress {
        ImportProgress::Open(request) => request,
        ImportProgress::Finished(_) => panic!("a resource has to be opened"),
    };
    assert_eq!(request.api, InteropBackend::Dx12);
    assert_eq!(request.raw, 0x44);
    assert_eq!(request.shape.label, "dx12-shared-texture-import");
    assert_eq!(request.shape.mip_level_count, 1);
    assert_eq!(request.conversion(), None);
    assert!(request.shape.usage.copy_src && request.shape.usage.texture_binding);
    assert!(!request.shape.usage.copy_dst);
    let opened = texture(&importer.host().device);
    let imported = importer
        .resume_import(request, OpenedTexture::Texture(opened.clone()))
        .unwrap();
    assert_eq!(imported.texture, opened);
    assert_eq!(imported.format, TextureFormat::Bgra8Unorm);
    assert_eq!(imported.size, PhysicalSize::new(640, 480));
    assert_eq!(imported.origin, TextureOrigin::TopLeft);
    assert_eq!(imported.generation, 7);
    assert_eq!(imported.consumer_sync, SyncMechanism::Unsynchronized);
}

#[test]
fn default_import_is_converted_to_rgba() {
    let apis = HalApis { vulkan: false, metal: false, dx12: true };
    let importer = importer(TargetPlatform::Windows, apis);
    let frame = NativeFrame::Dx12SharedTexture(dx12_frame(SyncMechanism::Unsynchronized));
    let request =
        match importer.import_frame(&frame, &ImportOptions::default(), TargetPlatform::Windows) {
            ImportProgress::Open(request) => request,
            ImportProgress::Finished(_) => panic!("a resource has to be opened"),
        };
    assert_eq!(request.shape.format, TextureFormat::Bgra8Unorm);
    assert_eq!(request.conversion(), Some(TextureFormat::Rgba8Unorm));
    assert_eq!(request.output_format(), TextureFormat::Rgba8Unorm);
    let opened = texture(&importer.host().device);
    let imported = importer.resume_import(request, OpenedTexture::Texture(opened)).unwrap();
    assert_eq!(imported.format, TextureFormat::Rgba8Unorm);
    assert_eq!(imported.origin, TextureOrigin::TopLeft);
    let metal = import_metal_texture_ref(
        &metal_frame(),
        InteropBackend::Metal,
        &ImportOptions::default(),
        TargetPlatform::MacOs,
    )
    .unwrap();
    assert_eq!(metal.conversion(), None);
    assert_eq!(metal.output_format(), TextureFormat::Rgba8Unorm);
}

#[test]
fn unsupported_kind_is_reported_with_its_reason() {
    let dx12 = NativeFrame::Dx12SharedTexture(dx12_frame(SyncMechanism::Unsynchronized));
    let metal = NativeFrame::MetalTextureRef(metal_frame());
    let vulkan = HalApis { vulkan: true, metal: false, dx12: false };
    let options = ImportOptions::default();
    let import = |frame: &NativeFrame, platform, apis| {
        match importer(platform, apis).import_frame(frame, &options, platform) {
            ImportProgress::Finished(Err(InteropError::Unsupported(reason))) => reason,
            _ => panic!("the kind is not supported"),
        }
    };
    let mismatch = UnsupportedReason::HostBackendMismatch;
    let unavailable = UnsupportedReason::HostBackendUnavailable;
    assert_eq!(import(&dx12, TargetPlatform::Windows, vulkan), mismatch);
    assert_eq!(import(&metal, TargetPlatform::Windows, vulkan), mismatch);
    assert_eq!(import(&dx12, TargetPlatform::Windows, NO_APIS), unavailable);
    assert_eq!(import(&metal, TargetPlatform::MacOs, NO_APIS), unavailable);
    assert_eq!(import(&metal, TargetPlatform::Windows, NO_APIS), mismatch);
    assert_eq!(import(&dx12, TargetPlatform::Linux, NO_APIS), mismatch);
}

#[test]
fn host_context_is_cloned_with_its_backend() {
    let (device, queue) = device();
    let apis = HalApis { vulkan: true, metal: false, dx12: false };
    let host = HostWgpuContext::new(device.clone(), queue.clone(), TargetPlatform::Linux, apis);
    let clone = host.clone();
    assert_eq!(clone.backend, InteropBackend::Vulkan);
    assert_eq!(clone.device, device);
    assert_eq!(clone.queue, queue);
}

#[test]
fn failed_openings_are_told_apart() {
    let apis = HalApis { vulkan: false, metal: false, dx12: true };
    let importer = importer(TargetPlatform::Windows, apis);
    let request = import_dx12_shared_texture(
        &dx12_frame(SyncMechanism::Unsynchronized),
        InteropBackend::Dx12,
        &ImportOptions::default(),
        TargetPlatform::Windows,
    )
    .unwrap();
    let message = |opened| importer.resume_import(request, opened).unwrap_err().message();
    assert_eq!(
        message(OpenedTexture::NullResource),
        "D3D12 interop failed: OpenSharedHandle returned null"
    );
    assert_eq!(
        message(OpenedTexture::OpenRejected("E_INVALIDARG".to_string())),
        "D3D12 interop failed: E_INVALIDARG"
    );
    assert_eq!(
        message(OpenedTexture::DeviceMismatch),
        "backend mismatch: expected Dx12, found non-Dx12"
    );
    assert_eq!(
        message(OpenedTexture::RetainFailed),
        "metal interop failed: failed to retain Metal texture"
    );
    assert_eq!(
        message(OpenedTexture::ConversionFailed("no pipeline".to_string())),
        "D3D12 interop failed: no pipeline"
    );
    let metal = import_metal_texture_ref(
        &metal_frame(),
        InteropBackend::Metal,
        &ImportOptions::default(),
        TargetPlatform::MacOs,
    )
    .unwrap();
    let failed = OpenedTexture::ConversionFailed("no pipeline".to_string());
    assert_eq!(
        importer.resume_import(metal, failed).unwrap_err().message(),
        "metal interop failed: no pipeline"
    );
}

#[test]
fn dx12_frame_needs_windows_and_dx12() {
    let frame = dx12_frame(SyncMechanism::Unsynchronized);
    let options = ImportOptions::default();
    assert!(matches!(
        import_dx12_shared_texture(
            &frame,
            InteropBackend::Vulkan,
            &options,
            TargetPlatform::Windows
        ),
        Err(InteropError::BackendMismatch { expected: "Dx12", actual: "non-Dx12" })
    ));
    assert!(matches!(
        import_dx12_shared_texture(&frame, InteropBackend::Dx12, &options, TargetPlatform::Linux),
        Err(InteropError::Unsupported(UnsupportedReason::HostBackendMismatch))
    ));
}

#[test]
fn metal_frame_needs_apple_a_texture_and_metal() {
    let frame = metal_frame();
    let import = |frame: &MetalTextureRef, backend, platform| {
        import_metal_texture_ref(frame, backend, &ImportOptions::default(), platform)
    };
    let request = import(&frame, InteropBackend::Metal, TargetPlatform::MacOs).unwrap();
    assert_eq!(request.raw, 0x1000);
    assert_eq!(request.api, InteropBackend::Metal);
    assert_eq!(request.shape.label, "metal-texture-ref-import");
    assert!(matches!(
        import(&frame, InteropBackend::Vulkan, TargetPlatform::MacOs),
        Err(InteropError::BackendMismatch { expected: "Metal", actual: "non-Metal" })
    ));
    assert!(matches!(
        import(&frame, InteropBackend::Metal, TargetPlatform::Windows),
        Err(InteropError::Unsupported(UnsupportedReason::HostBackendMismatch))
    ));
    let null = MetalTextureRef { raw_metal_texture: 0, ..frame };
    assert!(matches!(
        import(&null, InteropBackend::Vulkan, TargetPlatform::MacOs),
        Err(InteropError::InvalidFrame("raw_metal_texture is null"))
    ));
}

#[test]
fn vulkan_image_is_not_implemented() {
    let apis = HalApis { vulkan: true, metal: false, dx12: false };
    let importer = importer(TargetPlatform::Linux, apis);
    let frame = NativeFrame::VulkanExternalImage(VulkanExternalImage {
        size: PhysicalSize::new(1, 1),
        format: TextureFormat::Rgba8Unorm,
        generation: 0,
        producer_sync: SyncMechanism::Unsynchronized,
    });
    assert!(matches!(
        importer.import_frame(&frame, &ImportOptions::default(), TargetPlatform::Linux),
        ImportProgress::Finished(Err(InteropError::Unsupported(
            UnsupportedReason::NativeImportNotYetImplemented
        )))
    ));
}

#[test]
fn explicit_semaphore_is_rejected_before_the_frame_is_looked_at() {
    let importer = importer(TargetPlatform::Linux, NO_APIS);
    let frame = NativeFrame::Dx12SharedTexture(dx12_frame(
        SyncMechanism::ExplicitExternalSemaphore,
    ));
    assert!(matches!(
        importer.import_frame(&frame, &ImportOptions::default(), TargetPlatform::Linux),
        ImportProgress::Finished(Err(InteropError::UnsupportedSynchronization(
            SyncMechanism::ExplicitExternalSemaphore
        )))
    ));
}

#[test]
fn noop_synchronizer_lets_every_mechanism_pass() {
    let (device, queue) = device();
    let apis = HalApis { vulkan: false, metal: false, dx12: true };
    let host = HostWgpuContext::new(device, queue, TargetPlatform::Windows, apis);
    let importer = WgpuTextureImporter::with_synchronizer(host, Box::new(NoopSynchronizer));
    let frame = NativeFrame::Dx12SharedTexture(dx12_frame(
        SyncMechanism::ExplicitExternalSemaphore,
    ));
    assert!(matches!(
        importer.import_frame(&frame, &ImportOptions::default(), TargetPlatform::Windows),
        ImportProgress::Open(_)
    ));
}

struct RefusingSynchronizer;

impl InteropSynchronizer for RefusingSynchronizer {
    fn may_complete(
        &self,
        _frame: &NativeFrame,
        _mechanism: SyncMechanism,
        _reply: Result<(), InteropError>,
    ) -> bool {
        true
    }

    fn may_ready(
        &self,
        _texture: &ImportedTexture,
        _mechanism: SyncMechanism,
        _reply: Result<(), InteropError>,
    ) -> bool {
        true
    }

    fn producer_complete(
        &self,
        frame: &NativeFrame,
        _mechanism: SyncMechanism,
    ) -> Result<(), InteropError> {
        match frame {
            NativeFrame::GlFramebufferSource(_) => Ok(()),
            _ => Err(InteropError::Vulkan("not complete".to_string())),
        }
    }

    fn consumer_ready(
        &self,
        _texture: &ImportedTexture,
        _mechanism: SyncMechanism,
    ) -> Result<(), InteropError> {
        Err(InteropError::Vulkan("not ready".to_string()))
    }
}

struct SolidFramebuffer {
    texture: wgpu::Texture,
}

impl GlFramebufferSourceImpl for SolidFramebuffer {
    fn may_reply(
        &self,
        _frame: GlFrameInfo,
        _host: &HostWgpuContext,
        _options: &ImportOptions,
        _reply: Result<ImportedTexture, InteropError>,
    ) -> bool {
        true
    }

    fn import_into(
        &self,
        frame: GlFrameInfo,
        _host: &HostWgpuContext,
        options: &ImportOptions,
    ) -> Result<ImportedTexture, InteropError> {
        if !options.normalize_origin {
            return Err(InteropError::OpenGl("flipped".to_string()));
        }
        Ok(ImportedTexture {
            texture: self.texture.clone(),
            format: TextureFormat::Rgba8Unorm,
            size: frame.size,
            origin: TextureOrigin::TopLeft,
            generation: frame.generation,
            consumer_sync: frame.producer_sync,
        })
    }
}

#[test]
fn gl_frame_is_imported_by_its_own_code() {
    let importer = importer(TargetPlatform::Other, NO_APIS);
    let texture = texture(&importer.host().device);
    let source = GlFramebufferSource::new(
        PhysicalSize::new(4, 4),
        9,
        SyncMechanism::ImplicitGlFlush,
        Rc::new(SolidFramebuffer { texture: texture.clone() }),
    );
    assert_eq!(source.size(), PhysicalSize::new(4, 4));
    assert_eq!(source.generation(), 9);
    assert_eq!(source.producer_sync(), SyncMechanism::ImplicitGlFlush);
    let frame = NativeFrame::GlFramebufferSource(source);
    let options = ImportOptions::default();
    match importer.import_frame(&frame, &options, TargetPlatform::Other) {
        ImportProgress::Finished(Ok(imported)) => {
            assert_eq!(imported.texture, texture);
            assert_eq!(imported.generation, 9);
        }
        _ => panic!("the frame's own code imports it"),
    }
    let raw = ImportOptions { normalize_origin: false, ..options };
    match importer.import_frame(&frame, &raw, TargetPlatform::Other) {
        ImportProgress::Finished(Err(error)) => {
            assert_eq!(error.message(), "OpenGL interop failed: flipped");
        }
        _ => panic!("the frame's own code fails"),
    }
}

#[test]
fn consumer_side_of_a_synchronizer_has_a_say() {
    let (device, queue) = device();
    let texture = texture(&device);
    let host = HostWgpuContext::new(device, queue, TargetPlatform::Other, NO_APIS);
    let importer = WgpuTextureImporter::with_synchronizer(host, Box::new(RefusingSynchronizer));
    let frame = NativeFrame::GlFramebufferSource(GlFramebufferSource::new(
        PhysicalSize::new(4, 4),
        1,
        SyncMechanism::Unsynchronized,
        Rc::new(SolidFramebuffer { texture }),
    ));
    match importer.import_frame(&frame, &ImportOptions::default(), TargetPlatform::Other) {
        ImportProgress::Finished(Err(error)) => {
            assert_eq!(error.message(), "vulkan interop failed: not ready");
        }
        _ => panic!("the synchronizer refuses"),
    }
}

#[test]
fn producer_side_of_a_synchronizer_has_a_say() {
    let (device, queue) = device();
    let apis = HalApis { vulkan: false, metal: false, dx12: true };
    let host = HostWgpuContext::new(device, queue, TargetPlatform::Windows, apis);
    let importer = WgpuTextureImporter::with_synchronizer(host, Box::new(RefusingSynchronizer));
    let frame = NativeFrame::Dx12SharedTexture(dx12_frame(SyncMechanism::Unsynchronized));
    match importer.import_frame(&frame, &ImportOptions::default(), TargetPlatform::Windows) {
        ImportProgress::Finished(Err(error)) => {
            assert_eq!(error.message(), "vulkan interop failed: not complete");
        }
        _ => panic!("the synchronizer refuses"),
    }
}

#[test]
fn errors_are_worded() {
    let cases = [
        (
            InteropError::Unsupported(UnsupportedReason::PlatformNotImplemented),
            "unsupported interop path: PlatformNotImplemented",
        ),
        (
            InteropError::InvalidFrame("no surfman surface available"),
            "invalid frame: no surfman surface available",
        ),
        (
            InteropError::UnsupportedSynchronization(SyncMechanism::Unsynchronized),
            "unsupported synchronization mechanism: None",
        ),
        (InteropError::Surfman("Failed".to_string()), "surfman interop failed: Failed"),
        (InteropError::Angle("no handle".to_string()), "ANGLE EGL interop failed: no handle"),
    ];
    for (error, text) in cases {
        assert_eq!(error.message(), text);
    }
}

#[test]
fn capability_status_is_shown_as_it_is_debugged() {
    for backend in [
        InteropBackend::Vulkan,
        InteropBackend::Metal,
        InteropBackend::Dx12,
        InteropBackend::Unknown,
    ] {
        let status = CapabilityMatrix::for_backend(backend).dx12_shared_texture;
        assert_eq!(status.show(), format!("{status:?}"));
        assert_eq!(backend.name(), format!("{backend:?}"));
    }
}

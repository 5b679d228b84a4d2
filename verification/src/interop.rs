//! Import of native GPU frames into host-owned `wgpu` textures.

use vstd::prelude::*;
use vstd::string::*;

use crate::error::{InteropError, UnsupportedReason};
use crate::geometry::PhysicalSize;
use crate::platform::TargetPlatform;
use crate::sync::{ImplicitOnlySynchronizer, InteropSynchronizer, SyncMechanism};
use crate::text::join3;
use crate::texture::{TextureFormat, TextureShape, TextureUsage};

verus! {

/// `wgpu::Device`, carried through unread.
#[verifier::external_type_specification]
#[verifier::external_body]
pub struct ExDevice(wgpu::Device);

/// `wgpu::Queue`, carried through unread.
#[verifier::external_type_specification]
#[verifier::external_body]
pub struct ExQueue(wgpu::Queue);

/// `wgpu::Texture`, carried through unread.
#[verifier::external_type_specification]
#[verifier::external_body]
pub struct ExTexture(wgpu::Texture);

/// `wgpu::Device::clone`, which clones a handle: the clone stands for the same
/// device.
pub assume_specification[ <wgpu::Device as Clone>::clone ](device: &wgpu::Device) -> (r:
    wgpu::Device)
    ensures
        r == *device,
;

/// `wgpu::Queue::clone`, which clones a handle: the clone stands for the same
/// queue.
pub assume_specification[ <wgpu::Queue as Clone>::clone ](queue: &wgpu::Queue) -> (r: wgpu::Queue)
    ensures
        r == *queue,
;

/// The wgpu graphics backend in use on the host device.
#[derive(Clone, Copy, Debug, PartialEq, Eq, Structural)]
#[non_exhaustive]
pub enum InteropBackend {
    /// Vulkan backend (Linux, Android, Windows with `wgpu::Backends::VULKAN`).
    Vulkan,
    /// Metal backend (macOS, iOS).
    Metal,
    /// Direct3D 12 backend (Windows default).
    Dx12,
    /// Backend could not be detected. All import paths will report
    /// [`CapabilityStatus::Unsupported`].
    Unknown,
}

impl InteropBackend {
    /// The variant's name.
    pub open spec fn spec_name(self) -> &'static str {
        match self {
            InteropBackend::Vulkan => "Vulkan",
            InteropBackend::Metal => "Metal",
            InteropBackend::Dx12 => "Dx12",
            InteropBackend::Unknown => "Unknown",
        }
    }

    /// The variant's name.
    #[verifier::when_used_as_spec(spec_name)]
    pub fn name(self) -> (r: &'static str)
        ensures
            r == self.name(),
    {
        match self {
            InteropBackend::Vulkan => "Vulkan",
            InteropBackend::Metal => "Metal",
            InteropBackend::Dx12 => "Dx12",
            InteropBackend::Unknown => "Unknown",
        }
    }
}

/// Which HAL APIs a device answered to when it was asked for its raw handle.
#[derive(Clone, Copy, Debug, PartialEq, Eq, Structural)]
pub struct HalApis {
    pub vulkan: bool,
    pub metal: bool,
    pub dx12: bool,
}

/// The backend of a device on `platform` that answered to `apis`.
///
/// An API counts only where it can exist: Vulkan on Linux, Android and Windows,
/// Metal on Apple's systems, Direct3D 12 on Windows. Vulkan wins over the rest.
pub open spec fn backend_of(platform: TargetPlatform, apis: HalApis) -> InteropBackend {
    if platform.has_vulkan() && apis.vulkan {
        InteropBackend::Vulkan
    } else if platform.is_apple() && apis.metal {
        InteropBackend::Metal
    } else if platform is Windows && apis.dx12 {
        InteropBackend::Dx12
    } else {
        InteropBackend::Unknown
    }
}

/// The backend of a device on `platform` that answered to `apis`.
pub fn detect_backend(platform: TargetPlatform, apis: HalApis) -> (r: InteropBackend)
    ensures
        r == backend_of(platform, apis),
{
    if platform.has_vulkan() && apis.vulkan {
        return InteropBackend::Vulkan;
    }
    if platform.is_apple() && apis.metal {
        return InteropBackend::Metal;
    }
    if matches!(platform, TargetPlatform::Windows) && apis.dx12 {
        return InteropBackend::Dx12;
    }
    InteropBackend::Unknown
}

/// Which corner of the texture holds row 0 of the image.
///
/// GL renders with the origin at the bottom-left; most compositors expect
/// top-left.
#[derive(Clone, Copy, Debug, PartialEq, Eq, Structural)]
pub enum TextureOrigin {
    /// Row 0 is the top row. The standard convention for wgpu/Vulkan/Metal.
    TopLeft,
    /// Row 0 is the bottom row. Raw GL output before Y-flip normalization.
    BottomLeft,
}

/// Discriminant for [`NativeFrame`] variants, without carrying the frame data.
#[derive(Clone, Copy, Debug, PartialEq, Eq, Structural)]
#[non_exhaustive]
pub enum NativeFrameKind {
    /// A GL framebuffer that will be imported via the platform-specific path.
    GlFramebufferSource,
    /// A Vulkan external image. Import not yet implemented.
    VulkanExternalImage,
    /// A Metal texture reference.
    MetalTextureRef,
    /// A D3D12 shared texture.
    Dx12SharedTexture,
}

/// Whether a particular interop capability is available on this device.
#[derive(Clone, Copy, Debug, PartialEq, Eq, Structural)]
pub enum CapabilityStatus {
    /// The capability is available and an import should succeed.
    Supported,
    /// The capability is not available for the given reason.
    Unsupported(UnsupportedReason),
}

impl CapabilityStatus {
    /// How reports show this status.
    pub open spec fn shown(self) -> Seq<char> {
        match self {
            CapabilityStatus::Supported => "Supported"@,
            CapabilityStatus::Unsupported(reason) => "Unsupported("@ + reason.name()@ + ")"@,
        }
    }

    /// How reports show this status.
    pub fn show(self) -> (r: String)
        ensures
            r@ == self.shown(),
    {
        match self {
            CapabilityStatus::Supported => "Supported".to_owned(),
            CapabilityStatus::Unsupported(reason) => join3("Unsupported(", reason.name(), ")"),
        }
    }
}

/// Reports which frame types can be imported on the current device and backend.
///
/// Use this before attempting an import to give the user an early, descriptive
/// error rather than a runtime failure.
#[derive(Clone, Copy, Debug, PartialEq, Eq, Structural)]
pub struct CapabilityMatrix {
    /// The backend detected on the host wgpu device.
    pub host_backend: InteropBackend,
    /// GL framebuffer import (the primary path — Linux Vulkan, Apple Metal).
    pub gl_framebuffer_source: CapabilityStatus,
    /// Direct Vulkan external image import. Not yet implemented.
    pub vulkan_external_image: CapabilityStatus,
    /// Direct Metal texture reference import.
    pub metal_texture_ref: CapabilityStatus,
    /// D3D12 shared texture import.
    pub dx12_shared_texture: CapabilityStatus,
}

/// The backend whose devices can read frames of `kind` directly; GL
/// framebuffers are read by all of them.
pub open spec fn home_backend(kind: NativeFrameKind) -> Option<InteropBackend> {
    match kind {
        NativeFrameKind::GlFramebufferSource => None,
        NativeFrameKind::VulkanExternalImage => Some(InteropBackend::Vulkan),
        NativeFrameKind::MetalTextureRef => Some(InteropBackend::Metal),
        NativeFrameKind::Dx12SharedTexture => Some(InteropBackend::Dx12),
    }
}

/// Whether frames of `kind` can exist on `platform`: Metal textures on Apple's
/// systems, D3D12 textures on Windows, and the others anywhere.
pub open spec fn kind_exists_on(kind: NativeFrameKind, platform: TargetPlatform) -> bool {
    match kind {
        NativeFrameKind::MetalTextureRef => platform.is_apple(),
        NativeFrameKind::Dx12SharedTexture => platform is Windows,
        _ => true,
    }
}

/// What a host on `backend` can do with frames of `kind`.
///
/// Nothing without a backend; otherwise GL framebuffers, and the frames that
/// are at home on the backend, as far as their import exists.
pub open spec fn status_on(backend: InteropBackend, kind: NativeFrameKind) -> CapabilityStatus {
    if backend is Unknown {
        CapabilityStatus::Unsupported(UnsupportedReason::HostBackendUnavailable)
    } else if kind is GlFramebufferSource {
        CapabilityStatus::Supported
    } else if home_backend(kind) != Some(backend) {
        CapabilityStatus::Unsupported(UnsupportedReason::HostBackendMismatch)
    } else if kind is VulkanExternalImage {
        CapabilityStatus::Unsupported(UnsupportedReason::NativeImportNotYetImplemented)
    } else {
        CapabilityStatus::Supported
    }
}

impl CapabilityMatrix {
    /// The entry for frames of `kind`.
    pub open spec fn status(self, kind: NativeFrameKind) -> CapabilityStatus {
        match kind {
            NativeFrameKind::GlFramebufferSource => self.gl_framebuffer_source,
            NativeFrameKind::VulkanExternalImage => self.vulkan_external_image,
            NativeFrameKind::MetalTextureRef => self.metal_texture_ref,
            NativeFrameKind::Dx12SharedTexture => self.dx12_shared_texture,
        }
    }

    /// What a host on `host_backend` can import.
    pub fn for_backend(host_backend: InteropBackend) -> (r: Self)
        ensures
            r.host_backend == host_backend,
            forall|kind: NativeFrameKind| #[trigger]
                r.status(kind) == status_on(host_backend, kind),
            r.gl_framebuffer_source == status_on(
                host_backend,
                NativeFrameKind::GlFramebufferSource,
            ),
            r.vulkan_external_image == status_on(
                host_backend,
                NativeFrameKind::VulkanExternalImage,
            ),
            r.metal_texture_ref == status_on(host_backend, NativeFrameKind::MetalTextureRef),
            r.dx12_shared_texture == status_on(host_backend, NativeFrameKind::Dx12SharedTexture),
    {
        let gl_framebuffer_source = match host_backend {
            InteropBackend::Vulkan | InteropBackend::Metal | InteropBackend::Dx12 => {
                CapabilityStatus::Supported
            },
            InteropBackend::Unknown => {
                CapabilityStatus::Unsupported(UnsupportedReason::HostBackendUnavailable)
            },
        };

        let vulkan_external_image = match host_backend {
            InteropBackend::Vulkan => {
                CapabilityStatus::Unsupported(UnsupportedReason::NativeImportNotYetImplemented)
            },
            InteropBackend::Metal | InteropBackend::Dx12 => {
                CapabilityStatus::Unsupported(UnsupportedReason::HostBackendMismatch)
            },
            InteropBackend::Unknown => {
                CapabilityStatus::Unsupported(UnsupportedReason::HostBackendUnavailable)
            },
        };

        let metal_texture_ref = match host_backend {
            InteropBackend::Metal => CapabilityStatus::Supported,
            InteropBackend::Vulkan | InteropBackend::Dx12 => {
                CapabilityStatus::Unsupported(UnsupportedReason::HostBackendMismatch)
            },
            InteropBackend::Unknown => {
                CapabilityStatus::Unsupported(UnsupportedReason::HostBackendUnavailable)
            },
        };

        let dx12_shared_texture = match host_backend {
            InteropBackend::Dx12 => CapabilityStatus::Supported,
            InteropBackend::Vulkan | InteropBackend::Metal => {
                CapabilityStatus::Unsupported(UnsupportedReason::HostBackendMismatch)
            },
            InteropBackend::Unknown => {
                CapabilityStatus::Unsupported(UnsupportedReason::HostBackendUnavailable)
            },
        };

        CapabilityMatrix {
            host_backend,
            gl_framebuffer_source,
            vulkan_external_image,
            metal_texture_ref,
            dx12_shared_texture,
        }
    }
}

/// The set of [`NativeFrameKind`]s a [`FrameProducer`] is able to emit.
#[derive(Clone, Debug, PartialEq, Eq)]
pub struct ProducerCapabilities {
    /// Frame kinds this producer can supply.
    pub supported_frames: Vec<NativeFrameKind>,
}

/// A `wgpu::Device` and `wgpu::Queue` together with the detected backend.
#[derive(Debug)]
pub struct HostWgpuContext {
    /// The wgpu device that will own imported textures.
    pub device: wgpu::Device,
    /// The queue associated with `device`.
    pub queue: wgpu::Queue,
    /// The graphics backend detected on `device` at construction time.
    pub backend: InteropBackend,
}

impl Clone for HostWgpuContext {
    fn clone(&self) -> (r: Self)
        ensures
            r == *self,
    {
        HostWgpuContext {
            device: self.device.clone(),
            queue: self.queue.clone(),
            backend: self.backend,
        }
    }
}

impl HostWgpuContext {
    /// A context for a device on `platform` that answered to `apis`.
    pub fn new(
        device: wgpu::Device,
        queue: wgpu::Queue,
        platform: TargetPlatform,
        apis: HalApis,
    ) -> (r: Self)
        ensures
            r.device == device,
            r.queue == queue,
            r.backend == backend_of(platform, apis),
    {
        HostWgpuContext { device, queue, backend: detect_backend(platform, apis) }
    }

    /// What this host can import.
    pub fn capabilities(&self) -> (r: CapabilityMatrix)
        ensures
            r.host_backend == self.backend,
            forall|kind: NativeFrameKind| #[trigger]
                r.status(kind) == status_on(self.backend, kind),
    {
        CapabilityMatrix::for_backend(self.backend)
    }
}

/// Options that control how [`WgpuTextureImporter`] processes each frame.
#[derive(Clone, Copy, Debug, PartialEq, Eq, Structural)]
pub struct ImportOptions {
    /// If `true`, fall back to a CPU-side copy when the zero-copy path is
    /// unavailable. Currently unused — reserved for future use.
    pub allow_copy_fallback: bool,
    /// If `true` (default), the importer runs a GPU blit/shader pass to
    /// flip the texture to [`TextureOrigin::TopLeft`]. Set to `false` only
    /// if you want the raw GL bottom-left orientation.
    pub normalize_origin: bool,
    /// If `true` (default), the importer converts what it imports so that all
    /// returned textures have a consistent `Rgba8Unorm` format. A converted
    /// texture is a copy: it does not follow later writes of the producer.
    pub normalize_format: bool,
}

impl Default for ImportOptions {
    fn default() -> (r: Self)
        ensures
            !r.allow_copy_fallback,
            r.normalize_origin,
            r.normalize_format,
    {
        ImportOptions { allow_copy_fallback: false, normalize_origin: true, normalize_format: true }
    }
}

/// A successfully imported wgpu texture, ready for use in a render pipeline.
#[derive(Debug)]
pub struct ImportedTexture {
    /// The imported wgpu texture. Bind this as a texture resource in your
    /// render pipeline.
    pub texture: wgpu::Texture,
    /// The pixel format of `texture`. `Rgba8Unorm` when
    /// [`ImportOptions::normalize_format`] is `true` (the default).
    pub format: TextureFormat,
    /// Dimensions of `texture` in physical pixels.
    pub size: PhysicalSize,
    /// Whether row 0 of `texture` is the top or bottom of the image.
    /// [`TextureOrigin::TopLeft`] when [`ImportOptions::normalize_origin`]
    /// is `true` (the default).
    pub origin: TextureOrigin,
    /// Monotonically increasing counter that the producer increments each
    /// time new content is rendered. Use this to skip redundant re-imports.
    pub generation: u64,
    /// The synchronization mechanism the consumer should use after reading
    /// `texture`. Passed to [`InteropSynchronizer::consumer_ready`].
    pub consumer_sync: SyncMechanism,
}

impl ImportedTexture {
    /// Whether this texture is normalized as far as `options` ask for it.
    pub open spec fn is_normalized(&self, options: ImportOptions) -> bool {
        &&& options.normalize_format ==> self.format is Rgba8Unorm
        &&& options.normalize_origin ==> self.origin is TopLeft
    }
}

/// What an importer is told of a GL framebuffer.
#[derive(Clone, Copy, Debug, PartialEq, Eq, Structural)]
pub struct GlFrameInfo {
    pub size: PhysicalSize,
    pub generation: u64,
    pub producer_sync: SyncMechanism,
}

/// Imports the framebuffer that a GL frame stands for, and normalizes it as the
/// options ask.
pub trait GlFramebufferSourceImpl {
    /// Whether `reply` may come of importing `frame` into `host`.
    spec fn may_reply(
        &self,
        frame: GlFrameInfo,
        host: &HostWgpuContext,
        options: &ImportOptions,
        reply: Result<ImportedTexture, InteropError>,
    ) -> bool;

    /// Imports `frame` into a texture of `host`.
    fn import_into(
        &self,
        frame: GlFrameInfo,
        host: &HostWgpuContext,
        options: &ImportOptions,
    ) -> (reply: Result<ImportedTexture, InteropError>)
        ensures
            self.may_reply(frame, host, options, reply),
            reply matches Ok(texture) ==> texture.is_normalized(*options),
    ;
}

/// Holds a value as it is.
struct Held<T> {
    value: T,
}

/// Takes a value over as it is.
fn hold<T>(value: T) -> (r: Held<T>)
    ensures
        r.value == value,
{
    Held { value }
}

/// A GL framebuffer together with the code that imports it.
pub struct GlFramebufferSource {
    info: GlFrameInfo,
    importer: Held<std::rc::Rc<dyn GlFramebufferSourceImpl>>,
}

impl GlFramebufferSource {
    /// What the importer of this frame is told.
    pub closed spec fn spec_info(&self) -> GlFrameInfo {
        self.info
    }

    /// What the importer of this frame is told.
    #[verifier::when_used_as_spec(spec_info)]
    pub fn info(&self) -> (r: GlFrameInfo)
        ensures
            r == self.info(),
    {
        self.info
    }

    /// Whether `reply` may come of importing this frame into `host`.
    pub closed spec fn may_reply(
        &self,
        host: &HostWgpuContext,
        options: &ImportOptions,
        reply: Result<ImportedTexture, InteropError>,
    ) -> bool {
        self.importer.value.may_reply(self.info, host, options, reply)
    }

    pub fn size(&self) -> (r: PhysicalSize)
        ensures
            r == self.info().size,
    {
        self.info.size
    }

    pub fn generation(&self) -> (r: u64)
        ensures
            r == self.info().generation,
    {
        self.info.generation
    }

    pub fn producer_sync(&self) -> (r: SyncMechanism)
        ensures
            r == self.info().producer_sync,
    {
        self.info.producer_sync
    }

    pub fn new(
        size: PhysicalSize,
        generation: u64,
        producer_sync: SyncMechanism,
        importer: std::rc::Rc<dyn GlFramebufferSourceImpl>,
    ) -> (r: Self)
        ensures
            r.info() == (GlFrameInfo { size, generation, producer_sync }),
            forall|
                host: &HostWgpuContext,
                options: &ImportOptions,
                reply: Result<ImportedTexture, InteropError>,
            | #[trigger]
                r.may_reply(host, options, reply) == importer.may_reply(
                    r.info(),
                    host,
                    options,
                    reply,
                ),
    {
        let held = hold(importer);
        GlFramebufferSource {
            info: GlFrameInfo { size, generation, producer_sync },
            importer: held,
        }
    }
}

/// Metadata for a Vulkan external image frame. **Import not yet implemented.**
#[derive(Clone, Copy, Debug, PartialEq, Eq, Structural)]
pub struct VulkanExternalImage {
    pub size: PhysicalSize,
    pub format: TextureFormat,
    pub generation: u64,
    pub producer_sync: SyncMechanism,
}

/// A frame backed by a `MTLTexture` from a Metal producer.
///
/// The producer is responsible for ensuring the texture remains valid for the
/// duration of the import. Ownership is **not** transferred: the caller's
/// reference is neither taken over nor released.
#[derive(Clone, Copy, Debug, PartialEq, Eq, Structural)]
pub struct MetalTextureRef {
    pub size: PhysicalSize,
    pub format: TextureFormat,
    pub generation: u64,
    pub producer_sync: SyncMechanism,
    /// Address of the `MTLTexture`; zero is null.
    pub raw_metal_texture: u64,
}

/// A frame backed by a D3D12 resource shared via a DXGI NT handle.
///
/// The importer opens its own D3D12 reference; **you are responsible for
/// closing your copy** of the handle after the import.
#[derive(Clone, Copy, Debug, PartialEq, Eq, Structural)]
pub struct Dx12SharedTexture {
    pub size: PhysicalSize,
    pub format: TextureFormat,
    pub generation: u64,
    pub producer_sync: SyncMechanism,
    /// The NT handle; zero is null.
    pub handle: u64,
}

/// A frame produced by a [`FrameProducer`], ready to be imported.
#[non_exhaustive]
pub enum NativeFrame {
    /// A GL framebuffer — the primary path.
    GlFramebufferSource(GlFramebufferSource),
    /// A Vulkan external image. Not yet implemented — the import returns
    /// [`UnsupportedReason::NativeImportNotYetImplemented`].
    VulkanExternalImage(VulkanExternalImage),
    /// A Metal texture reference.
    MetalTextureRef(MetalTextureRef),
    /// A D3D12 shared texture.
    Dx12SharedTexture(Dx12SharedTexture),
}

impl NativeFrame {
    /// Which variant this is.
    pub open spec fn spec_kind(&self) -> NativeFrameKind {
        match self {
            NativeFrame::GlFramebufferSource(_) => NativeFrameKind::GlFramebufferSource,
            NativeFrame::VulkanExternalImage(_) => NativeFrameKind::VulkanExternalImage,
            NativeFrame::MetalTextureRef(_) => NativeFrameKind::MetalTextureRef,
            NativeFrame::Dx12SharedTexture(_) => NativeFrameKind::Dx12SharedTexture,
        }
    }

    /// Which variant this is.
    #[verifier::when_used_as_spec(spec_kind)]
    pub fn kind(&self) -> (r: NativeFrameKind)
        ensures
            r == self.kind(),
    {
        match self {
            NativeFrame::GlFramebufferSource(_) => NativeFrameKind::GlFramebufferSource,
            NativeFrame::VulkanExternalImage(_) => NativeFrameKind::VulkanExternalImage,
            NativeFrame::MetalTextureRef(_) => NativeFrameKind::MetalTextureRef,
            NativeFrame::Dx12SharedTexture(_) => NativeFrameKind::Dx12SharedTexture,
        }
    }

    /// How the producer orders its writes.
    pub open spec fn spec_producer_sync(&self) -> SyncMechanism {
        match self {
            NativeFrame::GlFramebufferSource(frame) => frame.info().producer_sync,
            NativeFrame::VulkanExternalImage(frame) => frame.producer_sync,
            NativeFrame::MetalTextureRef(frame) => frame.producer_sync,
            NativeFrame::Dx12SharedTexture(frame) => frame.producer_sync,
        }
    }

    /// How the producer orders its writes.
    #[verifier::when_used_as_spec(spec_producer_sync)]
    pub fn producer_sync(&self) -> (r: SyncMechanism)
        ensures
            r == self.producer_sync(),
    {
        match self {
            NativeFrame::GlFramebufferSource(frame) => frame.producer_sync(),
            NativeFrame::VulkanExternalImage(frame) => frame.producer_sync,
            NativeFrame::MetalTextureRef(frame) => frame.producer_sync,
            NativeFrame::Dx12SharedTexture(frame) => frame.producer_sync,
        }
    }
}

/// Produces [`NativeFrame`]s for a [`TextureImporter`] to consume.
pub trait FrameProducer {
    /// Returns what frame kinds this producer can emit.
    fn capabilities(&self) -> ProducerCapabilities;

    /// Acquire the next frame from the producer. The returned [`NativeFrame`]
    /// should be passed immediately to [`TextureImporter::import_frame`].
    fn acquire_frame(&mut self) -> Result<NativeFrame, InteropError>;
}

/// A request to wrap a raw GPU resource as a texture of the host device.
#[derive(Clone, Copy, Debug)]
pub struct HalTextureRequest {
    /// The API that the resource belongs to.
    pub api: InteropBackend,
    /// The address of the resource, or its shared handle.
    pub raw: u64,
    /// The texture that the resource is opened as.
    pub shape: TextureShape,
    /// How the frame is imported.
    pub options: ImportOptions,
    /// The generation of the frame that the resource holds.
    pub generation: u64,
    /// How the frame's producer orders its writes.
    pub producer_sync: SyncMechanism,
}

impl HalTextureRequest {
    /// The format of the texture that is handed out.
    pub open spec fn spec_output_format(self) -> TextureFormat {
        if self.options.normalize_format {
            TextureFormat::Rgba8Unorm
        } else {
            self.shape.format
        }
    }

    /// The format of the texture that is handed out.
    #[verifier::when_used_as_spec(spec_output_format)]
    pub fn output_format(self) -> (r: TextureFormat)
        ensures
            r == self.output_format(),
    {
        if self.options.normalize_format {
            TextureFormat::Rgba8Unorm
        } else {
            self.shape.format
        }
    }

    /// The format that the opened texture has to be converted to, where it has
    /// another one.
    pub fn conversion(self) -> (r: Option<TextureFormat>)
        ensures
            r == (if self.shape.format == self.output_format() {
                None
            } else {
                Some(self.output_format())
            }),
    {
        if !self.options.normalize_format || matches!(self.shape.format, TextureFormat::Rgba8Unorm) {
            None
        } else {
            Some(TextureFormat::Rgba8Unorm)
        }
    }
}

/// What became of a [`HalTextureRequest`].
#[derive(Debug)]
pub enum OpenedTexture {
    /// The resource is now a texture of the host device, converted to the format
    /// of [`HalTextureRequest::conversion`] where that names one.
    Texture(wgpu::Texture),
    /// The Metal texture could not be retained.
    RetainFailed,
    /// The device has no Direct3D 12 handle.
    DeviceMismatch,
    /// Opening the shared handle failed, for the given cause.
    OpenRejected(String),
    /// Opening the shared handle gave no resource.
    NullResource,
    /// The opened texture could not be converted, for the given cause.
    ConversionFailed(String),
}

/// How far an import has come.
#[derive(Debug)]
pub enum ImportProgress {
    /// The import is over.
    Finished(Result<ImportedTexture, InteropError>),
    /// The host must open this resource and hand the outcome to
    /// [`TextureImporter::resume_import`].
    Open(HalTextureRequest),
}

/// Imports a [`NativeFrame`] into a `wgpu::Texture`.
pub trait TextureImporter {
    /// Import `frame` into a texture of the host device.
    ///
    /// Ends in [`InteropError::Unsupported`] if a Vulkan, Metal or D3D12 frame is
    /// not supported on the current platform and backend. A GL framebuffer is
    /// left to its own code on every host. Check
    /// [`HostWgpuContext::capabilities`] first to get a descriptive error.
    fn import_frame(
        &self,
        frame: &NativeFrame,
        options: &ImportOptions,
        platform: TargetPlatform,
    ) -> ImportProgress;

    /// Finish an import whose resource the host has been asked to open.
    fn resume_import(&self, request: HalTextureRequest, opened: OpenedTexture) -> Result<
        ImportedTexture,
        InteropError,
    >;
}

/// A texture that is sampled from and copied out of.
pub open spec fn import_usage() -> TextureUsage {
    TextureUsage { texture_binding: true, copy_src: true, copy_dst: false }
}

/// What the import of a Metal frame asks for, or why it fails at once.
pub open spec fn metal_request(
    frame: MetalTextureRef,
    backend: InteropBackend,
    options: ImportOptions,
    platform: TargetPlatform,
) -> Result<HalTextureRequest, InteropError> {
    if !platform.is_apple() {
        Err(InteropError::Unsupported(UnsupportedReason::HostBackendMismatch))
    } else if frame.raw_metal_texture == 0 {
        Err(InteropError::InvalidFrame("raw_metal_texture is null"))
    } else if !(backend is Metal) {
        Err(InteropError::BackendMismatch { expected: "Metal", actual: "non-Metal" })
    } else {
        Ok(
            HalTextureRequest {
                api: InteropBackend::Metal,
                raw: frame.raw_metal_texture,
                shape: TextureShape::plain(
                    "metal-texture-ref-import",
                    frame.size,
                    frame.format,
                    import_usage(),
                ),
                options,
                generation: frame.generation,
                producer_sync: frame.producer_sync,
            },
        )
    }
}

/// What the import of a D3D12 frame asks for, or why it fails at once.
pub open spec fn dx12_request(
    frame: Dx12SharedTexture,
    backend: InteropBackend,
    options: ImportOptions,
    platform: TargetPlatform,
) -> Result<HalTextureRequest, InteropError> {
    if !(platform is Windows) {
        Err(InteropError::Unsupported(UnsupportedReason::HostBackendMismatch))
    } else if !(backend is Dx12) {
        Err(InteropError::BackendMismatch { expected: "Dx12", actual: "non-Dx12" })
    } else {
        Ok(
            HalTextureRequest {
                api: InteropBackend::Dx12,
                raw: frame.handle,
                shape: TextureShape::plain(
                    "dx12-shared-texture-import",
                    frame.size,
                    frame.format,
                    import_usage(),
                ),
                options,
                generation: frame.generation,
                producer_sync: frame.producer_sync,
            },
        )
    }
}

/// What the import of a Metal frame asks for, or why it fails at once.
pub fn import_metal_texture_ref(
    frame: &MetalTextureRef,
    backend: InteropBackend,
    options: &ImportOptions,
    platform: TargetPlatform,
) -> (r: Result<HalTextureRequest, InteropError>)
    ensures
        r == metal_request(*frame, backend, *options, platform),
{
    if !platform.is_apple() {
        return Err(InteropError::Unsupported(UnsupportedReason::HostBackendMismatch));
    }
    if frame.raw_metal_texture == 0 {
        return Err(InteropError::InvalidFrame("raw_metal_texture is null"));
    }
    if !matches!(backend, InteropBackend::Metal) {
        return Err(InteropError::BackendMismatch { expected: "Metal", actual: "non-Metal" });
    }
    Ok(
        HalTextureRequest {
            api: InteropBackend::Metal,
            raw: frame.raw_metal_texture,
            shape: TextureShape::plain(
                "metal-texture-ref-import",
                frame.size,
                frame.format,
                TextureUsage { texture_binding: true, copy_src: true, copy_dst: false },
            ),
            options: *options,
            generation: frame.generation,
            producer_sync: frame.producer_sync,
        },
    )
}

/// What the import of a D3D12 frame asks for, or why it fails at once.
pub fn import_dx12_shared_texture(
    frame: &Dx12SharedTexture,
    backend: InteropBackend,
    options: &ImportOptions,
    platform: TargetPlatform,
) -> (r: Result<HalTextureRequest, InteropError>)
    ensures
        r == dx12_request(*frame, backend, *options, platform),
{
    if !matches!(platform, TargetPlatform::Windows) {
        return Err(InteropError::Unsupported(UnsupportedReason::HostBackendMismatch));
    }
    if !matches!(backend, InteropBackend::Dx12) {
        return Err(InteropError::BackendMismatch { expected: "Dx12", actual: "non-Dx12" });
    }
    Ok(
        HalTextureRequest {
            api: InteropBackend::Dx12,
            raw: frame.handle,
            shape: TextureShape::plain(
                "dx12-shared-texture-import",
                frame.size,
                frame.format,
                TextureUsage { texture_binding: true, copy_src: true, copy_dst: false },
            ),
            options: *options,
            generation: frame.generation,
            producer_sync: frame.producer_sync,
        },
    )
}

/// The texture that an opened resource becomes: the frame's own data in the format
/// that was asked for, with row 0 on top.
pub open spec fn opened_texture(
    request: HalTextureRequest,
    texture: wgpu::Texture,
) -> ImportedTexture {
    ImportedTexture {
        texture,
        format: request.output_format(),
        size: request.shape.size,
        origin: TextureOrigin::TopLeft,
        generation: request.generation,
        consumer_sync: request.producer_sync,
    }
}

/// Whether `error` is what a failure to open the resource of `request` is reported
/// as.
pub open spec fn reports_open_failure(
    request: HalTextureRequest,
    opened: OpenedTexture,
    error: InteropError,
) -> bool {
    match opened {
        OpenedTexture::Texture(_) => false,
        OpenedTexture::RetainFailed => error matches InteropError::Metal(cause) && cause@
            == "failed to retain Metal texture"@,
        OpenedTexture::DeviceMismatch => error == (InteropError::BackendMismatch {
            expected: "Dx12",
            actual: "non-Dx12",
        }),
        OpenedTexture::OpenRejected(why) => error matches InteropError::Dx12(cause) && cause@
            == why@,
        OpenedTexture::NullResource => error matches InteropError::Dx12(cause) && cause@
            == "OpenSharedHandle returned null"@,
        OpenedTexture::ConversionFailed(why) => if request.api is Metal {
            error matches InteropError::Metal(cause) && cause@ == why@
        } else {
            error matches InteropError::Dx12(cause) && cause@ == why@
        },
    }
}

/// The main entry point for importing frames into wgpu textures.
///
/// Create one per wgpu device and reuse it across frames.
pub struct WgpuTextureImporter {
    host: HostWgpuContext,
    synchronizer: Box<dyn InteropSynchronizer>,
}

impl WgpuTextureImporter {
    /// Whether `reply` may be the synchronizer's answer before `frame` is
    /// imported.
    pub closed spec fn may_complete(
        &self,
        frame: &NativeFrame,
        reply: Result<(), InteropError>,
    ) -> bool {
        self.synchronizer.may_complete(frame, frame.producer_sync(), reply)
    }

    /// Whether `reply` may be the synchronizer's answer once `texture` has been
    /// imported.
    pub closed spec fn may_ready(
        &self,
        texture: &ImportedTexture,
        reply: Result<(), InteropError>,
    ) -> bool {
        self.synchronizer.may_ready(texture, texture.consumer_sync, reply)
    }

    /// Whether the synchronizer accepts implicit mechanisms and rejects all others,
    /// before an import and after it.
    pub open spec fn takes_implicit_only(&self) -> bool {
        &&& forall|frame: &NativeFrame, reply: Result<(), InteropError>| #[trigger]
            self.may_complete(frame, reply) <==> crate::sync::implicit_only(
                frame.producer_sync(),
                reply,
            )
        &&& forall|texture: &ImportedTexture, reply: Result<(), InteropError>| #[trigger]
            self.may_ready(texture, reply) <==> crate::sync::implicit_only(
                texture.consumer_sync,
                reply,
            )
    }

    /// The underlying [`HostWgpuContext`].
    pub closed spec fn spec_host(&self) -> &HostWgpuContext {
        &self.host
    }

    /// Create a new importer with the default [`ImplicitOnlySynchronizer`].
    pub fn new(host: HostWgpuContext) -> (r: Self)
        ensures
            *r.spec_host() == host,
            r.takes_implicit_only(),
    {
        WgpuTextureImporter { host, synchronizer: Box::new(ImplicitOnlySynchronizer) }
    }

    /// Create a new importer with a custom [`InteropSynchronizer`].
    pub fn with_synchronizer(
        host: HostWgpuContext,
        synchronizer: Box<dyn InteropSynchronizer>,
    ) -> (r: Self)
        ensures
            *r.spec_host() == host,
            forall|frame: &NativeFrame, reply: Result<(), InteropError>| #[trigger]
                r.may_complete(frame, reply) == synchronizer.may_complete(
                    frame,
                    frame.producer_sync(),
                    reply,
                ),
            forall|texture: &ImportedTexture, reply: Result<(), InteropError>| #[trigger]
                r.may_ready(texture, reply) == synchronizer.may_ready(
                    texture,
                    texture.consumer_sync,
                    reply,
                ),
    {
        let mut importer = WgpuTextureImporter::new(host);
        let mut chosen = synchronizer;
        std::mem::swap(&mut importer.synchronizer, &mut chosen);
        importer
    }

    /// Returns the underlying [`HostWgpuContext`].
    pub fn host(&self) -> (r: &HostWgpuContext)
        ensures
            r == self.spec_host(),
    {
        &self.host
    }

    /// What the import of an accepted frame comes to, where the frame's own
    /// code has no say in it. A Metal or D3D12 frame off its platform is a
    /// mismatch, and one that the host's capabilities do not support ends in their
    /// reason.
    pub open spec fn route(
        &self,
        frame: &NativeFrame,
        options: &ImportOptions,
        platform: TargetPlatform,
    ) -> ImportProgress {
        let backend = self.spec_host().backend;
        let request = match frame {
            NativeFrame::MetalTextureRef(f) => metal_request(*f, backend, *options, platform),
            NativeFrame::Dx12SharedTexture(f) => dx12_request(*f, backend, *options, platform),
            _ => Err(InteropError::Unsupported(UnsupportedReason::NativeImportNotYetImplemented)),
        };
        let native = frame is MetalTextureRef || frame is Dx12SharedTexture;
        match (status_on(backend, frame.kind()), request) {
            _ if !kind_exists_on(frame.kind(), platform) => ImportProgress::Finished(
                Err(InteropError::Unsupported(UnsupportedReason::HostBackendMismatch)),
            ),
            (CapabilityStatus::Unsupported(reason), _) if native => ImportProgress::Finished(
                Err(InteropError::Unsupported(reason)),
            ),
            (_, Ok(request)) => ImportProgress::Open(request),
            (_, Err(error)) => ImportProgress::Finished(Err(error)),
        }
    }

    /// Whether an import that came as far as `imported` may end in `result`: an
    /// error stays, and a texture is handed out unchanged or, where the
    /// synchronizer answers with an error, given up for that error.
    pub open spec fn ends_import(
        &self,
        imported: Result<ImportedTexture, InteropError>,
        result: Result<ImportedTexture, InteropError>,
    ) -> bool {
        match imported {
            Err(_) => result == imported,
            Ok(texture) => exists|reply: Result<(), InteropError>| #[trigger]
                self.may_ready(&texture, reply) && result == (match reply {
                    Err(error) => Err(error),
                    Ok(_) => imported,
                }),
        }
    }

    /// Whether an import of `frame` may come to `progress` after the synchronizer
    /// has answered `reply`: an error ends it at once, and otherwise the frame's
    /// kind decides. A GL framebuffer comes to what its own code replies.
    pub open spec fn continues(
        &self,
        frame: &NativeFrame,
        options: &ImportOptions,
        platform: TargetPlatform,
        reply: Result<(), InteropError>,
        progress: ImportProgress,
    ) -> bool {
        match reply {
            Err(error) => progress == ImportProgress::Finished(Err(error)),
            Ok(_) => match frame {
                NativeFrame::GlFramebufferSource(source) => {
                    &&& progress matches ImportProgress::Finished(result)
                    &&& exists|imported: Result<ImportedTexture, InteropError>| #[trigger]
                        source.may_reply(self.spec_host(), options, imported)
                            && self.ends_import(imported, result)
                },
                _ => progress == self.route(frame, options, platform),
            },
        }
    }

    /// Whether an import of `frame` may come to `progress`: the synchronizer
    /// answers first, and its answer is followed. What is handed out or asked for
    /// is normalized as `options` say.
    pub open spec fn may_import(
        &self,
        frame: &NativeFrame,
        options: &ImportOptions,
        platform: TargetPlatform,
        progress: ImportProgress,
    ) -> bool {
        &&& exists|reply: Result<(), InteropError>| #[trigger]
            self.may_complete(frame, reply) && self.continues(
                frame,
                options,
                platform,
                reply,
                progress,
            )
        &&& progress matches ImportProgress::Finished(Ok(texture)) ==> texture.is_normalized(
            *options,
        )
        &&& progress matches ImportProgress::Open(request) ==> request.options == *options
    }

    /// Whether an import that asked for `request` may end in `result`, when
    /// `opened` came of it. What is handed out is normalized as the request says,
    /// and keeps the opened format where it does not ask for another.
    pub open spec fn may_resume(
        &self,
        request: HalTextureRequest,
        opened: OpenedTexture,
        result: Result<ImportedTexture, InteropError>,
    ) -> bool {
        &&& match opened {
            OpenedTexture::Texture(texture) => self.ends_import(
                Ok(opened_texture(request, texture)),
                result,
            ),
            _ => result matches Err(error) && reports_open_failure(request, opened, error),
        }
        &&& result matches Ok(texture) ==> {
            &&& texture.is_normalized(request.options)
            &&& !request.options.normalize_format ==> texture.format == request.shape.format
        }
    }

    /// Hand out an imported texture once the synchronizer has accepted the
    /// mechanism that the consumer is to use.
    pub fn finish_import(&self, imported: Result<ImportedTexture, InteropError>) -> (r: Result<
        ImportedTexture,
        InteropError,
    >)
        ensures
            self.ends_import(imported, r),
    {
        match imported {
            Err(error) => Err(error),
            Ok(texture) => {
                let reply = self.synchronizer.consumer_ready(&texture, texture.consumer_sync);
                assert(self.may_ready(&texture, reply));
                match reply {
                    Err(error) => Err(error),
                    Ok(()) => Ok(texture),
                }
            },
        }
    }
}

impl TextureImporter for WgpuTextureImporter {
    /// Import `frame` into a texture of the host device.
    ///
    /// A frame is looked at only after the synchronizer has accepted its
    /// mechanism. A GL framebuffer is imported by its own code; a Metal or
    /// D3D12 frame that the host supports comes back as a request to open its
    /// resource.
    fn import_frame(
        &self,
        frame: &NativeFrame,
        options: &ImportOptions,
        platform: TargetPlatform,
    ) -> (r: ImportProgress)
        ensures
            self.may_import(frame, options, platform, r),
    {
        let reply = self.synchronizer.producer_complete(frame, frame.producer_sync());
        assert(self.may_complete(frame, reply));
        match reply {
            Err(error) => return ImportProgress::Finished(Err(error)),
            Ok(()) => {},
        }
        let capabilities = self.host.capabilities();
        match frame {
            NativeFrame::GlFramebufferSource(source) => {
                let imported = source.importer.value.import_into(source.info, &self.host, options);
                assert(source.may_reply(self.spec_host(), options, imported));
                ImportProgress::Finished(self.finish_import(imported))
            },
            NativeFrame::VulkanExternalImage(_) => ImportProgress::Finished(
                Err(InteropError::Unsupported(UnsupportedReason::NativeImportNotYetImplemented)),
            ),
            NativeFrame::MetalTextureRef(f) => {
                assert(capabilities.status(frame.kind()) == capabilities.metal_texture_ref);
                if let (true, CapabilityStatus::Unsupported(reason)) = (
                    platform.is_apple(),
                    capabilities.metal_texture_ref,
                ) {
                    return ImportProgress::Finished(Err(InteropError::Unsupported(reason)));
                }
                match import_metal_texture_ref(f, self.host.backend, options, platform) {
                    Ok(request) => ImportProgress::Open(request),
                    Err(error) => ImportProgress::Finished(Err(error)),
                }
            },
            NativeFrame::Dx12SharedTexture(f) => {
                assert(capabilities.status(frame.kind()) == capabilities.dx12_shared_texture);
                if let (TargetPlatform::Windows, CapabilityStatus::Unsupported(reason)) = (
                    platform,
                    capabilities.dx12_shared_texture,
                ) {
                    return ImportProgress::Finished(Err(InteropError::Unsupported(reason)));
                }
                match import_dx12_shared_texture(f, self.host.backend, options, platform) {
                    Ok(request) => ImportProgress::Open(request),
                    Err(error) => ImportProgress::Finished(Err(error)),
                }
            },
        }
    }

    /// Finish the import of a Metal or D3D12 frame once its resource has been
    /// asked for.
    fn resume_import(&self, request: HalTextureRequest, opened: OpenedTexture) -> (r: Result<
        ImportedTexture,
        InteropError,
    >)
        ensures
            self.may_resume(request, opened, r),
    {
        match opened {
            OpenedTexture::Texture(texture) => self.finish_import(
                Ok(
                    ImportedTexture {
                        texture,
                        format: request.output_format(),
                        size: request.shape.size,
                        origin: TextureOrigin::TopLeft,
                        generation: request.generation,
                        consumer_sync: request.producer_sync,
                    },
                ),
            ),
            OpenedTexture::RetainFailed => Err(
                InteropError::Metal("failed to retain Metal texture".to_owned()),
            ),
            OpenedTexture::DeviceMismatch => Err(
                InteropError::BackendMismatch { expected: "Dx12", actual: "non-Dx12" },
            ),
            OpenedTexture::OpenRejected(why) => Err(InteropError::Dx12(why)),
            OpenedTexture::NullResource => Err(
                InteropError::Dx12("OpenSharedHandle returned null".to_owned()),
            ),
            OpenedTexture::ConversionFailed(why) => {
                if matches!(request.api, InteropBackend::Metal) {
                    Err(InteropError::Metal(why))
                } else {
                    Err(InteropError::Dx12(why))
                }
            },
        }
    }
}

/// A backend is detected only on a platform where it can exist, and only on a
/// device that answered to its API.
pub proof fn detected_backend_exists(platform: TargetPlatform, apis: HalApis)
    ensures
        backend_of(platform, apis) is Vulkan ==> platform.has_vulkan() && apis.vulkan,
        backend_of(platform, apis) is Metal ==> platform.is_apple() && apis.metal,
        backend_of(platform, apis) is Dx12 ==> platform is Windows && apis.dx12,
{
}

/// Without a backend no frame kind is supported, and with any backend GL
/// framebuffers are.
pub proof fn gl_frames_need_only_a_backend(backend: InteropBackend)
    ensures
        status_on(backend, NativeFrameKind::GlFramebufferSource) is Supported <==> !(
        backend is Unknown),
        backend is Unknown ==> forall|kind: NativeFrameKind| #[trigger]
            status_on(backend, kind) == CapabilityStatus::Unsupported(
                UnsupportedReason::HostBackendUnavailable,
            ),
{
}

/// The capability report is honest about Metal frames: on a host whose backend
/// was detected, an accepted frame with a texture is opened exactly where the
/// report says that its kind is supported.
pub proof fn metal_import_matches_capabilities(
    importer: &WgpuTextureImporter,
    frame: MetalTextureRef,
    options: &ImportOptions,
    platform: TargetPlatform,
    apis: HalApis,
)
    requires
        frame.raw_metal_texture != 0,
        importer.spec_host().backend == backend_of(platform, apis),
    ensures
        importer.route(&NativeFrame::MetalTextureRef(frame), options, platform) is Open
            <==> status_on(backend_of(platform, apis), NativeFrameKind::MetalTextureRef)
            is Supported,
{
}

/// The capability report is honest about D3D12 frames: on a host whose backend
/// was detected, an accepted frame is opened exactly where the report says that
/// its kind is supported.
pub proof fn dx12_import_matches_capabilities(
    importer: &WgpuTextureImporter,
    frame: Dx12SharedTexture,
    options: &ImportOptions,
    platform: TargetPlatform,
    apis: HalApis,
)
    requires
        importer.spec_host().backend == backend_of(platform, apis),
    ensures
        importer.route(&NativeFrame::Dx12SharedTexture(frame), options, platform) is Open
            <==> status_on(backend_of(platform, apis), NativeFrameKind::Dx12SharedTexture)
            is Supported,
{
}

/// An accepted Metal or D3D12 frame that the host's capabilities do not support
/// ends in [`InteropError::Unsupported`]: off its platform as a mismatch, and
/// elsewhere with the reason that they give.
pub proof fn unsupported_kind_is_reported(
    importer: &WgpuTextureImporter,
    frame: &NativeFrame,
    options: &ImportOptions,
    platform: TargetPlatform,
    reason: UnsupportedReason,
    progress: ImportProgress,
)
    requires
        frame is MetalTextureRef || frame is Dx12SharedTexture,
        status_on(importer.spec_host().backend, frame.kind()) == CapabilityStatus::Unsupported(
            reason,
        ),
        forall|reply: Result<(), InteropError>| #[trigger]
            importer.may_complete(frame, reply) ==> reply is Ok,
        importer.may_import(frame, options, platform, progress),
    ensures
        progress == ImportProgress::Finished(
            Err(
                InteropError::Unsupported(
                    if kind_exists_on(frame.kind(), platform) {
                        reason
                    } else {
                        UnsupportedReason::HostBackendMismatch
                    },
                ),
            ),
        ),
{
}

/// Vulkan images are never opened, and no report calls them supported.
pub proof fn vulkan_images_are_never_supported(
    importer: &WgpuTextureImporter,
    frame: VulkanExternalImage,
    options: &ImportOptions,
    platform: TargetPlatform,
    backend: InteropBackend,
)
    ensures
        !(importer.route(&NativeFrame::VulkanExternalImage(frame), options, platform) is Open),
        !(status_on(backend, NativeFrameKind::VulkanExternalImage) is Supported),
{
}

/// Whatever the kind and the format of a frame, the texture that an import with
/// the default options hands out is `Rgba8Unorm` with row 0 on top, whether the
/// import ends at once or after a resource has been opened.
pub proof fn default_import_is_normalized(
    importer: &WgpuTextureImporter,
    frame: &NativeFrame,
    options: &ImportOptions,
    platform: TargetPlatform,
    progress: ImportProgress,
    opened: OpenedTexture,
    result: Result<ImportedTexture, InteropError>,
)
    requires
        options.normalize_format,
        options.normalize_origin,
        importer.may_import(frame, options, platform, progress),
        match progress {
            ImportProgress::Finished(end) => result == end,
            ImportProgress::Open(request) => importer.may_resume(request, opened, result),
        },
    ensures
        result matches Ok(texture) ==> texture.format is Rgba8Unorm && texture.origin is TopLeft,
{
}

/// A native frame survives its import: where the synchronizer accepts the imported
/// texture and the resource could be opened, the texture is handed out with the
/// frame's size and generation, row 0 on top, the frame's mechanism for the
/// consumer, and the frame's own format unless it was to be normalized.
pub proof fn imported_texture_keeps_frame_data(
    importer: &WgpuTextureImporter,
    frame: &NativeFrame,
    options: &ImportOptions,
    platform: TargetPlatform,
    request: HalTextureRequest,
    texture: wgpu::Texture,
    result: Result<ImportedTexture, InteropError>,
)
    requires
        forall|reply: Result<(), InteropError>| #[trigger]
            importer.may_ready(&opened_texture(request, texture), reply) ==> reply is Ok,
        importer.may_import(frame, options, platform, ImportProgress::Open(request)),
        importer.may_resume(request, OpenedTexture::Texture(texture), result),
    ensures
        result matches Ok(imported) && {
            &&& imported.texture == texture
            &&& imported.origin is TopLeft
            &&& imported.consumer_sync == frame.producer_sync()
            &&& match frame {
                NativeFrame::MetalTextureRef(metal) => {
                    &&& request.raw == metal.raw_metal_texture
                    &&& imported.format == (if options.normalize_format {
                        TextureFormat::Rgba8Unorm
                    } else {
                        metal.format
                    })
                    &&& imported.size == metal.size
                    &&& imported.generation == metal.generation
                },
                NativeFrame::Dx12SharedTexture(dx12) => {
                    &&& request.raw == dx12.handle
                    &&& imported.format == (if options.normalize_format {
                        TextureFormat::Rgba8Unorm
                    } else {
                        dx12.format
                    })
                    &&& imported.size == dx12.size
                    &&& imported.generation == dx12.generation
                },
                _ => false,
            }
        },
{
}

/// A refusal of the synchronizer before an import ends it: where it can only
/// answer with `error`, nothing is imported, whatever the frame's kind.
pub proof fn refused_frame_is_not_imported(
    importer: &WgpuTextureImporter,
    frame: &NativeFrame,
    options: &ImportOptions,
    platform: TargetPlatform,
    error: InteropError,
    progress: ImportProgress,
)
    requires
        forall|reply: Result<(), InteropError>| #[trigger]
            importer.may_complete(frame, reply) ==> reply == Err::<(), InteropError>(error),
        importer.may_import(frame, options, platform, progress),
    ensures
        progress == ImportProgress::Finished(Err(error)),
{
}

/// A refusal of the synchronizer after an import withholds the texture: where it
/// can only answer with `error`, the import ends in that error.
pub proof fn refused_texture_is_withheld(
    importer: &WgpuTextureImporter,
    texture: ImportedTexture,
    error: InteropError,
    result: Result<ImportedTexture, InteropError>,
)
    requires
        forall|reply: Result<(), InteropError>| #[trigger]
            importer.may_ready(&texture, reply) ==> reply == Err::<(), InteropError>(error),
        importer.ends_import(Ok(texture), result),
    ensures
        result == Err::<ImportedTexture, InteropError>(error),
{
}

/// A backend is found wherever it is there: on an Apple platform a device that
/// answers to Metal runs on Metal, whatever else it answers to; on Linux, Android and
/// Windows one that answers to Vulkan runs on Vulkan; on Windows one that answers to
/// Direct3D 12 alone runs on that. The backend is unknown only where none of these
/// holds.
pub proof fn present_backend_is_detected(
    platform: TargetPlatform,
    apis: HalApis,
    backend: InteropBackend,
)
    requires
        call_ensures(detect_backend, (platform, apis), backend),
    ensures
        (platform is MacOs || platform is OtherApple) && apis.metal ==> backend
            == InteropBackend::Metal,
        (platform is Linux || platform is Android || platform is Windows) && apis.vulkan ==> backend
            == InteropBackend::Vulkan,
        platform is Windows && apis.dx12 && !apis.vulkan ==> backend == InteropBackend::Dx12,
        backend == InteropBackend::Metal ==> apis.metal && (platform is MacOs
            || platform is OtherApple),
        backend == InteropBackend::Vulkan ==> apis.vulkan && (platform is Linux
            || platform is Android || platform is Windows),
        backend == InteropBackend::Dx12 ==> apis.dx12 && !apis.vulkan && platform is Windows,
        !apis.vulkan && !apis.metal && !apis.dx12 ==> backend == InteropBackend::Unknown,
        platform is Other ==> backend == InteropBackend::Unknown,
{
}

/// A host context has the backend of its device and nothing is exchanged: two devices
/// that answer alike on the same platform have the same backend.
pub proof fn context_has_the_backend_of_its_device(
    device: wgpu::Device,
    queue: wgpu::Queue,
    platform: TargetPlatform,
    apis: HalApis,
    context: HostWgpuContext,
    backend: InteropBackend,
)
    requires
        call_ensures(HostWgpuContext::new, (device, queue, platform, apis), context),
        call_ensures(detect_backend, (platform, apis), backend),
    ensures
        context.device == device,
        context.queue == queue,
        context.backend == backend,
{
}

/// What a host can import is what its backend can read: GL framebuffers on every
/// backend, Metal textures on Metal alone, D3D12 textures on Direct3D 12 alone, Vulkan
/// images nowhere. What it cannot is unavailable without a backend, not implemented
/// for Vulkan images on Vulkan, and a mismatch otherwise.
pub proof fn backend_decides_what_is_imported(
    host: &HostWgpuContext,
    matrix: CapabilityMatrix,
    of_host: CapabilityMatrix,
)
    requires
        call_ensures(CapabilityMatrix::for_backend, (host.backend,), matrix),
        call_ensures(HostWgpuContext::capabilities, (host,), of_host),
    ensures
        matrix.host_backend == host.backend,
        matrix.gl_framebuffer_source is Supported <==> host.backend != InteropBackend::Unknown,
        matrix.metal_texture_ref is Supported <==> host.backend == InteropBackend::Metal,
        matrix.dx12_shared_texture is Supported <==> host.backend == InteropBackend::Dx12,
        !(matrix.vulkan_external_image is Supported),
        host.backend == InteropBackend::Unknown ==> {
            let unavailable = CapabilityStatus::Unsupported(
                UnsupportedReason::HostBackendUnavailable,
            );
            &&& matrix.gl_framebuffer_source == unavailable
            &&& matrix.vulkan_external_image == unavailable
            &&& matrix.metal_texture_ref == unavailable
            &&& matrix.dx12_shared_texture == unavailable
        },
        host.backend == InteropBackend::Vulkan ==> matrix.vulkan_external_image
            == CapabilityStatus::Unsupported(UnsupportedReason::NativeImportNotYetImplemented),
        host.backend == InteropBackend::Metal || host.backend == InteropBackend::Dx12
            ==> matrix.vulkan_external_image == CapabilityStatus::Unsupported(
            UnsupportedReason::HostBackendMismatch,
        ),
        host.backend == InteropBackend::Vulkan || host.backend == InteropBackend::Dx12
            ==> matrix.metal_texture_ref == CapabilityStatus::Unsupported(
            UnsupportedReason::HostBackendMismatch,
        ),
        host.backend == InteropBackend::Vulkan || host.backend == InteropBackend::Metal
            ==> matrix.dx12_shared_texture == CapabilityStatus::Unsupported(
            UnsupportedReason::HostBackendMismatch,
        ),
        of_host == matrix,
{
    assert(of_host.status(NativeFrameKind::GlFramebufferSource) == matrix.status(
        NativeFrameKind::GlFramebufferSource,
    ));
    assert(of_host.status(NativeFrameKind::VulkanExternalImage) == matrix.status(
        NativeFrameKind::VulkanExternalImage,
    ));
    assert(of_host.status(NativeFrameKind::MetalTextureRef) == matrix.status(
        NativeFrameKind::MetalTextureRef,
    ));
    assert(of_host.status(NativeFrameKind::Dx12SharedTexture) == matrix.status(
        NativeFrameKind::Dx12SharedTexture,
    ));
}

/// A Metal texture is opened as what it is: with the frame's own address, size and
/// format, also where the format is to be normalized. So it is converted exactly where
/// that is asked for and the frame is not `Rgba8Unorm` already.
pub proof fn metal_texture_is_opened_as_it_is(
    frame: MetalTextureRef,
    backend: InteropBackend,
    options: ImportOptions,
    platform: TargetPlatform,
    request: HalTextureRequest,
    conversion: Option<TextureFormat>,
    output: TextureFormat,
)
    requires
        call_ensures(
            import_metal_texture_ref,
            (&frame, backend, &options, platform),
            Ok::<HalTextureRequest, InteropError>(request),
        ),
        call_ensures(HalTextureRequest::conversion, (request,), conversion),
        output == request.output_format(),
    ensures
        request.api == InteropBackend::Metal,
        request.raw == frame.raw_metal_texture,
        request.generation == frame.generation,
        request.producer_sync == frame.producer_sync,
        request.options == options,
        request.shape.format == frame.format,
        request.shape.size.width == frame.size.width,
        request.shape.size.height == frame.size.height,
        request.shape.depth_or_array_layers == 1,
        request.shape.mip_level_count == 1,
        request.shape.sample_count == 1,
        request.shape.usage.texture_binding,
        request.shape.usage.copy_src,
        !request.shape.usage.copy_dst,
        conversion is Some <==> options.normalize_format && frame.format
            != TextureFormat::Rgba8Unorm,
        conversion matches Some(target) ==> target == TextureFormat::Rgba8Unorm && target == output,
        conversion is None ==> output == frame.format,
{
}

/// A D3D12 texture is opened as what it is: with the frame's own handle, size and
/// format, also where the format is to be normalized. So it is converted exactly where
/// that is asked for and the frame is not `Rgba8Unorm` already.
pub proof fn dx12_texture_is_opened_as_it_is(
    frame: Dx12SharedTexture,
    backend: InteropBackend,
    options: ImportOptions,
    platform: TargetPlatform,
    request: HalTextureRequest,
    conversion: Option<TextureFormat>,
    output: TextureFormat,
)
    requires
        call_ensures(
            import_dx12_shared_texture,
            (&frame, backend, &options, platform),
            Ok::<HalTextureRequest, InteropError>(request),
        ),
        call_ensures(HalTextureRequest::conversion, (request,), conversion),
        output == request.output_format(),
    ensures
        request.api == InteropBackend::Dx12,
        request.raw == frame.handle,
        request.generation == frame.generation,
        request.producer_sync == frame.producer_sync,
        request.options == options,
        request.shape.format == frame.format,
        request.shape.size.width == frame.size.width,
        request.shape.size.height == frame.size.height,
        request.shape.depth_or_array_layers == 1,
        request.shape.mip_level_count == 1,
        request.shape.sample_count == 1,
        request.shape.usage.texture_binding,
        request.shape.usage.copy_src,
        !request.shape.usage.copy_dst,
        conversion is Some <==> options.normalize_format && frame.format
            != TextureFormat::Rgba8Unorm,
        conversion matches Some(target) ==> target == TextureFormat::Rgba8Unorm && target == output,
        conversion is None ==> output == frame.format,
{
}

/// A Metal frame is asked for exactly if it has a texture and the host runs on Metal
/// on one of Apple's systems; the options have no say in it. What is missing shows in
/// the error.
pub proof fn metal_frame_needs_a_texture_and_metal(
    frame: MetalTextureRef,
    backend: InteropBackend,
    options: ImportOptions,
    platform: TargetPlatform,
    r: Result<HalTextureRequest, InteropError>,
)
    requires
        call_ensures(import_metal_texture_ref, (&frame, backend, &options, platform), r),
    ensures
        r is Ok <==> (platform is MacOs || platform is OtherApple) && frame.raw_metal_texture != 0
            && backend == InteropBackend::Metal,
        !(platform is MacOs || platform is OtherApple) ==> r == Err::<
            HalTextureRequest,
            InteropError,
        >(InteropError::Unsupported(UnsupportedReason::HostBackendMismatch)),
        (platform is MacOs || platform is OtherApple) && frame.raw_metal_texture == 0
            ==> r matches Err(InteropError::InvalidFrame(_)),
        (platform is MacOs || platform is OtherApple) && frame.raw_metal_texture != 0 && backend
            != InteropBackend::Metal ==> (r matches Err(
            InteropError::BackendMismatch { expected, .. },
        ) && expected == InteropBackend::Metal.name()),
{
}

/// A D3D12 frame is asked for exactly if the host runs on Direct3D 12 on Windows; the
/// options have no say in it. What is missing shows in the error.
pub proof fn dx12_frame_needs_direct3d(
    frame: Dx12SharedTexture,
    backend: InteropBackend,
    options: ImportOptions,
    platform: TargetPlatform,
    r: Result<HalTextureRequest, InteropError>,
)
    requires
        call_ensures(import_dx12_shared_texture, (&frame, backend, &options, platform), r),
    ensures
        r is Ok <==> platform is Windows && backend == InteropBackend::Dx12,
        !(platform is Windows) ==> r == Err::<HalTextureRequest, InteropError>(
            InteropError::Unsupported(UnsupportedReason::HostBackendMismatch),
        ),
        platform is Windows && backend != InteropBackend::Dx12 ==> (r matches Err(
            InteropError::BackendMismatch { expected, .. },
        ) && expected == InteropBackend::Dx12.name()),
{
}

/// A frame's kind is its variant, and its mechanism the one that its producer named.
pub proof fn frame_says_what_it_is(
    gl: GlFramebufferSource,
    vulkan: VulkanExternalImage,
    metal: MetalTextureRef,
    dx12: Dx12SharedTexture,
)
    ensures
        NativeFrame::GlFramebufferSource(gl).kind() == NativeFrameKind::GlFramebufferSource,
        NativeFrame::VulkanExternalImage(vulkan).kind() == NativeFrameKind::VulkanExternalImage,
        NativeFrame::MetalTextureRef(metal).kind() == NativeFrameKind::MetalTextureRef,
        NativeFrame::Dx12SharedTexture(dx12).kind() == NativeFrameKind::Dx12SharedTexture,
        NativeFrame::GlFramebufferSource(gl).producer_sync() == gl.info().producer_sync,
        NativeFrame::VulkanExternalImage(vulkan).producer_sync() == vulkan.producer_sync,
        NativeFrame::MetalTextureRef(metal).producer_sync() == metal.producer_sync,
        NativeFrame::Dx12SharedTexture(dx12).producer_sync() == dx12.producer_sync,
{
}

/// The whole way of a native frame with a new importer: a Metal frame on a Metal host
/// and a D3D12 frame on a Direct3D 12 host, with nothing to wait for, are opened with
/// their own format, and become textures of their own size, generation and mechanism,
/// row 0 on top, in `Rgba8Unorm` where that was asked for and in their own format
/// where it was not.
pub proof fn native_frame_becomes_a_texture(
    host: HostWgpuContext,
    importer: &WgpuTextureImporter,
    frame: &NativeFrame,
    options: &ImportOptions,
    platform: TargetPlatform,
    progress: ImportProgress,
    texture: wgpu::Texture,
    result: Result<ImportedTexture, InteropError>,
)
    requires
        call_ensures(WgpuTextureImporter::new, (host,), *importer),
        match frame {
            NativeFrame::MetalTextureRef(f) => {
                &&& host.backend == InteropBackend::Metal
                &&& platform is MacOs || platform is OtherApple
                &&& f.raw_metal_texture != 0
                &&& !(f.producer_sync is ExplicitExternalSemaphore)
            },
            NativeFrame::Dx12SharedTexture(f) => {
                &&& host.backend == InteropBackend::Dx12
                &&& platform is Windows
                &&& !(f.producer_sync is ExplicitExternalSemaphore)
            },
            _ => false,
        },
        call_ensures(
            <WgpuTextureImporter as TextureImporter>::import_frame,
            (importer, frame, options, platform),
            progress,
        ),
        progress matches ImportProgress::Open(request) ==> call_ensures(
            <WgpuTextureImporter as TextureImporter>::resume_import,
            (importer, request, OpenedTexture::Texture(texture)),
            result,
        ),
    ensures
        progress is Open,
        result is Ok,
        ({
            let request = progress->Open_0;
            let imported = result->Ok_0;
            &&& imported.texture == texture
            &&& imported.origin == TextureOrigin::TopLeft
            &&& options.normalize_format ==> imported.format == TextureFormat::Rgba8Unorm
            &&& match frame {
                NativeFrame::MetalTextureRef(f) => {
                    &&& request.raw == f.raw_metal_texture
                    &&& request.shape.format == f.format
                    &&& !options.normalize_format ==> imported.format == f.format
                    &&& imported.size == f.size
                    &&& imported.generation == f.generation
                    &&& imported.consumer_sync == f.producer_sync
                },
                NativeFrame::Dx12SharedTexture(f) => {
                    &&& request.raw == f.handle
                    &&& request.shape.format == f.format
                    &&& !options.normalize_format ==> imported.format == f.format
                    &&& imported.size == f.size
                    &&& imported.generation == f.generation
                    &&& imported.consumer_sync == f.producer_sync
                },
                _ => false,
            }
        }),
{
}

/// A new importer takes no frame that waits for a semaphore, whatever its kind: the
/// import ends at once, in an error that names the mechanism.
pub proof fn semaphore_frame_is_refused(
    host: HostWgpuContext,
    importer: &WgpuTextureImporter,
    frame: &NativeFrame,
    options: &ImportOptions,
    platform: TargetPlatform,
    progress: ImportProgress,
)
    requires
        call_ensures(WgpuTextureImporter::new, (host,), *importer),
        frame.producer_sync() is ExplicitExternalSemaphore,
        call_ensures(
            <WgpuTextureImporter as TextureImporter>::import_frame,
            (importer, frame, options, platform),
            progress,
        ),
    ensures
        progress == ImportProgress::Finished(
            Err(
                InteropError::UnsupportedSynchronization(SyncMechanism::ExplicitExternalSemaphore),
            ),
        ),
{
}

/// A resource that could not be opened gives no texture: the import ends in an error
/// of the API that the resource belongs to, and a cause that was given is kept.
pub proof fn failed_opening_is_reported(
    importer: &WgpuTextureImporter,
    request: HalTextureRequest,
    opened: OpenedTexture,
    result: Result<ImportedTexture, InteropError>,
)
    requires
        call_ensures(
            <WgpuTextureImporter as TextureImporter>::resume_import,
            (importer, request, opened),
            result,
        ),
    ensures
        !(opened is Texture) ==> result is Err,
        opened is RetainFailed ==> result matches Err(InteropError::Metal(_)),
        opened is DeviceMismatch ==> (result matches Err(
            InteropError::BackendMismatch { expected, .. },
        ) && expected == InteropBackend::Dx12.name()),
        opened is NullResource ==> result matches Err(InteropError::Dx12(_)),
        opened matches OpenedTexture::OpenRejected(why) ==> result matches Err(
            InteropError::Dx12(cause),
        ) && cause@ == why@,
        opened matches OpenedTexture::ConversionFailed(why) ==> {
            &&& request.api == InteropBackend::Metal ==> (result matches Err(
                InteropError::Metal(cause),
            ) && cause@ == why@)
            &&& request.api == InteropBackend::Dx12 ==> (result matches Err(
                InteropError::Dx12(cause),
            ) && cause@ == why@)
        },
{
}

/// A GL framebuffer comes to what its own code says, on every host: where that code
/// can only reply with `reply` and nothing has to be waited for, the import ends in
/// that reply, unchanged.
pub proof fn gl_frame_is_left_to_its_own_code(
    importer: &WgpuTextureImporter,
    source: GlFramebufferSource,
    options: &ImportOptions,
    platform: TargetPlatform,
    reply: Result<ImportedTexture, InteropError>,
    progress: ImportProgress,
)
    requires
        importer.takes_implicit_only(),
        !(source.info().producer_sync is ExplicitExternalSemaphore),
        forall|other: Result<ImportedTexture, InteropError>| #[trigger]
            source.may_reply(importer.spec_host(), options, other) ==> other == reply,
        reply matches Ok(texture) ==> !(texture.consumer_sync is ExplicitExternalSemaphore),
        call_ensures(
            <WgpuTextureImporter as TextureImporter>::import_frame,
            (importer, &NativeFrame::GlFramebufferSource(source), options, platform),
            progress,
        ),
    ensures
        progress == ImportProgress::Finished(reply),
{
}

/// A Vulkan image with nothing to wait for is never imported, on any host.
pub proof fn vulkan_image_is_not_imported(
    importer: &WgpuTextureImporter,
    frame: VulkanExternalImage,
    options: &ImportOptions,
    platform: TargetPlatform,
    progress: ImportProgress,
)
    requires
        importer.takes_implicit_only(),
        !(frame.producer_sync is ExplicitExternalSemaphore),
        call_ensures(
            <WgpuTextureImporter as TextureImporter>::import_frame,
            (importer, &NativeFrame::VulkanExternalImage(frame), options, platform),
            progress,
        ),
    ensures
        progress == ImportProgress::Finished(
            Err(InteropError::Unsupported(UnsupportedReason::NativeImportNotYetImplemented)),
        ),
{
}

/// The names that reports show tell the backends apart.
pub proof fn backends_are_told_by_name(backend: InteropBackend)
    ensures
        backend.name()@ == "Vulkan"@ <==> backend is Vulkan,
        backend.name()@ == "Metal"@ <==> backend is Metal,
        backend.name()@ == "Dx12"@ <==> backend is Dx12,
        backend.name()@ == "Unknown"@ <==> backend is Unknown,
{
    reveal_strlit("Vulkan");
    reveal_strlit("Metal");
    reveal_strlit("Dx12");
    reveal_strlit("Unknown");
    assert("Vulkan"@.len() == 6 && "Metal"@.len() == 5);
    assert("Dx12"@.len() == 4 && "Unknown"@.len() == 7);
}

/// A report says of a status whether it is supported, and if it is not, why.
pub proof fn status_shows_its_reason(status: CapabilityStatus, shown: String)
    requires
        call_ensures(CapabilityStatus::show, (status,), shown),
    ensures
        shown@ == "Supported"@ <==> status is Supported,
        status matches CapabilityStatus::Unsupported(reason) ==> {
            let head = "Unsupported("@.len() as int;
            &&& shown@.len() == head + reason.name()@.len() + 1
            &&& shown@.subrange(head, head + reason.name()@.len()) == reason.name()@
        },
{
    reveal_strlit("Supported");
    reveal_strlit("Unsupported(");
    reveal_strlit(")");
    assert("Supported"@.len() == 9 && "Unsupported("@.len() == 12);
}

/// A native frame with nothing to wait for fails for the reason that there is: off its
/// platform it is a mismatch, whatever the host runs on; on its platform it is
/// unavailable to a host without a backend and a mismatch for one with another; and a
/// Metal frame without a texture is invalid.
pub proof fn native_frame_fails_for_its_reason(
    importer: &WgpuTextureImporter,
    frame: &NativeFrame,
    options: &ImportOptions,
    platform: TargetPlatform,
    progress: ImportProgress,
)
    requires
        importer.takes_implicit_only(),
        match frame {
            NativeFrame::MetalTextureRef(f) => !(f.producer_sync is ExplicitExternalSemaphore),
            NativeFrame::Dx12SharedTexture(f) => !(f.producer_sync is ExplicitExternalSemaphore),
            _ => false,
        },
        call_ensures(
            <WgpuTextureImporter as TextureImporter>::import_frame,
            (importer, frame, options, platform),
            progress,
        ),
    ensures
        ({
            let backend = importer.spec_host().backend;
            let at_home = match frame {
                NativeFrame::MetalTextureRef(_) => platform is MacOs || platform is OtherApple,
                _ => platform is Windows,
            };
            let own = match frame {
                NativeFrame::MetalTextureRef(_) => InteropBackend::Metal,
                _ => InteropBackend::Dx12,
            };
            let lacks_texture = frame matches NativeFrame::MetalTextureRef(f)
                && f.raw_metal_texture == 0;
            &&& !at_home ==> progress == ImportProgress::Finished(
                Err(InteropError::Unsupported(UnsupportedReason::HostBackendMismatch)),
            )
            &&& at_home && backend == InteropBackend::Unknown ==> progress
                == ImportProgress::Finished(
                Err(InteropError::Unsupported(UnsupportedReason::HostBackendUnavailable)),
            )
            &&& at_home && backend != InteropBackend::Unknown && backend != own ==> progress
                == ImportProgress::Finished(
                Err(InteropError::Unsupported(UnsupportedReason::HostBackendMismatch)),
            )
            &&& at_home && backend == own && lacks_texture ==> progress is Finished
                && progress->Finished_0 is Err && progress->Finished_0->Err_0 is InvalidFrame
            &&& at_home && backend == own && !lacks_texture ==> progress is Open
        }),
{
}

/// A GL frame is imported as what its producer said of it.
pub proof fn gl_frame_keeps_what_was_said(
    said: (PhysicalSize, u64, SyncMechanism, std::rc::Rc<dyn GlFramebufferSourceImpl>),
    source: &GlFramebufferSource,
    size: PhysicalSize,
    generation: u64,
    producer_sync: SyncMechanism,
)
    requires
        call_ensures(GlFramebufferSource::new, said, *source),
        call_ensures(GlFramebufferSource::size, (source,), size),
        call_ensures(GlFramebufferSource::generation, (source,), generation),
        call_ensures(GlFramebufferSource::producer_sync, (source,), producer_sync),
    ensures
        size == said.0,
        generation == said.1,
        producer_sync == said.2,
        source.info() == (GlFrameInfo { size, generation, producer_sync }),
{
}

/// An imported texture that the synchronizer accepts is handed out as it is, and one
/// that it refuses is not handed out.
pub proof fn accepted_texture_is_handed_out(
    importer: &WgpuTextureImporter,
    texture: ImportedTexture,
    error: InteropError,
    handed_out: Result<ImportedTexture, InteropError>,
    failed: Result<ImportedTexture, InteropError>,
)
    requires
        importer.takes_implicit_only(),
        call_ensures(
            WgpuTextureImporter::finish_import,
            (importer, Ok::<ImportedTexture, InteropError>(texture)),
            handed_out,
        ),
        call_ensures(
            WgpuTextureImporter::finish_import,
            (importer, Err::<ImportedTexture, InteropError>(error)),
            failed,
        ),
    ensures
        !(texture.consumer_sync is ExplicitExternalSemaphore) ==> handed_out == Ok::<
            ImportedTexture,
            InteropError,
        >(texture),
        texture.consumer_sync is ExplicitExternalSemaphore ==> handed_out is Err,
        failed == Err::<ImportedTexture, InteropError>(error),
{
}

} // verus!

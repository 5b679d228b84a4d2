//! The Windows capture path, from a captured D3D11 texture to a frame that a
//! D3D12 host can import.
//!
//! `Windows.Graphics.Capture` delivers D3D11 textures. Each is copied into a
//! texture with a shared NT handle, and the handle is handed over as a
//! [`NativeFrame::Dx12SharedTexture`].

use vstd::prelude::*;
use vstd::string::*;

use crate::geometry::{PhysicalSize, SignedSize};
use crate::interop::{Dx12SharedTexture, NativeFrame};
use crate::platform_call::{CallReply, CallSequence, PlatformCall};
use crate::sync::SyncMechanism;
use crate::text::join2;
use crate::texture::TextureFormat;
use crate::web_surface::{WryWebSurfaceError, WryWebSurfaceFrame};

verus! {

/// How long a caller waits between two looks into an empty frame pool, in
/// milliseconds.
pub const POLL_INTERVAL_MS: u64 = 16;

/// Metadata for a captured WebView2 frame before it has been converted into a
/// `NativeFrame::Dx12SharedTexture`.
#[derive(Clone, Copy, Debug, PartialEq, Eq, Structural)]
pub struct WebView2D3D11CaptureFrame {
    pub size: PhysicalSize,
    pub format: TextureFormat,
    pub generation: u64,
    /// Address of the `ID3D11Texture2D`; zero is null. The capture owner
    /// retains lifetime.
    pub raw_d3d11_texture: u64,
}

/// Result of converting a captured D3D11 frame into an importable D3D12 frame.
#[derive(Clone, Copy, Debug, PartialEq, Eq, Structural)]
pub struct WebView2Dx12SharedFrame {
    pub size: PhysicalSize,
    pub format: TextureFormat,
    pub generation: u64,
    /// NT shared handle suitable for `ID3D12Device::OpenSharedHandle`.
    pub shared_handle: u64,
}

impl WebView2Dx12SharedFrame {
    /// The same frame, for the importer. Its producer has already waited for
    /// the GPU, so it asks for no synchronization.
    pub open spec fn spec_into_surface_frame(self) -> WryWebSurfaceFrame {
        WryWebSurfaceFrame::Native(
            NativeFrame::Dx12SharedTexture(
                Dx12SharedTexture {
                    size: self.size,
                    format: self.format,
                    generation: self.generation,
                    producer_sync: SyncMechanism::Unsynchronized,
                    handle: self.shared_handle,
                },
            ),
        )
    }

    /// The same frame, for the importer. Its producer has already waited for
    /// the GPU, so it asks for no synchronization.
    #[verifier::when_used_as_spec(spec_into_surface_frame)]
    pub fn into_surface_frame(self) -> (r: WryWebSurfaceFrame)
        ensures
            r == self.into_surface_frame(),
    {
        WryWebSurfaceFrame::Native(
            NativeFrame::Dx12SharedTexture(
                Dx12SharedTexture {
                    size: self.size,
                    format: self.format,
                    generation: self.generation,
                    producer_sync: SyncMechanism::Unsynchronized,
                    handle: self.shared_handle,
                },
            ),
        )
    }
}

/// A capture frame that already has a DXGI/D3D shared handle.
///
/// If the captured texture can expose a handle that
/// `ID3D12Device::OpenSharedHandle` accepts, no CPU readback is needed.
#[derive(Clone, Copy, Debug, PartialEq, Eq, Structural)]
pub struct WebView2DxgiSharedHandleFrame {
    pub size: PhysicalSize,
    pub format: TextureFormat,
    pub generation: u64,
    /// NT shared handle; zero is null. The caller remains responsible for
    /// closing its copy.
    pub shared_handle: u64,
}

impl WebView2DxgiSharedHandleFrame {
    /// The same frame as a D3D12 frame.
    pub open spec fn spec_into_dx12_frame(self) -> WebView2Dx12SharedFrame {
        WebView2Dx12SharedFrame {
            size: self.size,
            format: self.format,
            generation: self.generation,
            shared_handle: self.shared_handle,
        }
    }

    /// The same frame as a D3D12 frame.
    #[verifier::when_used_as_spec(spec_into_dx12_frame)]
    pub fn into_dx12_frame(self) -> (r: WebView2Dx12SharedFrame)
        ensures
            r == self.into_dx12_frame(),
    {
        WebView2Dx12SharedFrame {
            size: self.size,
            format: self.format,
            generation: self.generation,
            shared_handle: self.shared_handle,
        }
    }

    /// The same frame, for the importer.
    pub fn into_surface_frame(self) -> (r: WryWebSurfaceFrame)
        ensures
            r == self.into_dx12_frame().into_surface_frame(),
    {
        self.into_dx12_frame().into_surface_frame()
    }
}

/// The DXGI formats that captures are shared in.
#[derive(Clone, Copy, Debug, PartialEq, Eq, Structural)]
pub enum DxgiFormat {
    R8G8B8A8Unorm,
    B8G8R8A8Unorm,
}

/// The DXGI format of a pixel format, where captures can be shared in it.
pub open spec fn dxgi_format(format: TextureFormat) -> Option<DxgiFormat> {
    match format {
        TextureFormat::Rgba8Unorm => Some(DxgiFormat::R8G8B8A8Unorm),
        TextureFormat::Bgra8Unorm => Some(DxgiFormat::B8G8R8A8Unorm),
        _ => None,
    }
}

/// The DXGI format of a pixel format.
pub fn dxgi_format_for_wgpu(format: TextureFormat) -> (r: Result<DxgiFormat, WryWebSurfaceError>)
    ensures
        r is Ok <==> dxgi_format(format) is Some,
        r matches Ok(dxgi) ==> dxgi_format(format) == Some(dxgi),
        r matches Err(error) ==> error == WryWebSurfaceError::Unsupported(
            "only Rgba8Unorm and Bgra8Unorm D3D11 capture textures are supported",
        ),
{
    match format {
        TextureFormat::Rgba8Unorm => Ok(DxgiFormat::R8G8B8A8Unorm),
        TextureFormat::Bgra8Unorm => Ok(DxgiFormat::B8G8R8A8Unorm),
        _ => Err(
            WryWebSurfaceError::Unsupported(
                "only Rgba8Unorm and Bgra8Unorm D3D11 capture textures are supported",
            ),
        ),
    }
}

/// Everything that a shareable D3D11 texture is created with.
#[derive(Clone, Copy, Debug, PartialEq, Eq, Structural)]
pub struct SharedTextureDesc {
    pub size: PhysicalSize,
    pub mip_levels: u32,
    pub array_size: u32,
    pub format: DxgiFormat,
    pub sample_count: u32,
    pub sample_quality: u32,
    pub bind_render_target: bool,
    pub bind_shader_resource: bool,
    pub shared_nt_handle: bool,
    pub shared_keyed_mutex: bool,
}

/// A single-sampled texture that can be rendered to and sampled from, shared
/// through an NT handle and a keyed mutex.
pub open spec fn shared_texture_desc(size: PhysicalSize, format: DxgiFormat) -> SharedTextureDesc {
    SharedTextureDesc {
        size,
        mip_levels: 1,
        array_size: 1,
        format,
        sample_count: 1,
        sample_quality: 0,
        bind_render_target: true,
        bind_shader_resource: true,
        shared_nt_handle: true,
        shared_keyed_mutex: true,
    }
}

/// What a frame pool is created with; its pixels are 8-bit BGRA.
#[derive(Clone, Copy, Debug, PartialEq, Eq, Structural)]
pub struct FramePoolDesc {
    pub buffers: i32,
    pub size: SignedSize,
}

impl FramePoolDesc {
    /// The pool of a capture: two buffers of the captured item's size.
    pub open spec fn spec_for_item(size: SignedSize) -> FramePoolDesc {
        FramePoolDesc { buffers: 2, size }
    }

    /// The pool of a capture: two buffers of the captured item's size.
    #[verifier::when_used_as_spec(spec_for_item)]
    pub fn for_item(size: SignedSize) -> (r: FramePoolDesc)
        ensures
            r == FramePoolDesc::for_item(size),
    {
        FramePoolDesc { buffers: 2, size }
    }

    /// The pool that a probe tries to create: one small buffer.
    pub fn for_probe() -> (r: FramePoolDesc)
        ensures
            r == (FramePoolDesc { buffers: 1, size: SignedSize { width: 64, height: 64 } }),
    {
        FramePoolDesc { buffers: 1, size: SignedSize { width: 64, height: 64 } }
    }
}

/// Work that ends in a frame with a shared handle: the calls to make, and what
/// the frame will say besides its handle.
#[derive(Debug)]
pub struct SharedHandleWork {
    desc: Option<SharedTextureDesc>,
    size: PhysicalSize,
    format: TextureFormat,
    generation: u64,
    source_is_null: bool,
    sequence: CallSequence,
}

impl SharedHandleWork {
    /// A handle is among what the calls give.
    #[verifier::type_invariant]
    spec fn well_formed(&self) -> bool {
        self.sequence.calls().contains(PlatformCall::CreateSharedHandle)
    }

    /// The texture to create, where one has to be created.
    pub closed spec fn spec_desc(&self) -> Option<SharedTextureDesc> {
        self.desc
    }

    /// The size of the frame.
    pub closed spec fn size(&self) -> PhysicalSize {
        self.size
    }

    /// The format of the frame.
    pub closed spec fn format(&self) -> TextureFormat {
        self.format
    }

    /// The generation of the frame.
    pub closed spec fn generation(&self) -> u64 {
        self.generation
    }

    /// Whether the texture to copy from turned out to be null.
    pub closed spec fn source_is_null(&self) -> bool {
        self.source_is_null
    }

    /// The calls of this work, and how far it has come.
    pub closed spec fn sequence(&self) -> &CallSequence {
        &self.sequence
    }

    /// Whether this is work that has not begun, with the given calls, for a frame
    /// of the given size, format and generation.
    pub open spec fn begins(
        &self,
        calls: Seq<PlatformCall>,
        size: PhysicalSize,
        format: TextureFormat,
        generation: u64,
    ) -> bool {
        &&& self.sequence().calls() == calls
        &&& self.sequence().done() == 0
        &&& self.size() == size
        &&& self.format() == format
        &&& self.generation() == generation
    }

    /// Whether `r` is what this work ends in.
    pub open spec fn ends_in(
        &self,
        r: Result<WebView2DxgiSharedHandleFrame, WryWebSurfaceError>,
    ) -> bool {
        match r {
            Ok(frame) => {
                &&& !self.source_is_null()
                &&& self.sequence().spec_findings().handle == Some(frame.shared_handle)
                &&& frame.size == self.size()
                &&& frame.format == self.format()
                &&& frame.generation == self.generation()
            },
            Err(error) => {
                &&& self.source_is_null()
                &&& error.is_platform("D3D11 capture texture pointer was null"@)
            },
        }
    }

    /// The texture to create, where one has to be created.
    #[verifier::when_used_as_spec(spec_desc)]
    pub fn desc(&self) -> (r: Option<SharedTextureDesc>)
        ensures
            r == self.desc(),
    {
        self.desc
    }

    /// The call that is due, if any is left.
    pub fn current(&self) -> (r: Option<PlatformCall>)
        ensures
            r == self.sequence().spec_current(),
    {
        self.sequence.current()
    }

    /// Reports the reply to the call that was due.
    pub fn report(&mut self, reply: &CallReply) -> (r: Result<(), WryWebSurfaceError>)
        requires
            old(self).sequence().spec_current() is Some,
            old(self).sequence().spec_current()->0.fits(reply),
        ensures
            final(self).sequence().follows(old(self).sequence(), reply, r),
            final(self).desc() == old(self).desc(),
            final(self).size() == old(self).size(),
            final(self).format() == old(self).format(),
            final(self).generation() == old(self).generation(),
            final(self).source_is_null() == old(self).source_is_null(),
    {
        proof {
            use_type_invariant(&*self);
        }
        match self.sequence.judge(reply) {
            Ok(()) => {
                self.sequence.advance(reply);
                Ok(())
            },
            Err(error) => Err(error),
        }
    }

    /// The calls of this work, to be made as a part of other work.
    pub(crate) fn into_sequence(self) -> (r: CallSequence)
        ensures
            r == *self.sequence(),
    {
        self.sequence
    }

    /// What the work ends in, once every call has been accepted.
    pub fn finish(&self) -> (r: Option<Result<WebView2DxgiSharedHandleFrame, WryWebSurfaceError>>)
        ensures
            r is Some <==> self.sequence().finished(),
            r matches Some(end) ==> self.ends_in(end),
    {
        proof {
            use_type_invariant(self);
        }
        match self.sequence.current() {
            Some(_) => None,
            None => {
                if self.source_is_null {
                    return Some(Err(null_capture_texture()));
                }
                assert(self.sequence.has_done(PlatformCall::CreateSharedHandle));
                match self.sequence.findings().handle {
                    Some(shared_handle) => Some(
                        Ok(
                            WebView2DxgiSharedHandleFrame {
                                size: self.size,
                                format: self.format,
                                generation: self.generation,
                                shared_handle,
                            },
                        ),
                    ),
                    None => None,
                }
            },
        }
    }
}

fn null_capture_texture() -> (r: WryWebSurfaceError)
    ensures
        r.is_platform("D3D11 capture texture pointer was null"@),
{
    WryWebSurfaceError::Platform("D3D11 capture texture pointer was null".to_owned())
}

/// The calls that create a hardware D3D11 device.
pub open spec fn hardware_device_calls() -> Seq<PlatformCall> {
    seq![
        PlatformCall::CreateD3d11Device,
        PlatformCall::TakeD3d11Device,
        PlatformCall::TakeD3d11Context,
    ]
}

/// The calls that wrap a D3D11 device for WinRT.
pub open spec fn winrt_device_calls() -> Seq<PlatformCall> {
    seq![
        PlatformCall::CastDxgiDevice,
        PlatformCall::CreateWinrtDevice,
        PlatformCall::CastWinrtDevice,
    ]
}

/// The calls that create a shareable texture and export its handle.
pub open spec fn shared_texture_calls() -> Seq<PlatformCall> {
    seq![
        PlatformCall::CreateTexture,
        PlatformCall::TakeTexture,
        PlatformCall::CastDxgiResource,
        PlatformCall::CreateSharedHandle,
    ]
}

/// The calls that copy a captured texture into the one just created.
pub open spec fn copy_calls() -> Seq<PlatformCall> {
    seq![PlatformCall::BorrowTexture, PlatformCall::CopyCapture]
}

/// The calls that export the handle of a captured texture itself.
pub open spec fn export_calls() -> Seq<PlatformCall> {
    seq![
        PlatformCall::BorrowTexture,
        PlatformCall::CastDxgiResource,
        PlatformCall::CreateSharedHandle,
    ]
}

/// Allocates NT-handle-shareable textures on a hardware D3D11 device.
#[derive(Clone, Copy, Debug)]
pub struct D3D11SharedTextureFactory;

impl D3D11SharedTextureFactory {
    /// The calls that create the factory's device.
    pub fn new_hardware() -> (r: CallSequence)
        ensures
            r.calls() == hardware_device_calls(),
            r.done() == 0,
    {
        let calls = vec![
            PlatformCall::CreateD3d11Device,
            PlatformCall::TakeD3d11Device,
            PlatformCall::TakeD3d11Context,
        ];
        assert(calls@ =~= hardware_device_calls());
        CallSequence::new(calls)
    }

    /// The calls that wrap the factory's device for WinRT.
    pub fn create_winrt_direct3d_device(&self) -> (r: CallSequence)
        ensures
            r.calls() == winrt_device_calls(),
            r.done() == 0,
    {
        let calls = vec![
            PlatformCall::CastDxgiDevice,
            PlatformCall::CreateWinrtDevice,
            PlatformCall::CastWinrtDevice,
        ];
        assert(calls@ =~= winrt_device_calls());
        CallSequence::new(calls)
    }

    /// The work of creating a shareable texture, if captures can be shared in
    /// `format`.
    pub fn create_shared_texture_frame(
        &self,
        size: PhysicalSize,
        format: TextureFormat,
        generation: u64,
    ) -> (r: Result<SharedHandleWork, WryWebSurfaceError>)
        ensures
            r is Ok <==> dxgi_format(format) is Some,
            r matches Ok(work) ==> {
                &&& work.desc() == Some(shared_texture_desc(size, dxgi_format(format)->0))
                &&& !work.source_is_null()
                &&& work.begins(shared_texture_calls(), size, format, generation)
            },
            r matches Err(error) ==> error == WryWebSurfaceError::Unsupported(
                "only Rgba8Unorm and Bgra8Unorm D3D11 capture textures are supported",
            ),
    {
        let dxgi = match dxgi_format_for_wgpu(format) {
            Ok(dxgi) => dxgi,
            Err(error) => return Err(error),
        };
        let calls = vec![
            PlatformCall::CreateTexture,
            PlatformCall::TakeTexture,
            PlatformCall::CastDxgiResource,
            PlatformCall::CreateSharedHandle,
        ];
        assert(calls@ =~= shared_texture_calls());
        assert(calls@[3] == PlatformCall::CreateSharedHandle);
        Ok(
            SharedHandleWork {
                desc: Some(make_desc(size, dxgi)),
                size,
                format,
                generation,
                source_is_null: false,
                sequence: CallSequence::new(calls),
            },
        )
    }

    /// The work of copying `capture` into a new shareable texture of the same
    /// size, format and generation. A null texture is noticed after the new one
    /// has been created, when there is nothing to copy from.
    pub fn copy_capture_into_shared_frame(&self, capture: WebView2D3D11CaptureFrame) -> (r: Result<
        SharedHandleWork,
        WryWebSurfaceError,
    >)
        ensures
            r is Ok <==> dxgi_format(capture.format) is Some,
            r matches Ok(work) ==> {
                &&& work.desc() == Some(
                    shared_texture_desc(capture.size, dxgi_format(capture.format)->0),
                )
                &&& work.source_is_null() == (capture.raw_d3d11_texture == 0)
                &&& work.begins(
                    if capture.raw_d3d11_texture == 0 {
                        shared_texture_calls()
                    } else {
                        shared_texture_calls() + copy_calls()
                    },
                    capture.size,
                    capture.format,
                    capture.generation,
                )
            },
            r matches Err(error) ==> error == WryWebSurfaceError::Unsupported(
                "only Rgba8Unorm and Bgra8Unorm D3D11 capture textures are supported",
            ),
    {
        let dxgi = match dxgi_format_for_wgpu(capture.format) {
            Ok(dxgi) => dxgi,
            Err(error) => return Err(error),
        };
        let source_is_null = capture.raw_d3d11_texture == 0;
        let mut calls = vec![
            PlatformCall::CreateTexture,
            PlatformCall::TakeTexture,
            PlatformCall::CastDxgiResource,
            PlatformCall::CreateSharedHandle,
        ];
        assert(calls@ =~= shared_texture_calls());
        if !source_is_null {
            calls.push(PlatformCall::BorrowTexture);
            calls.push(PlatformCall::CopyCapture);
            assert(calls@ =~= shared_texture_calls() + copy_calls());
        }
        assert(calls@[3] == PlatformCall::CreateSharedHandle);
        Ok(
            SharedHandleWork {
                desc: Some(make_desc(capture.size, dxgi)),
                size: capture.size,
                format: capture.format,
                generation: capture.generation,
                source_is_null,
                sequence: CallSequence::new(calls),
            },
        )
    }
}

fn make_desc(size: PhysicalSize, format: DxgiFormat) -> (r: SharedTextureDesc)
    ensures
        r == shared_texture_desc(size, format),
{
    SharedTextureDesc {
        size,
        mip_levels: 1,
        array_size: 1,
        format,
        sample_count: 1,
        sample_quality: 0,
        bind_render_target: true,
        bind_shader_resource: true,
        shared_nt_handle: true,
        shared_keyed_mutex: true,
    }
}

/// Result of probing the Windows.Graphics.Capture side of the pipeline.
#[derive(Clone, Copy, Debug, PartialEq, Eq, Structural)]
pub struct GraphicsCaptureProbe {
    pub session_supported: bool,
    pub winrt_d3d_device_created: bool,
    pub free_threaded_frame_pool_created: bool,
}

/// A probe whose session answer is known: the calls that are left to try.
#[derive(Debug)]
pub struct GraphicsCaptureProbeWork {
    session_supported: bool,
    sequence: CallSequence,
}

/// The calls that a probe tries in a session that can capture: a device for
/// WinRT, and a frame pool on it.
pub open spec fn probe_calls() -> Seq<PlatformCall> {
    hardware_device_calls() + winrt_device_calls() + seq![PlatformCall::CreateFramePool]
}

/// What is left of a probe after the session has answered whether it can
/// capture. Where it cannot, nothing else is tried.
pub fn probe_graphics_capture_prerequisites(session: Result<bool, String>) -> (r: Result<
    GraphicsCaptureProbeWork,
    WryWebSurfaceError,
>)
    ensures
        match session {
            Ok(supported) => r matches Ok(work) && {
                &&& work.session_supported() == supported
                &&& work.sequence().done() == 0
                &&& work.sequence().calls() == (if supported {
                    probe_calls()
                } else {
                    Seq::empty()
                })
            },
            Err(cause) => r matches Err(error) && error.is_platform(
                PlatformCall::IsCaptureSupported.failure_text(cause@),
            ),
        },
{
    match session {
        Err(cause) => Err(PlatformCall::IsCaptureSupported.failure(cause.as_str())),
        Ok(false) => Ok(
            GraphicsCaptureProbeWork {
                session_supported: false,
                sequence: CallSequence::new(Vec::new()),
            },
        ),
        Ok(true) => {
            let calls = vec![
                PlatformCall::CreateD3d11Device,
                PlatformCall::TakeD3d11Device,
                PlatformCall::TakeD3d11Context,
                PlatformCall::CastDxgiDevice,
                PlatformCall::CreateWinrtDevice,
                PlatformCall::CastWinrtDevice,
                PlatformCall::CreateFramePool,
            ];
            assert(calls@ =~= probe_calls());
            Ok(
                GraphicsCaptureProbeWork {
                    session_supported: true,
                    sequence: CallSequence::new(calls),
                },
            )
        },
    }
}

impl GraphicsCaptureProbeWork {
    /// The calls are those of a probe in such a session.
    #[verifier::type_invariant]
    spec fn well_formed(&self) -> bool {
        self.sequence.calls() == (if self.session_supported {
            probe_calls()
        } else {
            Seq::empty()
        })
    }

    /// Whether the session can capture.
    pub closed spec fn session_supported(&self) -> bool {
        self.session_supported
    }

    /// The calls of this probe, and how far it has come.
    pub closed spec fn sequence(&self) -> &CallSequence {
        &self.sequence
    }

    /// The call that is due, if any is left.
    pub fn current(&self) -> (r: Option<PlatformCall>)
        ensures
            r == self.sequence().spec_current(),
    {
        self.sequence.current()
    }

    /// Reports the reply to the call that was due.
    pub fn report(&mut self, reply: &CallReply) -> (r: Result<(), WryWebSurfaceError>)
        requires
            old(self).sequence().spec_current() is Some,
            old(self).sequence().spec_current()->0.fits(reply),
        ensures
            final(self).sequence().follows(old(self).sequence(), reply, r),
            final(self).session_supported() == old(self).session_supported(),
    {
        proof {
            use_type_invariant(&*self);
        }
        match self.sequence.judge(reply) {
            Ok(()) => {
                self.sequence.advance(reply);
                Ok(())
            },
            Err(error) => Err(error),
        }
    }

    /// The probe's result, once nothing is left to try. Device and frame pool
    /// were created exactly if the session can capture.
    pub fn finish(&self) -> (r: Option<GraphicsCaptureProbe>)
        ensures
            r == (if self.sequence().finished() {
                Some(
                    GraphicsCaptureProbe {
                        session_supported: self.session_supported(),
                        winrt_d3d_device_created: self.session_supported(),
                        free_threaded_frame_pool_created: self.session_supported(),
                    },
                )
            } else {
                None
            }),
            r matches Some(probe) ==> probe.free_threaded_frame_pool_created
                == self.sequence().has_done(PlatformCall::CreateFramePool),
    {
        proof {
            use_type_invariant(self);
            if self.session_supported && self.sequence.finished() {
                assert(self.sequence.calls()[6] == PlatformCall::CreateFramePool);
            }
        }
        match self.sequence.current() {
            Some(_) => None,
            None => Some(
                GraphicsCaptureProbe {
                    session_supported: self.session_supported,
                    winrt_d3d_device_created: self.session_supported,
                    free_threaded_frame_pool_created: self.session_supported,
                },
            ),
        }
    }
}

/// A window's content as a shared frame.
#[derive(Clone, Copy, Debug, PartialEq, Eq, Structural)]
pub struct CapturedWindowFrame {
    pub shared_frame: WebView2DxgiSharedHandleFrame,
    pub content_size: PhysicalSize,
}

/// The calls that start the capture of a window.
pub open spec fn window_capture_setup() -> Seq<PlatformCall> {
    seq![
        PlatformCall::IsCaptureSupported,
        PlatformCall::GetItemFactory,
        PlatformCall::CreateItemForWindow,
        PlatformCall::ReadItemSize,
    ] + hardware_device_calls() + winrt_device_calls() + seq![
        PlatformCall::CreateFramePool,
        PlatformCall::CreateCaptureSession,
        PlatformCall::DisableCursorCapture,
        PlatformCall::DisableCaptureBorder,
        PlatformCall::StartCapture,
    ]
}

/// The calls that turn a captured frame into a shared one.
pub open spec fn window_capture_extraction() -> Seq<PlatformCall> {
    seq![
        PlatformCall::ReadContentSize,
        PlatformCall::ReadSurface,
        PlatformCall::CastSurfaceAccess,
        PlatformCall::GetCapturedWindowTexture,
    ] + shared_texture_calls() + copy_calls()
}

/// The calls that close a capture.
pub open spec fn session_closing_calls() -> Seq<PlatformCall> {
    seq![PlatformCall::CloseCaptureSession, PlatformCall::CloseFramePool]
}

/// The calls of a window capture, in order.
pub open spec fn window_capture_calls() -> Seq<PlatformCall> {
    window_capture_setup() + seq![PlatformCall::TryGetNextFrame] + window_capture_extraction()
        + seq![PlatformCall::CloseFrame] + session_closing_calls()
}

/// The calls that close a capture.
pub(crate) fn session_closing_sequence() -> (r: CallSequence)
    ensures
        r.calls() == session_closing_calls(),
        r.done() == 0,
{
    let calls = vec![PlatformCall::CloseCaptureSession, PlatformCall::CloseFramePool];
    assert(calls@ =~= session_closing_calls());
    CallSequence::new(calls)
}

/// The capture of one frame of a window.
#[derive(Debug)]
pub struct WindowCapture {
    window: u64,
    sequence: CallSequence,
    timeout_ms: u64,
    deadline_ms: u64,
    failure: Option<WryWebSurfaceError>,
}

/// What a [`WindowCapture`] asks of its caller.
#[derive(Clone, Copy, Debug, PartialEq, Eq, Structural)]
pub enum WindowCaptureStep {
    /// Make this call and report its reply.
    Call(PlatformCall),
    /// Everything has been done.
    Finish,
}

impl WindowCapture {
    /// There is a window. The calls are those of a window capture, or those that
    /// close a capture which no frame has arrived for.
    #[verifier::type_invariant]
    spec fn well_formed(&self) -> bool {
        &&& self.window != 0
        &&& self.sequence.calls() == (if self.failure is Some {
            session_closing_calls()
        } else {
            window_capture_calls()
        })
    }

    /// The window that is captured.
    pub closed spec fn spec_window(&self) -> u64 {
        self.window
    }

    /// The calls that this capture makes, and how far it has come.
    pub closed spec fn sequence(&self) -> &CallSequence {
        &self.sequence
    }

    /// How long the first frame may take.
    pub closed spec fn timeout_ms(&self) -> u64 {
        self.timeout_ms
    }

    /// When the wait for the first frame is over, once it has begun.
    pub closed spec fn deadline_ms(&self) -> u64 {
        self.deadline_ms
    }

    /// Why the capture is being closed without a frame, if it is.
    pub closed spec fn failure(&self) -> Option<WryWebSurfaceError> {
        self.failure
    }

    /// The window that is captured.
    #[verifier::when_used_as_spec(spec_window)]
    pub fn window(&self) -> (r: u64)
        ensures
            r == self.window(),
            r != 0,
    {
        proof {
            use_type_invariant(self);
        }
        self.window
    }

    /// What to do next.
    pub fn step(&self) -> (r: WindowCaptureStep)
        ensures
            r == (match self.sequence().spec_current() {
                Some(call) => WindowCaptureStep::Call(call),
                None => WindowCaptureStep::Finish,
            }),
    {
        match self.sequence.current() {
            Some(call) => WindowCaptureStep::Call(call),
            None => WindowCaptureStep::Finish,
        }
    }

    /// The frame pool to create, once the size of the window is known.
    pub fn frame_pool(&self) -> (r: Option<FramePoolDesc>)
        ensures
            self.sequence().spec_current() == Some(PlatformCall::CreateFramePool) ==> r is Some,
            r == (match self.sequence().spec_findings().item {
                Some(size) => Some(FramePoolDesc::for_item(size)),
                None => None,
            }),
    {
        proof {
            use_type_invariant(self);
            if self.sequence.spec_current() == Some(PlatformCall::CreateFramePool) {
                assert(self.sequence.calls()[3] == PlatformCall::ReadItemSize);
                if self.sequence.done() <= 3 {
                    assert(window_capture_calls()[self.sequence.done() as int]
                        != PlatformCall::CreateFramePool);
                }
                assert(self.sequence.has_done(PlatformCall::ReadItemSize));
            }
        }
        match self.sequence.findings().item {
            Some(size) => Some(FramePoolDesc::for_item(size)),
            None => None,
        }
    }

    /// The texture to create for the content, once its size is known.
    pub fn destination(&self) -> (r: Option<SharedTextureDesc>)
        ensures
            r == (match self.sequence().spec_findings().content {
                Some(content) => Some(
                    shared_texture_desc(content.unsigned(), DxgiFormat::B8G8R8A8Unorm),
                ),
                None => None,
            }),
    {
        match self.sequence.findings().content {
            Some(content) => Some(make_desc(content.unsigned(), DxgiFormat::B8G8R8A8Unorm)),
            None => None,
        }
    }

    /// Whether the call that is due waits for a frame, so that it is made again
    /// after [`POLL_INTERVAL_MS`] as long as it stays due.
    pub fn is_waiting(&self) -> (r: bool)
        ensures
            r == (self.sequence().spec_current() == Some(PlatformCall::TryGetNextFrame)),
    {
        match self.sequence.current() {
            Some(PlatformCall::TryGetNextFrame) => true,
            _ => false,
        }
    }

    /// Reports the reply to the call that was due, at the given time.
    ///
    /// An empty frame pool is no failure before the deadline: the call stays
    /// due. After it the capture is closed, and ends in that failure. The deadline
    /// is set when the session has started.
    pub fn report(&mut self, reply: &CallReply, now_ms: u64) -> (r: Result<(), WryWebSurfaceError>)
        requires
            old(self).sequence().spec_current() is Some,
            old(self).sequence().spec_current()->0.fits(reply),
            old(self).sequence().spec_current() == Some(PlatformCall::StartCapture) ==> now_ms
                + old(self).timeout_ms() <= u64::MAX,
        ensures
            final(self).window() == old(self).window(),
            final(self).timeout_ms() == old(self).timeout_ms(),
            ({
                let call = old(self).sequence().spec_current()->0;
                let empty_pool = call is TryGetNextFrame && reply is Failed;
                &&& empty_pool && now_ms < old(self).deadline_ms() ==> {
                    &&& r is Ok
                    &&& *final(self) == *old(self)
                }
                &&& empty_pool && now_ms >= old(self).deadline_ms() ==> {
                    &&& r is Ok
                    &&& final(self).sequence().calls() == session_closing_calls()
                    &&& final(self).sequence().done() == 0
                    &&& final(self).failure() matches Some(error) && error.is_platform(
                        "TryGetNextFrame failed before timeout: "@ + reply->Failed_0@,
                    )
                }
                &&& !empty_pool ==> {
                    &&& final(self).sequence().follows(old(self).sequence(), reply, r)
                    &&& final(self).failure() == old(self).failure()
                    &&& final(self).deadline_ms() == (if r is Ok && call is StartCapture {
                        (now_ms + old(self).timeout_ms()) as u64
                    } else {
                        old(self).deadline_ms()
                    })
                }
            }),
    {
        proof {
            use_type_invariant(&*self);
        }
        let due = self.sequence.current();
        if let (Some(PlatformCall::TryGetNextFrame), CallReply::Failed(cause)) = (due, reply) {
            if now_ms >= self.deadline_ms {
                let error = WryWebSurfaceError::Platform(
                    join2("TryGetNextFrame failed before timeout: ", cause.as_str()),
                );
                *self = WindowCapture {
                    window: self.window,
                    sequence: session_closing_sequence(),
                    timeout_ms: self.timeout_ms,
                    deadline_ms: self.deadline_ms,
                    failure: Some(error),
                };
            }
            return Ok(());
        }
        match self.sequence.judge(reply) {
            Ok(()) => {
                self.sequence.advance(reply);
                if matches!(due, Some(PlatformCall::StartCapture)) {
                    self.deadline_ms = now_ms + self.timeout_ms;
                }
                Ok(())
            },
            Err(error) => Err(error),
        }
    }

    /// How the capture has ended, once everything has been done: with the captured
    /// frame, or with the failure that it was closed for. Either way session and
    /// pool have been closed, and so has the frame.
    pub fn finish(self) -> (r: Option<Result<CapturedWindowFrame, WryWebSurfaceError>>)
        ensures
            r is Some <==> self.sequence().finished(),
            r is Some ==> {
                &&& self.sequence().has_done(PlatformCall::CloseCaptureSession)
                &&& self.sequence().has_done(PlatformCall::CloseFramePool)
            },
            r matches Some(Err(error)) ==> self.failure() == Some(error),
            r matches Some(Ok(captured)) ==> {
                &&& self.failure() is None
                &&& self.sequence().has_done(PlatformCall::CloseFrame)
                &&& self.sequence().spec_findings().content matches Some(content)
                    && captured.content_size == content.unsigned()
                &&& self.sequence().spec_findings().handle == Some(
                    captured.shared_frame.shared_handle,
                )
                &&& captured.shared_frame.size == captured.content_size
                &&& captured.shared_frame.format is Bgra8Unorm
                &&& captured.shared_frame.generation == 1
            },
    {
        proof {
            use_type_invariant(&self);
        }
        if self.sequence.current().is_some() {
            return None;
        }
        if let Some(error) = self.failure {
            assert(self.sequence.calls()[0] == PlatformCall::CloseCaptureSession);
            assert(self.sequence.calls()[1] == PlatformCall::CloseFramePool);
            return Some(Err(error));
        }
        proof {
            let calls = self.sequence.calls();
            assert(calls[16] == PlatformCall::ReadContentSize);
            assert(calls[23] == PlatformCall::CreateSharedHandle);
            assert(calls[26] == PlatformCall::CloseFrame);
            assert(calls[27] == PlatformCall::CloseCaptureSession);
            assert(calls[28] == PlatformCall::CloseFramePool);
            assert(self.sequence.has_done(PlatformCall::ReadContentSize));
            assert(self.sequence.has_done(PlatformCall::CreateSharedHandle));
        }
        let findings = self.sequence.findings();
        match (findings.content, findings.handle) {
            (Some(content), Some(shared_handle)) => {
                let content_size = content.unsigned();
                Some(
                    Ok(
                        CapturedWindowFrame {
                            shared_frame: WebView2DxgiSharedHandleFrame {
                                size: content_size,
                                format: TextureFormat::Bgra8Unorm,
                                generation: 1,
                                shared_handle,
                            },
                            content_size,
                        },
                    ),
                )
            },
            _ => None,
        }
    }
}

/// Begins the capture of a window, with the given time for a frame to arrive.
pub fn capture_window_frame_once(hwnd: u64, timeout_ms: u64) -> (r: Result<
    WindowCapture,
    WryWebSurfaceError,
>)
    ensures
        r is Ok <==> hwnd != 0,
        r matches Ok(capture) ==> {
            &&& capture.window() == hwnd
            &&& capture.sequence().calls() == window_capture_calls()
            &&& capture.sequence().done() == 0
            &&& capture.timeout_ms() == timeout_ms
            &&& capture.failure() is None
        },
        r matches Err(error) ==> error.is_platform("window capture HWND was null"@),
{
    if hwnd == 0 {
        return Err(WryWebSurfaceError::Platform("window capture HWND was null".to_owned()));
    }
    let calls = vec![
        PlatformCall::IsCaptureSupported,
        PlatformCall::GetItemFactory,
        PlatformCall::CreateItemForWindow,
        PlatformCall::ReadItemSize,
        PlatformCall::CreateD3d11Device,
        PlatformCall::TakeD3d11Device,
        PlatformCall::TakeD3d11Context,
        PlatformCall::CastDxgiDevice,
        PlatformCall::CreateWinrtDevice,
        PlatformCall::CastWinrtDevice,
        PlatformCall::CreateFramePool,
        PlatformCall::CreateCaptureSession,
        PlatformCall::DisableCursorCapture,
        PlatformCall::DisableCaptureBorder,
        PlatformCall::StartCapture,
        PlatformCall::TryGetNextFrame,
        PlatformCall::ReadContentSize,
        PlatformCall::ReadSurface,
        PlatformCall::CastSurfaceAccess,
        PlatformCall::GetCapturedWindowTexture,
        PlatformCall::CreateTexture,
        PlatformCall::TakeTexture,
        PlatformCall::CastDxgiResource,
        PlatformCall::CreateSharedHandle,
        PlatformCall::BorrowTexture,
        PlatformCall::CopyCapture,
        PlatformCall::CloseFrame,
        PlatformCall::CloseCaptureSession,
        PlatformCall::CloseFramePool,
    ];
    assert(calls@ =~= window_capture_calls());
    Ok(
        WindowCapture {
            window: hwnd,
            sequence: CallSequence::new(calls),
            timeout_ms,
            deadline_ms: 0,
            failure: None,
        },
    )
}

/// The calls that close a shared handle; a null handle needs none.
pub fn close_shared_handle(handle: u64) -> (r: CallSequence)
    ensures
        r.calls() == (if handle == 0 {
            Seq::empty()
        } else {
            seq![PlatformCall::CloseHandle]
        }),
        r.done() == 0,
{
    let mut calls: Vec<PlatformCall> = Vec::new();
    if handle != 0 {
        calls.push(PlatformCall::CloseHandle);
        assert(calls@ =~= seq![PlatformCall::CloseHandle]);
    }
    CallSequence::new(calls)
}

/// The work of exporting the handle of a captured texture, if there is a texture.
pub fn export_capture_frame_shared_handle(frame: WebView2D3D11CaptureFrame) -> (r: Result<
    SharedHandleWork,
    WryWebSurfaceError,
>)
    ensures
        r is Ok <==> frame.raw_d3d11_texture != 0,
        r matches Ok(work) ==> {
            &&& work.desc() is None
            &&& !work.source_is_null()
            &&& work.begins(export_calls(), frame.size, frame.format, frame.generation)
        },
        r matches Err(error) ==> error.is_platform("D3D11 capture texture pointer was null"@),
{
    if frame.raw_d3d11_texture == 0 {
        return Err(null_capture_texture());
    }
    let calls = vec![
        PlatformCall::BorrowTexture,
        PlatformCall::CastDxgiResource,
        PlatformCall::CreateSharedHandle,
    ];
    assert(calls@ =~= export_calls());
    assert(calls@[2] == PlatformCall::CreateSharedHandle);
    Ok(
        SharedHandleWork {
            desc: None,
            size: frame.size,
            format: frame.format,
            generation: frame.generation,
            source_is_null: false,
            sequence: CallSequence::new(calls),
        },
    )
}

/// Describes the Windows proof path without owning COM/WinRT objects yet.
#[derive(Clone, Copy, Debug, PartialEq, Eq)]
pub struct WebView2CompositionCapturePlan {
    pub requires_composition_controller: bool,
    pub requires_graphics_capture_item_from_visual: bool,
    pub capture_texture_api: &'static str,
    pub import_texture_kind: &'static str,
}

impl Default for WebView2CompositionCapturePlan {
    fn default() -> (r: Self)
        ensures
            r == (WebView2CompositionCapturePlan {
                requires_composition_controller: true,
                requires_graphics_capture_item_from_visual: true,
                capture_texture_api: "Windows.Graphics.Capture.Direct3D11CaptureFrame.Surface",
                import_texture_kind: "NativeFrame::Dx12SharedTexture",
            }),
    {
        WebView2CompositionCapturePlan {
            requires_composition_controller: true,
            requires_graphics_capture_item_from_visual: true,
            capture_texture_api: "Windows.Graphics.Capture.Direct3D11CaptureFrame.Surface",
            import_texture_kind: "NativeFrame::Dx12SharedTexture",
        }
    }
}

/// Turns a captured D3D11 frame into a frame that D3D12 can open.
pub trait D3D11ToDx12Bridge {
    /// The work of exporting a handle for `frame`, or why there is none.
    fn bridge_frame(&self, frame: WebView2D3D11CaptureFrame) -> Result<
        SharedHandleWork,
        WryWebSurfaceError,
    >;
}

/// Bridge for capture paths that can already produce a D3D12-openable DXGI
/// shared handle.
#[derive(Clone, Copy, Debug, Default)]
pub struct DxgiSharedHandleBridge;

impl DxgiSharedHandleBridge {
    /// The frame as a D3D12 frame, if it has a handle.
    pub fn bridge_shared_handle(&self, frame: WebView2DxgiSharedHandleFrame) -> (r: Result<
        WebView2Dx12SharedFrame,
        WryWebSurfaceError,
    >)
        ensures
            r is Ok <==> frame.shared_handle != 0,
            r matches Ok(bridged) ==> bridged == frame.into_dx12_frame(),
            r matches Err(error) ==> error.is_platform("WebView2 capture shared handle was null"@),
    {
        if frame.shared_handle == 0 {
            return Err(
                WryWebSurfaceError::Platform("WebView2 capture shared handle was null".to_owned()),
            );
        }
        Ok(frame.into_dx12_frame())
    }

    /// The bridged frame, or why there is none, once the work that
    /// `bridge_frame` began has been done.
    pub fn finish_frame(&self, work: &SharedHandleWork) -> (r: Option<
        Result<WebView2Dx12SharedFrame, WryWebSurfaceError>,
    >)
        ensures
            r is Some <==> work.sequence().finished(),
            r matches Some(Ok(bridged)) ==> {
                &&& !work.source_is_null()
                &&& work.sequence().spec_findings().handle == Some(bridged.shared_handle)
                &&& bridged.shared_handle != 0
                &&& bridged.size == work.size()
                &&& bridged.format == work.format()
                &&& bridged.generation == work.generation()
            },
            r matches Some(Err(error)) ==> if work.source_is_null() {
                error.is_platform("D3D11 capture texture pointer was null"@)
            } else {
                &&& work.sequence().spec_findings().handle == Some(0u64)
                &&& error.is_platform("WebView2 capture shared handle was null"@)
            },
    {
        match work.finish() {
            None => None,
            Some(Err(error)) => Some(Err(error)),
            Some(Ok(frame)) => Some(self.bridge_shared_handle(frame)),
        }
    }
}

impl D3D11ToDx12Bridge for DxgiSharedHandleBridge {
    fn bridge_frame(&self, frame: WebView2D3D11CaptureFrame) -> (r: Result<
        SharedHandleWork,
        WryWebSurfaceError,
    >)
        ensures
            r is Ok <==> frame.raw_d3d11_texture != 0,
            r matches Ok(work) ==> {
                &&& work.desc() is None
                &&& !work.source_is_null()
                &&& work.begins(export_calls(), frame.size, frame.format, frame.generation)
            },
            r matches Err(error) ==> error.is_platform("D3D11 capture texture pointer was null"@),
    {
        export_capture_frame_shared_handle(frame)
    }
}

/// Bridge for platforms that have none.
#[derive(Clone, Copy, Debug, Default)]
pub struct UnsupportedD3D11ToDx12Bridge;

impl D3D11ToDx12Bridge for UnsupportedD3D11ToDx12Bridge {
    fn bridge_frame(&self, _frame: WebView2D3D11CaptureFrame) -> (r: Result<
        SharedHandleWork,
        WryWebSurfaceError,
    >)
        ensures
            r matches Err(error) && error == WryWebSurfaceError::Unsupported(
                "D3D11 capture texture to D3D12 shared texture bridge is not implemented yet",
            ),
    {
        Err(
            WryWebSurfaceError::Unsupported(
                "D3D11 capture texture to D3D12 shared texture bridge is not implemented yet",
            ),
        )
    }
}

/// A frame reaches the importer unchanged: its size, format, generation and
/// handle are those that were captured, and it asks for no synchronization that
/// an implicit synchronizer would reject.
pub proof fn shared_frame_reaches_importer(frame: WebView2DxgiSharedHandleFrame)
    ensures
        frame.into_dx12_frame().into_surface_frame() matches WryWebSurfaceFrame::Native(native)
            && native matches NativeFrame::Dx12SharedTexture(shared) && {
            &&& shared.size == frame.size
            &&& shared.format == frame.format
            &&& shared.generation == frame.generation
            &&& shared.handle == frame.shared_handle
            &&& native.producer_sync().is_implicit()
        },
{
}

/// A capture is shared in the DXGI format that orders its channels as the pixel format
/// does, and in no other pixel format at all.
pub proof fn shared_format_keeps_the_channels(
    format: TextureFormat,
    r: Result<DxgiFormat, WryWebSurfaceError>,
)
    requires
        call_ensures(dxgi_format_for_wgpu, (format,), r),
    ensures
        r is Ok <==> format == TextureFormat::Rgba8Unorm || format == TextureFormat::Bgra8Unorm,
        r == Ok::<DxgiFormat, WryWebSurfaceError>(DxgiFormat::R8G8B8A8Unorm) <==> format
            == TextureFormat::Rgba8Unorm,
        r == Ok::<DxgiFormat, WryWebSurfaceError>(DxgiFormat::B8G8R8A8Unorm) <==> format
            == TextureFormat::Bgra8Unorm,
        r matches Err(error) ==> error is Unsupported,
{
}

/// A shared texture is what its frame says: of the frame's size, in the DXGI format of
/// the frame's format, a single image of single samples that can be drawn to and
/// sampled, shared through a handle and locked by a mutex.
pub proof fn shared_texture_matches_its_frame(
    size: PhysicalSize,
    format: TextureFormat,
    generation: u64,
    work: SharedHandleWork,
    dxgi: DxgiFormat,
)
    requires
        call_ensures(
            D3D11SharedTextureFactory::create_shared_texture_frame,
            (&D3D11SharedTextureFactory, size, format, generation),
            Ok::<SharedHandleWork, WryWebSurfaceError>(work),
        ),
        call_ensures(
            dxgi_format_for_wgpu,
            (format,),
            Ok::<DxgiFormat, WryWebSurfaceError>(dxgi),
        ),
    ensures
        work.size() == size,
        work.format() == format,
        work.generation() == generation,
        !work.source_is_null(),
        work.desc() matches Some(desc) && {
            &&& desc.size.width == size.width
            &&& desc.size.height == size.height
            &&& desc.format == dxgi
            &&& desc.mip_levels == 1 && desc.array_size == 1
            &&& desc.sample_count == 1 && desc.sample_quality == 0
            &&& desc.bind_render_target && desc.bind_shader_resource
            &&& desc.shared_nt_handle && desc.shared_keyed_mutex
        },
{
}

/// A capture is copied into a texture of its own size and format, and the frame that
/// comes of it says so. A capture without a texture gives none.
pub proof fn copied_capture_keeps_its_data(
    capture: WebView2D3D11CaptureFrame,
    begun: SharedHandleWork,
    dxgi: DxgiFormat,
    done: &SharedHandleWork,
    end: Result<WebView2DxgiSharedHandleFrame, WryWebSurfaceError>,
)
    requires
        call_ensures(
            D3D11SharedTextureFactory::copy_capture_into_shared_frame,
            (&D3D11SharedTextureFactory, capture),
            Ok::<SharedHandleWork, WryWebSurfaceError>(begun),
        ),
        call_ensures(
            dxgi_format_for_wgpu,
            (capture.format,),
            Ok::<DxgiFormat, WryWebSurfaceError>(dxgi),
        ),
        done.size() == begun.size(),
        done.format() == begun.format(),
        done.generation() == begun.generation(),
        done.source_is_null() == begun.source_is_null(),
        call_ensures(SharedHandleWork::finish, (done,), Some(end)),
    ensures
        begun.desc() matches Some(desc) && desc.size == capture.size && desc.format == dxgi,
        end is Ok <==> capture.raw_d3d11_texture != 0,
        end matches Ok(frame) ==> {
            &&& frame.size == capture.size
            &&& frame.format == capture.format
            &&& frame.generation == capture.generation
            &&& done.sequence().spec_findings().handle == Some(frame.shared_handle)
        },
{
}

/// An exported capture keeps its size, format and generation, and its handle is the
/// one that was exported; without a texture, and without a handle, there is no frame.
pub proof fn exported_capture_keeps_its_data(
    capture: WebView2D3D11CaptureFrame,
    begun: SharedHandleWork,
    done: &SharedHandleWork,
    end: Result<WebView2Dx12SharedFrame, WryWebSurfaceError>,
)
    requires
        call_ensures(
            export_capture_frame_shared_handle,
            (capture,),
            Ok::<SharedHandleWork, WryWebSurfaceError>(begun),
        ),
        done.size() == begun.size(),
        done.format() == begun.format(),
        done.generation() == begun.generation(),
        done.source_is_null() == begun.source_is_null(),
        call_ensures(
            DxgiSharedHandleBridge::finish_frame,
            (&DxgiSharedHandleBridge, done),
            Some(end),
        ),
    ensures
        capture.raw_d3d11_texture != 0,
        begun.desc() is None,
        end is Err ==> done.sequence().spec_findings().handle == Some(0u64),
        end matches Ok(frame) ==> {
            &&& frame.size == capture.size
            &&& frame.format == capture.format
            &&& frame.generation == capture.generation
            &&& done.sequence().spec_findings().handle == Some(frame.shared_handle)
            &&& frame.shared_handle != 0
        },
{
}

/// A frame with a handle is bridged, unchanged, and asks for no synchronization; one
/// without a handle is not.
pub proof fn bridged_frame_is_unchanged(
    frame: WebView2DxgiSharedHandleFrame,
    r: Result<WebView2Dx12SharedFrame, WryWebSurfaceError>,
    surface: WryWebSurfaceFrame,
)
    requires
        call_ensures(
            DxgiSharedHandleBridge::bridge_shared_handle,
            (&DxgiSharedHandleBridge, frame),
            r,
        ),
        call_ensures(WebView2DxgiSharedHandleFrame::into_surface_frame, (frame,), surface),
    ensures
        r is Ok <==> frame.shared_handle != 0,
        r matches Ok(bridged) ==> {
            &&& bridged.size == frame.size
            &&& bridged.format == frame.format
            &&& bridged.generation == frame.generation
            &&& bridged.shared_handle == frame.shared_handle
            &&& bridged.into_surface_frame() == surface
        },
        surface == WryWebSurfaceFrame::Native(
            NativeFrame::Dx12SharedTexture(
                Dx12SharedTexture {
                    size: frame.size,
                    format: frame.format,
                    generation: frame.generation,
                    producer_sync: SyncMechanism::Unsynchronized,
                    handle: frame.shared_handle,
                },
            ),
        ),
{
}

/// A captured window is described by its texture: the frame has the size and the DXGI
/// format of the texture that was created for it, and that size is the content's.
pub proof fn captured_window_describes_its_texture(
    capture: &WindowCapture,
    done: WindowCapture,
    desc: SharedTextureDesc,
    captured: CapturedWindowFrame,
    dxgi: DxgiFormat,
)
    requires
        call_ensures(WindowCapture::destination, (capture,), Some(desc)),
        capture.sequence().spec_findings().content == done.sequence().spec_findings().content,
        call_ensures(
            WindowCapture::finish,
            (done,),
            Some(Ok::<CapturedWindowFrame, WryWebSurfaceError>(captured)),
        ),
        call_ensures(
            dxgi_format_for_wgpu,
            (captured.shared_frame.format,),
            Ok::<DxgiFormat, WryWebSurfaceError>(dxgi),
        ),
    ensures
        dxgi == desc.format,
        desc.format == DxgiFormat::B8G8R8A8Unorm,
        captured.shared_frame.size == desc.size,
        captured.content_size == desc.size,
        desc.shared_nt_handle,
        done.sequence().spec_findings().content matches Some(content) && {
            &&& content.width >= 0 ==> desc.size.width == content.width
            &&& content.height >= 0 ==> desc.size.height == content.height
        },
{
}

/// The pool of a window's capture has two buffers of just the captured item's size.
pub proof fn pool_fits_the_item(capture: &WindowCapture, pool: Option<FramePoolDesc>)
    requires
        call_ensures(WindowCapture::frame_pool, (capture,), pool),
    ensures
        pool is Some <==> capture.sequence().spec_findings().item is Some,
        pool matches Some(desc) ==> {
            &&& desc.buffers == 2
            &&& Some(desc.size) == capture.sequence().spec_findings().item
        },
{
}

/// A window's capture makes before it uses: the item is there before the pool that has
/// its size, the session before it is started, the frame before it is read, and the
/// texture before it is copied into; the frame is copied before it is closed, and it is
/// closed before its session and its pool are. Nothing is done twice.
pub proof fn window_capture_makes_before_it_uses(calls: Seq<PlatformCall>)
    requires
        calls == window_capture_calls(),
    ensures
        calls.no_duplicates(),
        calls.len() == 29,
        crate::platform_call::comes_before(
            calls,
            PlatformCall::IsCaptureSupported,
            PlatformCall::GetItemFactory,
        ),
        crate::platform_call::comes_before(
            calls,
            PlatformCall::GetItemFactory,
            PlatformCall::CreateItemForWindow,
        ),
        crate::platform_call::comes_before(
            calls,
            PlatformCall::CreateItemForWindow,
            PlatformCall::ReadItemSize,
        ),
        crate::platform_call::comes_before(
            calls,
            PlatformCall::ReadItemSize,
            PlatformCall::CreateFramePool,
        ),
        crate::platform_call::comes_before(
            calls,
            PlatformCall::CreateD3d11Device,
            PlatformCall::TakeD3d11Device,
        ),
        crate::platform_call::comes_before(
            calls,
            PlatformCall::CreateD3d11Device,
            PlatformCall::TakeD3d11Context,
        ),
        crate::platform_call::comes_before(
            calls,
            PlatformCall::TakeD3d11Device,
            PlatformCall::CastDxgiDevice,
        ),
        crate::platform_call::comes_before(
            calls,
            PlatformCall::CastDxgiDevice,
            PlatformCall::CreateWinrtDevice,
        ),
        crate::platform_call::comes_before(
            calls,
            PlatformCall::CreateWinrtDevice,
            PlatformCall::CastWinrtDevice,
        ),
        crate::platform_call::comes_before(
            calls,
            PlatformCall::CastWinrtDevice,
            PlatformCall::CreateFramePool,
        ),
        crate::platform_call::comes_before(
            calls,
            PlatformCall::CreateFramePool,
            PlatformCall::CreateCaptureSession,
        ),
        crate::platform_call::comes_before(
            calls,
            PlatformCall::CreateCaptureSession,
            PlatformCall::DisableCursorCapture,
        ),
        crate::platform_call::comes_before(
            calls,
            PlatformCall::DisableCursorCapture,
            PlatformCall::StartCapture,
        ),
        crate::platform_call::comes_before(
            calls,
            PlatformCall::DisableCaptureBorder,
            PlatformCall::StartCapture,
        ),
        crate::platform_call::comes_before(
            calls,
            PlatformCall::StartCapture,
            PlatformCall::TryGetNextFrame,
        ),
        crate::platform_call::comes_before(
            calls,
            PlatformCall::TryGetNextFrame,
            PlatformCall::ReadContentSize,
        ),
        crate::platform_call::comes_before(
            calls,
            PlatformCall::TryGetNextFrame,
            PlatformCall::ReadSurface,
        ),
        crate::platform_call::comes_before(
            calls,
            PlatformCall::ReadSurface,
            PlatformCall::CastSurfaceAccess,
        ),
        crate::platform_call::comes_before(
            calls,
            PlatformCall::CastSurfaceAccess,
            PlatformCall::GetCapturedWindowTexture,
        ),
        crate::platform_call::comes_before(
            calls,
            PlatformCall::ReadContentSize,
            PlatformCall::CreateTexture,
        ),
        crate::platform_call::comes_before(
            calls,
            PlatformCall::CreateTexture,
            PlatformCall::TakeTexture,
        ),
        crate::platform_call::comes_before(
            calls,
            PlatformCall::TakeTexture,
            PlatformCall::CastDxgiResource,
        ),
        crate::platform_call::comes_before(
            calls,
            PlatformCall::CastDxgiResource,
            PlatformCall::CreateSharedHandle,
        ),
        crate::platform_call::comes_before(
            calls,
            PlatformCall::GetCapturedWindowTexture,
            PlatformCall::BorrowTexture,
        ),
        crate::platform_call::comes_before(
            calls,
            PlatformCall::BorrowTexture,
            PlatformCall::CopyCapture,
        ),
        crate::platform_call::comes_before(
            calls,
            PlatformCall::TakeTexture,
            PlatformCall::CopyCapture,
        ),
        crate::platform_call::comes_before(
            calls,
            PlatformCall::CopyCapture,
            PlatformCall::CloseFrame,
        ),
        crate::platform_call::comes_before(
            calls,
            PlatformCall::CloseFrame,
            PlatformCall::CloseCaptureSession,
        ),
        crate::platform_call::comes_before(
            calls,
            PlatformCall::CloseCaptureSession,
            PlatformCall::CloseFramePool,
        ),
{
    assert(calls[0] == PlatformCall::IsCaptureSupported);
    assert(calls[1] == PlatformCall::GetItemFactory);
    assert(calls[2] == PlatformCall::CreateItemForWindow);
    assert(calls[3] == PlatformCall::ReadItemSize);
    assert(calls[4] == PlatformCall::CreateD3d11Device);
    assert(calls[5] == PlatformCall::TakeD3d11Device);
    assert(calls[6] == PlatformCall::TakeD3d11Context);
    assert(calls[7] == PlatformCall::CastDxgiDevice);
    assert(calls[8] == PlatformCall::CreateWinrtDevice);
    assert(calls[9] == PlatformCall::CastWinrtDevice);
    assert(calls[10] == PlatformCall::CreateFramePool);
    assert(calls[11] == PlatformCall::CreateCaptureSession);
    assert(calls[12] == PlatformCall::DisableCursorCapture);
    assert(calls[13] == PlatformCall::DisableCaptureBorder);
    assert(calls[14] == PlatformCall::StartCapture);
    assert(calls[15] == PlatformCall::TryGetNextFrame);
    assert(calls[16] == PlatformCall::ReadContentSize);
    assert(calls[17] == PlatformCall::ReadSurface);
    assert(calls[18] == PlatformCall::CastSurfaceAccess);
    assert(calls[19] == PlatformCall::GetCapturedWindowTexture);
    assert(calls[20] == PlatformCall::CreateTexture);
    assert(calls[21] == PlatformCall::TakeTexture);
    assert(calls[22] == PlatformCall::CastDxgiResource);
    assert(calls[23] == PlatformCall::CreateSharedHandle);
    assert(calls[24] == PlatformCall::BorrowTexture);
    assert(calls[25] == PlatformCall::CopyCapture);
    assert(calls[26] == PlatformCall::CloseFrame);
    assert(calls[27] == PlatformCall::CloseCaptureSession);
    assert(calls[28] == PlatformCall::CloseFramePool);
    crate::platform_call::earlier_call_comes_before(calls, 0, 1);
    crate::platform_call::earlier_call_comes_before(calls, 1, 2);
    crate::platform_call::earlier_call_comes_before(calls, 2, 3);
    crate::platform_call::earlier_call_comes_before(calls, 3, 10);
    crate::platform_call::earlier_call_comes_before(calls, 4, 5);
    crate::platform_call::earlier_call_comes_before(calls, 4, 6);
    crate::platform_call::earlier_call_comes_before(calls, 5, 7);
    crate::platform_call::earlier_call_comes_before(calls, 7, 8);
    crate::platform_call::earlier_call_comes_before(calls, 8, 9);
    crate::platform_call::earlier_call_comes_before(calls, 9, 10);
    crate::platform_call::earlier_call_comes_before(calls, 10, 11);
    crate::platform_call::earlier_call_comes_before(calls, 11, 12);
    crate::platform_call::earlier_call_comes_before(calls, 12, 14);
    crate::platform_call::earlier_call_comes_before(calls, 13, 14);
    crate::platform_call::earlier_call_comes_before(calls, 14, 15);
    crate::platform_call::earlier_call_comes_before(calls, 15, 16);
    crate::platform_call::earlier_call_comes_before(calls, 15, 17);
    crate::platform_call::earlier_call_comes_before(calls, 17, 18);
    crate::platform_call::earlier_call_comes_before(calls, 18, 19);
    crate::platform_call::earlier_call_comes_before(calls, 16, 20);
    crate::platform_call::earlier_call_comes_before(calls, 20, 21);
    crate::platform_call::earlier_call_comes_before(calls, 21, 22);
    crate::platform_call::earlier_call_comes_before(calls, 22, 23);
    crate::platform_call::earlier_call_comes_before(calls, 19, 24);
    crate::platform_call::earlier_call_comes_before(calls, 24, 25);
    crate::platform_call::earlier_call_comes_before(calls, 21, 25);
    crate::platform_call::earlier_call_comes_before(calls, 25, 26);
    crate::platform_call::earlier_call_comes_before(calls, 26, 27);
    crate::platform_call::earlier_call_comes_before(calls, 27, 28);
}

/// A probe makes a device before a frame pool on it, and a copied capture has its
/// texture before it is copied.
pub proof fn probe_makes_before_it_uses(calls: Seq<PlatformCall>, copying: Seq<PlatformCall>)
    requires
        calls == probe_calls(),
        copying == shared_texture_calls() + copy_calls(),
    ensures
        calls.no_duplicates(),
        calls.len() == 7,
        crate::platform_call::comes_before(
            calls,
            PlatformCall::CreateD3d11Device,
            PlatformCall::TakeD3d11Device,
        ),
        crate::platform_call::comes_before(
            calls,
            PlatformCall::CreateD3d11Device,
            PlatformCall::TakeD3d11Context,
        ),
        crate::platform_call::comes_before(
            calls,
            PlatformCall::TakeD3d11Device,
            PlatformCall::CastDxgiDevice,
        ),
        crate::platform_call::comes_before(
            calls,
            PlatformCall::CastDxgiDevice,
            PlatformCall::CreateWinrtDevice,
        ),
        crate::platform_call::comes_before(
            calls,
            PlatformCall::CreateWinrtDevice,
            PlatformCall::CastWinrtDevice,
        ),
        crate::platform_call::comes_before(
            calls,
            PlatformCall::CastWinrtDevice,
            PlatformCall::CreateFramePool,
        ),
        copying.len() == 6,
        crate::platform_call::comes_before(
            copying,
            PlatformCall::CreateTexture,
            PlatformCall::TakeTexture,
        ),
        crate::platform_call::comes_before(
            copying,
            PlatformCall::TakeTexture,
            PlatformCall::CastDxgiResource,
        ),
        crate::platform_call::comes_before(
            copying,
            PlatformCall::CastDxgiResource,
            PlatformCall::CreateSharedHandle,
        ),
        crate::platform_call::comes_before(
            copying,
            PlatformCall::TakeTexture,
            PlatformCall::CopyCapture,
        ),
        crate::platform_call::comes_before(
            copying,
            PlatformCall::BorrowTexture,
            PlatformCall::CopyCapture,
        ),
{
    assert(calls[0] == PlatformCall::CreateD3d11Device);
    assert(calls[1] == PlatformCall::TakeD3d11Device);
    assert(calls[2] == PlatformCall::TakeD3d11Context);
    assert(calls[3] == PlatformCall::CastDxgiDevice);
    assert(calls[4] == PlatformCall::CreateWinrtDevice);
    assert(calls[5] == PlatformCall::CastWinrtDevice);
    assert(calls[6] == PlatformCall::CreateFramePool);
    crate::platform_call::earlier_call_comes_before(calls, 0, 1);
    crate::platform_call::earlier_call_comes_before(calls, 0, 2);
    crate::platform_call::earlier_call_comes_before(calls, 1, 3);
    crate::platform_call::earlier_call_comes_before(calls, 3, 4);
    crate::platform_call::earlier_call_comes_before(calls, 4, 5);
    crate::platform_call::earlier_call_comes_before(calls, 5, 6);
    assert(copying[0] == PlatformCall::CreateTexture);
    assert(copying[1] == PlatformCall::TakeTexture);
    assert(copying[2] == PlatformCall::CastDxgiResource);
    assert(copying[3] == PlatformCall::CreateSharedHandle);
    assert(copying[4] == PlatformCall::BorrowTexture);
    assert(copying[5] == PlatformCall::CopyCapture);
    crate::platform_call::earlier_call_comes_before(copying, 0, 1);
    crate::platform_call::earlier_call_comes_before(copying, 1, 2);
    crate::platform_call::earlier_call_comes_before(copying, 2, 3);
    crate::platform_call::earlier_call_comes_before(copying, 1, 5);
    crate::platform_call::earlier_call_comes_before(copying, 4, 5);
}

/// Where the session cannot capture, a probe tries nothing and finds nothing created;
/// where it can, everything is found created once all has been tried.
pub proof fn probe_finds_what_was_tried(
    supported: bool,
    begun: GraphicsCaptureProbeWork,
    done: &GraphicsCaptureProbeWork,
    found: GraphicsCaptureProbe,
)
    requires
        call_ensures(
            probe_graphics_capture_prerequisites,
            (Ok::<bool, String>(supported),),
            Ok::<GraphicsCaptureProbeWork, WryWebSurfaceError>(begun),
        ),
        done.session_supported() == begun.session_supported(),
        call_ensures(GraphicsCaptureProbeWork::finish, (done,), Some(found)),
    ensures
        !supported ==> begun.sequence().calls().len() == 0,
        supported ==> begun.sequence().calls().len() > 0,
        found.session_supported == supported,
        found.winrt_d3d_device_created == supported,
        found.free_threaded_frame_pool_created == supported,
{
}

/// A wait for a window's frame lasts as long as was given from the start of the session
/// on: an empty pool is looked into again before that, and after it the capture is
/// closed and ends in the failure.
pub proof fn window_is_waited_for_until_the_deadline(
    starting: &mut WindowCapture,
    started: &CallReply,
    start_ms: u64,
    waiting: &mut WindowCapture,
    reply: &CallReply,
    now_ms: u64,
    r: Result<(), WryWebSurfaceError>,
)
    requires
        starting.sequence().spec_current() == Some(PlatformCall::StartCapture),
        started is Done,
        start_ms + starting.timeout_ms() <= u64::MAX,
        call_ensures(
            WindowCapture::report,
            (starting, started, start_ms),
            Ok::<(), WryWebSurfaceError>(()),
        ),
        waiting.deadline_ms() == final(starting).deadline_ms(),
        waiting.sequence().spec_current() == Some(PlatformCall::TryGetNextFrame),
        waiting.failure() is None,
        reply is Failed || reply is Done,
        call_ensures(WindowCapture::report, (waiting, reply, now_ms), r),
    ensures
        r is Ok,
        reply is Failed && now_ms < start_ms + old(starting).timeout_ms() ==> *final(waiting)
            == *old(waiting),
        reply is Failed && now_ms >= start_ms + old(starting).timeout_ms()
            ==> final(waiting).failure() is Some && final(waiting).sequence().calls() == seq![
            PlatformCall::CloseCaptureSession,
            PlatformCall::CloseFramePool,
        ],
        reply is Done ==> final(waiting).failure() is None && final(waiting).sequence().done()
            == old(waiting).sequence().done() + 1,
{
}

/// A handle is closed exactly if there is one, and a window is captured exactly if there
/// is one.
pub proof fn null_handles_are_left_alone(
    handle: u64,
    closing: CallSequence,
    timeout_ms: u64,
    capture: Result<WindowCapture, WryWebSurfaceError>,
)
    requires
        call_ensures(close_shared_handle, (handle,), closing),
        call_ensures(capture_window_frame_once, (handle, timeout_ms), capture),
    ensures
        handle == 0 <==> closing.calls().len() == 0,
        handle != 0 ==> closing.calls() == seq![PlatformCall::CloseHandle],
        handle != 0 <==> capture is Ok,
        capture matches Ok(begun) ==> begun.window() == handle && begun.timeout_ms() == timeout_ms,
{
}

} // verus!

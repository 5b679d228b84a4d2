//! Import of Servo's surfman surfaces, and the rendering context that Servo
//! draws into.

use vstd::prelude::*;

use crate::error::InteropError;
use crate::geometry::{PhysicalSize, SignedSize};
use crate::interop::{
    HalApis, HalTextureRequest, HostWgpuContext, ImportOptions, ImportProgress, ImportedTexture,
    NativeFrame, OpenedTexture, TextureImporter, WgpuTextureImporter,
};
use crate::platform::TargetPlatform;
use crate::texture::RgbaImage;

verus! {

/// `surfman::Error`, carried through unread.
#[verifier::external_type_specification]
#[verifier::external_body]
pub struct ExSurfmanError(surfman::Error);

/// An imported frame, and the surface that it was imported from. `S` is the
/// surface type of the platform.
#[derive(Debug)]
pub struct ImportedSurfmanSurface<S> {
    pub imported_texture: ImportedTexture,
    pub surface: S,
}

/// Why the import of a surface failed.
#[derive(Debug)]
pub enum SurfmanSurfaceImportError {
    /// Binding the surface failed.
    BindSurface(surfman::Error),
    /// Making the context current failed.
    MakeCurrent(surfman::Error),
    /// Acquiring the frame failed.
    AcquireFrame(InteropError),
    /// Importing the frame failed.
    ImportFrame(InteropError),
    /// Unbinding the surface failed.
    UnbindSurface(surfman::Error),
    /// No surface came back from the import.
    MissingSurfaceAfterImport,
}

impl SurfmanSurfaceImportError {
    /// What a reader is shown of this error.
    pub open spec fn spec_message(&self) -> &'static str {
        match self {
            SurfmanSurfaceImportError::BindSurface(_) => "failed to bind surfman surface",
            SurfmanSurfaceImportError::MakeCurrent(_) => "failed to make surfman context current",
            SurfmanSurfaceImportError::AcquireFrame(_) =>
                "failed to acquire frame from surfman context",
            SurfmanSurfaceImportError::ImportFrame(_) => "failed to import frame into wgpu",
            SurfmanSurfaceImportError::UnbindSurface(_) => "failed to unbind surfman surface",
            SurfmanSurfaceImportError::MissingSurfaceAfterImport =>
                "import completed without returning a surfman surface",
        }
    }

    /// What a reader is shown of this error.
    #[verifier::when_used_as_spec(spec_message)]
    pub fn message(&self) -> (r: &'static str)
        ensures
            r == self.message(),
    {
        match self {
            SurfmanSurfaceImportError::BindSurface(_) => "failed to bind surfman surface",
            SurfmanSurfaceImportError::MakeCurrent(_) => "failed to make surfman context current",
            SurfmanSurfaceImportError::AcquireFrame(_) =>
                "failed to acquire frame from surfman context",
            SurfmanSurfaceImportError::ImportFrame(_) => "failed to import frame into wgpu",
            SurfmanSurfaceImportError::UnbindSurface(_) => "failed to unbind surfman surface",
            SurfmanSurfaceImportError::MissingSurfaceAfterImport =>
                "import completed without returning a surfman surface",
        }
    }
}

/// A failed import, with the surface as far as it could be recovered.
#[derive(Debug)]
pub struct SurfmanSurfaceImportFailure<S> {
    error: SurfmanSurfaceImportError,
    surface: Option<S>,
}

impl<S> SurfmanSurfaceImportFailure<S> {
    /// Why the import failed.
    pub closed spec fn spec_error(&self) -> &SurfmanSurfaceImportError {
        &self.error
    }

    /// The surface, where it could be recovered.
    pub closed spec fn spec_surface(&self) -> Option<S> {
        self.surface
    }

    /// Why the import failed.
    #[verifier::when_used_as_spec(spec_error)]
    pub fn error(&self) -> (r: &SurfmanSurfaceImportError)
        ensures
            r == self.error(),
    {
        &self.error
    }

    /// Why the import failed, and the surface where it could be recovered.
    pub fn into_parts(self) -> (r: (SurfmanSurfaceImportError, Option<S>))
        ensures
            r.0 == *self.error(),
            r.1 == self.spec_surface(),
    {
        (self.error, self.surface)
    }
}

/// Imports surfman surfaces into a host device.
pub struct SurfmanSurfaceImporter {
    importer: WgpuTextureImporter,
}

impl SurfmanSurfaceImporter {
    /// The importer of the frames.
    pub closed spec fn spec_importer(&self) -> &WgpuTextureImporter {
        &self.importer
    }

    /// An importer for a device on `platform` that answered to `apis`.
    pub fn new(
        device: wgpu::Device,
        queue: wgpu::Queue,
        platform: TargetPlatform,
        apis: HalApis,
    ) -> (r: Self)
        ensures
            r.importer().spec_host().device == device,
            r.importer().spec_host().queue == queue,
            r.importer().spec_host().backend == crate::interop::backend_of(platform, apis),
            r.importer().takes_implicit_only(),
    {
        SurfmanSurfaceImporter {
            importer: WgpuTextureImporter::new(
                HostWgpuContext::new(device, queue, platform, apis),
            ),
        }
    }

    /// The importer of the frames.
    #[verifier::when_used_as_spec(spec_importer)]
    pub fn importer(&self) -> (r: &WgpuTextureImporter)
        ensures
            r == self.importer(),
    {
        &self.importer
    }

    /// Begins to import a surface that surfman reports to have the given size.
    pub fn import_surface(
        &self,
        surface_size: SignedSize,
        options: &ImportOptions,
        platform: TargetPlatform,
    ) -> (r: SurfaceImport)
        ensures
            r.valid(),
            r.size() == surface_size.unsigned(),
            r.options() == *options,
            r.platform() == platform,
            r.step() is BindSurface,
    {
        SurfaceImport {
            size: surface_size.unsigned(),
            options: *options,
            platform,
            step: SurfaceImportStep::BindSurface,
            outcome: None,
        }
    }

    /// Begins to import a surface with the default options.
    pub fn import_surface_default(&self, surface_size: SignedSize, platform: TargetPlatform) -> (r:
        SurfaceImport)
        ensures
            r.valid(),
            r.size() == surface_size.unsigned(),
            !r.options().allow_copy_fallback,
            r.options().normalize_origin,
            r.options().normalize_format,
            r.platform() == platform,
            r.step() is BindSurface,
    {
        self.import_surface(surface_size, &ImportOptions::default(), platform)
    }
}

/// What a [`SurfaceImport`] asks of its caller.
#[derive(Clone, Copy, Debug)]
pub enum SurfaceImportStep {
    /// Bind the surface to the context.
    BindSurface,
    /// Make the context current.
    MakeCurrent,
    /// Acquire the frame that the surface holds.
    AcquireFrame,
    /// Open this resource in the host device.
    Open(HalTextureRequest),
    /// Unbind the surface from the context.
    UnbindSurface,
    /// Nothing is left to do.
    Finish,
}

/// What came of a [`SurfaceImportStep`].
pub enum SurfaceImportReply<S> {
    /// It succeeded.
    Done,
    /// Surfman failed.
    SurfmanFailed(surfman::Error),
    /// This frame has been acquired.
    Frame(NativeFrame),
    /// Acquiring the frame failed.
    FrameFailed(InteropError),
    /// The resource has been asked for.
    Opened(OpenedTexture),
    /// The surface has been unbound, if there was one.
    Unbound(Option<S>),
}

/// Whether `reply` is of the kind that `step` gives.
pub open spec fn reply_fits<S>(step: SurfaceImportStep, reply: SurfaceImportReply<S>) -> bool {
    match step {
        SurfaceImportStep::BindSurface => reply is Done || reply is SurfmanFailed,
        SurfaceImportStep::MakeCurrent => reply is Done || reply is SurfmanFailed,
        SurfaceImportStep::AcquireFrame => reply is Frame || reply is FrameFailed,
        SurfaceImportStep::Open(_) => reply is Opened,
        SurfaceImportStep::UnbindSurface => reply is Unbound || reply is SurfmanFailed,
        SurfaceImportStep::Finish => false,
    }
}

/// The import of the frame that a surface holds.
#[derive(Debug)]
pub struct SurfaceImport {
    size: PhysicalSize,
    options: ImportOptions,
    platform: TargetPlatform,
    step: SurfaceImportStep,
    outcome: Option<Result<ImportedTexture, SurfmanSurfaceImportError>>,
}

impl SurfaceImport {
    /// The size of the surface.
    pub closed spec fn spec_size(&self) -> PhysicalSize {
        self.size
    }

    /// How the frame is imported.
    pub closed spec fn options(&self) -> ImportOptions {
        self.options
    }

    /// The platform that the import runs on.
    pub closed spec fn platform(&self) -> TargetPlatform {
        self.platform
    }

    /// What to do next.
    pub closed spec fn spec_step(&self) -> SurfaceImportStep {
        self.step
    }

    /// What the import has come to, while the surface is still bound.
    pub closed spec fn outcome(&self) -> Option<Result<ImportedTexture, SurfmanSurfaceImportError>> {
        self.outcome
    }

    /// What the import has come to is known exactly while the surface is being
    /// unbound.
    pub open spec fn valid(&self) -> bool {
        self.outcome() is Some <==> self.step() is UnbindSurface
    }

    /// Everything but the step and the outcome is as it was in `before`.
    pub open spec fn keeps(&self, before: &SurfaceImport) -> bool {
        &&& self.size() == before.size()
        &&& self.options() == before.options()
        &&& self.platform() == before.platform()
    }

    /// Whether the surface is unbound next, after the import has come to
    /// `outcome`.
    pub open spec fn unbinds_with(
        &self,
        outcome: Result<ImportedTexture, SurfmanSurfaceImportError>,
    ) -> bool {
        &&& self.step() is UnbindSurface
        &&& self.outcome() == Some(outcome)
    }

    /// Whether the state is where `progress` leads to.
    pub open spec fn follows(&self, progress: ImportProgress) -> bool {
        match progress {
            ImportProgress::Open(request) => self.step() == SurfaceImportStep::Open(request),
            ImportProgress::Finished(Ok(texture)) => self.unbinds_with(Ok(texture)),
            ImportProgress::Finished(Err(error)) => self.unbinds_with(
                Err(SurfmanSurfaceImportError::ImportFrame(error)),
            ),
        }
    }

    /// The size of the surface, which the frame is acquired in.
    #[verifier::when_used_as_spec(spec_size)]
    pub fn size(&self) -> (r: PhysicalSize)
        ensures
            r == self.size(),
    {
        self.size
    }

    /// What to do next.
    #[verifier::when_used_as_spec(spec_step)]
    pub fn step(&self) -> (r: SurfaceImportStep)
        ensures
            r == self.step(),
    {
        self.step
    }

    /// Reports what came of the step that was due. Returns the end of the import
    /// once nothing is left to do.
    ///
    /// A surface that was bound is unbound again, whatever the import has come to,
    /// and goes back to the caller if that works. A failure to unbind counts only
    /// where the import has not failed before.
    pub fn report<S>(
        &mut self,
        importer: &SurfmanSurfaceImporter,
        reply: SurfaceImportReply<S>,
    ) -> (r: Option<Result<ImportedSurfmanSurface<S>, SurfmanSurfaceImportFailure<S>>>)
        requires
            old(self).valid(),
            reply_fits(old(self).step(), reply),
        ensures
            final(self).valid(),
            final(self).keeps(old(self)),
            r is Some <==> final(self).step() is Finish,
            match old(self).step() {
                SurfaceImportStep::BindSurface => match reply {
                    SurfaceImportReply::SurfmanFailed(error) => {
                        &&& r matches Some(Err(failure))
                        &&& *failure.error() == SurfmanSurfaceImportError::BindSurface(error)
                        &&& failure.spec_surface() is None
                    },
                    _ => final(self).step() is MakeCurrent,
                },
                SurfaceImportStep::MakeCurrent => match reply {
                    SurfaceImportReply::SurfmanFailed(error) => final(self).unbinds_with(
                        Err(SurfmanSurfaceImportError::MakeCurrent(error)),
                    ),
                    _ => final(self).step() is AcquireFrame,
                },
                SurfaceImportStep::AcquireFrame => match reply {
                    SurfaceImportReply::Frame(frame) => exists|progress: ImportProgress| #[trigger]
                        importer.importer().may_import(
                            &frame,
                            &old(self).options(),
                            old(self).platform(),
                            progress,
                        ) && final(self).follows(progress),
                    _ => final(self).unbinds_with(
                        Err(SurfmanSurfaceImportError::AcquireFrame(reply->FrameFailed_0)),
                    ),
                },
                SurfaceImportStep::Open(request) => exists|
                    result: Result<ImportedTexture, InteropError>,
                | #[trigger]
                    importer.importer().may_resume(request, reply->Opened_0, result) && final(self).follows(ImportProgress::Finished(result)),
                SurfaceImportStep::UnbindSurface => match (old(self).outcome()->0, reply) {
                    (Err(error), _) => {
                        &&& r matches Some(Err(failure))
                        &&& *failure.error() == error
                        &&& failure.spec_surface() == (match reply {
                            SurfaceImportReply::Unbound(surface) => surface,
                            _ => None,
                        })
                    },
                    (Ok(texture), SurfaceImportReply::Unbound(Some(surface))) => {
                        &&& r matches Some(Ok(imported))
                        &&& imported.imported_texture == texture
                        &&& imported.surface == surface
                    },
                    (Ok(_), _) => {
                        &&& r matches Some(Err(failure))
                        &&& *failure.error() == (match reply {
                            SurfaceImportReply::SurfmanFailed(error) =>
                                SurfmanSurfaceImportError::UnbindSurface(error),
                            _ => SurfmanSurfaceImportError::MissingSurfaceAfterImport,
                        })
                        &&& failure.spec_surface() is None
                    },
                },
                SurfaceImportStep::Finish => true,
            },
    {
        match self.step {
            SurfaceImportStep::BindSurface => match reply {
                SurfaceImportReply::SurfmanFailed(error) => {
                    self.step = SurfaceImportStep::Finish;
                    Some(
                        Err(
                            SurfmanSurfaceImportFailure {
                                error: SurfmanSurfaceImportError::BindSurface(error),
                                surface: None,
                            },
                        ),
                    )
                },
                _ => {
                    self.step = SurfaceImportStep::MakeCurrent;
                    None
                },
            },
            SurfaceImportStep::MakeCurrent => {
                match reply {
                    SurfaceImportReply::SurfmanFailed(error) => {
                        self.unbind_with(Err(SurfmanSurfaceImportError::MakeCurrent(error)));
                    },
                    _ => {
                        self.step = SurfaceImportStep::AcquireFrame;
                    },
                }
                None
            },
            SurfaceImportStep::AcquireFrame => {
                match reply {
                    SurfaceImportReply::Frame(frame) => {
                        let progress = importer.importer.import_frame(
                            &frame,
                            &self.options,
                            self.platform,
                        );
                        assert(importer.importer().may_import(
                            &frame,
                            &old(self).options(),
                            old(self).platform(),
                            progress,
                        ));
                        self.follow(progress);
                    },
                    SurfaceImportReply::FrameFailed(error) => {
                        self.unbind_with(Err(SurfmanSurfaceImportError::AcquireFrame(error)));
                    },
                    _ => {},
                }
                None
            },
            SurfaceImportStep::Open(request) => {
                match reply {
                    SurfaceImportReply::Opened(opened) => {
                        let result = importer.importer.resume_import(request, opened);
                        assert(importer.importer().may_resume(request, opened, result));
                        self.follow(ImportProgress::Finished(result));
                    },
                    _ => {},
                }
                None
            },
            _ => {
                self.step = SurfaceImportStep::Finish;
                match self.outcome.take() {
                    Some(Ok(imported_texture)) => Some(
                        match reply {
                            SurfaceImportReply::Unbound(Some(surface)) => Ok(
                                ImportedSurfmanSurface { imported_texture, surface },
                            ),
                            SurfaceImportReply::SurfmanFailed(error) => Err(
                                SurfmanSurfaceImportFailure {
                                    error: SurfmanSurfaceImportError::UnbindSurface(error),
                                    surface: None,
                                },
                            ),
                            _ => Err(
                                SurfmanSurfaceImportFailure {
                                    error: SurfmanSurfaceImportError::MissingSurfaceAfterImport,
                                    surface: None,
                                },
                            ),
                        },
                    ),
                    Some(Err(error)) => {
                        let surface = match reply {
                            SurfaceImportReply::Unbound(surface) => surface,
                            _ => None,
                        };
                        Some(Err(SurfmanSurfaceImportFailure { error, surface }))
                    },
                    None => None,
                }
            },
        }
    }

    fn unbind_with(&mut self, outcome: Result<ImportedTexture, SurfmanSurfaceImportError>)
        ensures
            final(self).valid(),
            final(self).keeps(old(self)),
            final(self).unbinds_with(outcome),
    {
        self.outcome = Some(outcome);
        self.step = SurfaceImportStep::UnbindSurface;
    }

    fn follow(&mut self, progress: ImportProgress)
        requires
            old(self).outcome() is None,
        ensures
            final(self).valid(),
            final(self).keeps(old(self)),
            final(self).follows(progress),
    {
        match progress {
            ImportProgress::Open(request) => {
                self.step = SurfaceImportStep::Open(request);
            },
            ImportProgress::Finished(Ok(texture)) => {
                self.unbind_with(Ok(texture));
            },
            ImportProgress::Finished(Err(error)) => {
                self.unbind_with(Err(SurfmanSurfaceImportError::ImportFrame(error)));
            },
        }
    }
}

/// A rectangle of pixels to read back.
#[derive(Clone, Copy, Debug, PartialEq, Eq, Structural)]
pub struct FrameRegion {
    pub x: i32,
    pub y: i32,
    pub width: i32,
    pub height: i32,
}

/// The whole of a frame of the given size.
pub open spec fn full_region(size: PhysicalSize) -> FrameRegion {
    FrameRegion { x: 0, y: 0, width: size.signed().width, height: size.signed().height }
}

/// The rendering context that Servo draws into, as far as it is known without
/// its GL objects: its size.
#[derive(Debug)]
pub struct ServoWgpuRenderingContext {
    size: PhysicalSize,
}

impl ServoWgpuRenderingContext {
    /// The size of the context.
    pub closed spec fn spec_size(&self) -> PhysicalSize {
        self.size
    }

    /// A context of the given size.
    pub fn new(size: PhysicalSize) -> (r: Self)
        ensures
            r.size() == size,
    {
        ServoWgpuRenderingContext { size }
    }

    /// The size of the context.
    #[verifier::when_used_as_spec(spec_size)]
    pub fn size(&self) -> (r: PhysicalSize)
        ensures
            r == self.size(),
    {
        self.size
    }

    /// The size of the surface that the context is created with.
    pub fn surface_size(&self) -> (r: SignedSize)
        ensures
            r == self.size().signed(),
    {
        self.size.signed()
    }

    /// Resizes the context, after a window resize for example. Returns the size
    /// to give to the swap chain, if it changes.
    pub fn resize_viewport(&mut self, size: PhysicalSize) -> (r: Option<SignedSize>)
        ensures
            final(self).size() == size,
            r == (if size == old(self).size() {
                None
            } else {
                Some(size.signed())
            }),
    {
        if self.size == size {
            return None;
        }
        self.size = size;
        Some(size.signed())
    }

    /// The region to read back for the whole current frame.
    pub fn read_full_frame(&self) -> (r: FrameRegion)
        ensures
            r == full_region(self.size()),
    {
        let size = self.size.signed();
        FrameRegion { x: 0, y: 0, width: size.width, height: size.height }
    }
}

/// A rendering context that keeps a CPU copy of each frame from just before it is
/// presented, the only point where the rendered back buffer is still bound.
#[derive(Debug)]
pub struct CapturingRenderingContext {
    inner: ServoWgpuRenderingContext,
    last_frame: Option<RgbaImage>,
}

/// What a [`Presentation`] asks of its caller.
#[derive(Clone, Copy, Debug, PartialEq, Eq, Structural)]
pub enum PresentStep {
    /// Take the next pending GL error.
    PollGlError,
    /// Read this region of the back buffer.
    ReadFrame(FrameRegion),
    /// Swap the buffers.
    SwapBuffers,
    /// Nothing is left to do.
    Finish,
}

/// A frame that is being presented.
#[derive(Clone, Copy, Debug, PartialEq, Eq, Structural)]
pub struct Presentation {
    pub step: PresentStep,
}

/// The GL error code that says that no error is pending.
pub const GL_NO_ERROR: u32 = 0;

impl CapturingRenderingContext {
    /// The context that is presented.
    pub closed spec fn inner(&self) -> &ServoWgpuRenderingContext {
        &self.inner
    }

    /// The frame that was captured last and has not been taken.
    pub closed spec fn last_frame(&self) -> Option<RgbaImage> {
        self.last_frame
    }

    /// A context that has not captured anything yet.
    pub fn new(inner: ServoWgpuRenderingContext) -> (r: Self)
        ensures
            *r.inner() == inner,
            r.last_frame() is None,
    {
        CapturingRenderingContext { inner, last_frame: None }
    }

    /// Takes the frame that was captured last: without a new presentation there
    /// is none the next time.
    pub fn take_frame(&mut self) -> (r: Option<RgbaImage>)
        ensures
            r == old(self).last_frame(),
            final(self).last_frame() is None,
            final(self).inner() == old(self).inner(),
    {
        self.last_frame.take()
    }

    /// The size of the context.
    pub fn size(&self) -> (r: PhysicalSize)
        ensures
            r == self.inner().size(),
    {
        self.inner.size()
    }

    /// Resizes the context. Returns the size to give to the swap chain, if it
    /// changes.
    pub fn resize(&mut self, size: PhysicalSize) -> (r: Option<SignedSize>)
        ensures
            final(self).inner().size() == size,
            final(self).last_frame() == old(self).last_frame(),
            r == (if size == old(self).inner().size() {
                None
            } else {
                Some(size.signed())
            }),
    {
        self.inner.resize_viewport(size)
    }

    /// Begins to present the rendered frame. Errors that rendering has left
    /// behind are taken first: a pending error would make the read fail.
    pub fn present(&self) -> (r: Presentation)
        ensures
            r.step is PollGlError,
    {
        Presentation { step: PresentStep::PollGlError }
    }

    /// Reports the GL error that was pending. Once none is, the whole frame is
    /// read.
    pub fn gl_error_polled(&self, presentation: &mut Presentation, error: u32)
        requires
            old(presentation).step is PollGlError,
        ensures
            final(presentation).step == (if error == GL_NO_ERROR {
                PresentStep::ReadFrame(full_region(self.inner().size()))
            } else {
                PresentStep::PollGlError
            }),
    {
        if error == GL_NO_ERROR {
            presentation.step = PresentStep::ReadFrame(self.inner.read_full_frame());
        }
    }

    /// Reports what was read. It replaces the frame that was captured before,
    /// even if nothing could be read.
    pub fn frame_read(&mut self, presentation: &mut Presentation, frame: Option<RgbaImage>)
        requires
            old(presentation).step is ReadFrame,
        ensures
            final(self).inner() == old(self).inner(),
            final(self).last_frame() == frame,
            final(presentation).step is SwapBuffers,
    {
        self.last_frame = frame;
        presentation.step = PresentStep::SwapBuffers;
    }

    /// Reports that the buffers have been swapped.
    pub fn swapped(&self, presentation: &mut Presentation)
        requires
            old(presentation).step is SwapBuffers,
        ensures
            final(presentation).step is Finish,
    {
        presentation.step = PresentStep::Finish;
    }
}

/// Servo's rendering context together with the importer of its frames.
pub struct ServoWgpuInteropAdapter {
    importer: WgpuTextureImporter,
    rendering_context: ServoWgpuRenderingContext,
}

impl ServoWgpuInteropAdapter {
    /// The importer of the frames.
    pub closed spec fn spec_importer(&self) -> &WgpuTextureImporter {
        &self.importer
    }

    /// The context that Servo draws into.
    pub closed spec fn context(&self) -> &ServoWgpuRenderingContext {
        &self.rendering_context
    }

    /// An adapter of the given size, for a device on `platform` that answered to
    /// `apis`.
    pub fn new(
        device: wgpu::Device,
        queue: wgpu::Queue,
        size: PhysicalSize,
        platform: TargetPlatform,
        apis: HalApis,
    ) -> (r: Self)
        ensures
            r.importer().spec_host().device == device,
            r.importer().spec_host().queue == queue,
            r.importer().spec_host().backend == crate::interop::backend_of(platform, apis),
            r.importer().takes_implicit_only(),
            r.context().size() == size,
    {
        ServoWgpuInteropAdapter {
            importer: WgpuTextureImporter::new(
                HostWgpuContext::new(device, queue, platform, apis),
            ),
            rendering_context: ServoWgpuRenderingContext::new(size),
        }
    }

    /// The context that Servo draws into.
    pub fn rendering_context_handle(&mut self) -> (r: &mut ServoWgpuRenderingContext)
        ensures
            *r == *old(self).context(),
            *final(self).context() == *final(r),
            final(self).importer() == old(self).importer(),
    {
        &mut self.rendering_context
    }

    /// Imports the frame that was acquired from the context.
    pub fn import_current_frame(
        &self,
        frame: Result<NativeFrame, InteropError>,
        options: &ImportOptions,
        platform: TargetPlatform,
    ) -> (r: ImportProgress)
        ensures
            match frame {
                Ok(acquired) => self.importer().may_import(&acquired, options, platform, r),
                Err(error) => r == ImportProgress::Finished(Err(error)),
            },
    {
        match frame {
            Ok(acquired) => self.importer.import_frame(&acquired, options, platform),
            Err(error) => ImportProgress::Finished(Err(error)),
        }
    }

    /// Imports the frame that was acquired from the context, with the default
    /// options.
    pub fn import_current_frame_default(
        &self,
        frame: Result<NativeFrame, InteropError>,
        platform: TargetPlatform,
    ) -> (r: ImportProgress)
        ensures
            match frame {
                Ok(acquired) => self.importer().may_import(
                    &acquired,
                    &(ImportOptions {
                        allow_copy_fallback: false,
                        normalize_origin: true,
                        normalize_format: true,
                    }),
                    platform,
                    r,
                ),
                Err(error) => r == ImportProgress::Finished(Err(error)),
            },
    {
        self.import_current_frame(frame, &ImportOptions::default(), platform)
    }

    /// The importer of the frames.
    #[verifier::when_used_as_spec(spec_importer)]
    pub fn importer(&self) -> (r: &WgpuTextureImporter)
        ensures
            r == self.importer(),
    {
        &self.importer
    }
}

/// Reading a frame back covers it: for a context whose sides fit into signed
/// numbers, a pixel lies in the region that is read exactly if it is a pixel of the
/// context.
pub proof fn whole_frame_is_read(
    context: &ServoWgpuRenderingContext,
    region: FrameRegion,
    x: int,
    y: int,
)
    requires
        context.size().width <= i32::MAX,
        context.size().height <= i32::MAX,
        call_ensures(ServoWgpuRenderingContext::read_full_frame, (context,), region),
    ensures
        region.x <= x < region.x + region.width && region.y <= y < region.y + region.height
            <==> 0 <= x < context.size().width && 0 <= y < context.size().height,
{
}

/// A context keeps the size that it is given: the surface is created with it, and the
/// swap chain is told of another size exactly if that is another.
pub proof fn context_takes_its_size_over(
    size: PhysicalSize,
    created: &ServoWgpuRenderingContext,
    surface: SignedSize,
    context: &mut ServoWgpuRenderingContext,
    told: Option<SignedSize>,
)
    requires
        size.width <= i32::MAX,
        size.height <= i32::MAX,
        call_ensures(ServoWgpuRenderingContext::new, (size,), *created),
        call_ensures(ServoWgpuRenderingContext::surface_size, (created,), surface),
        call_ensures(ServoWgpuRenderingContext::resize_viewport, (context, size), told),
    ensures
        created.size() == size,
        surface.width == size.width,
        surface.height == size.height,
        final(context).size() == size,
        told is None <==> old(context).size() == size,
        told matches Some(signed) ==> signed.width == size.width && signed.height == size.height,
{
}

/// Frames are captured whole: once no GL error is pending, all of the context's pixels
/// are read, and as long as one is, nothing is.
pub proof fn frame_is_captured_whole(
    context: &CapturingRenderingContext,
    presentation: &mut Presentation,
    error: u32,
    x: int,
    y: int,
)
    requires
        context.inner().size().width <= i32::MAX,
        context.inner().size().height <= i32::MAX,
        presentation.step is PollGlError,
        call_ensures(
            CapturingRenderingContext::gl_error_polled,
            (context, presentation, error),
            (),
        ),
    ensures
        error != 0 ==> final(presentation).step is PollGlError,
        error == 0 ==> final(presentation).step is ReadFrame,
        final(presentation).step matches PresentStep::ReadFrame(region) ==> (region.x <= x
            < region.x + region.width && region.y <= y < region.y + region.height <==> 0 <= x
            < context.inner().size().width && 0 <= y < context.inner().size().height),
{
}

/// A captured frame is kept until it is taken, and taken once.
pub proof fn captured_frame_is_taken_once(
    reading: &mut CapturingRenderingContext,
    presentation: &mut Presentation,
    frame: Option<RgbaImage>,
    taking: &mut CapturingRenderingContext,
    taken: Option<RgbaImage>,
)
    requires
        presentation.step is ReadFrame,
        call_ensures(CapturingRenderingContext::frame_read, (reading, presentation, frame), ()),
        taking.last_frame() == final(reading).last_frame(),
        call_ensures(CapturingRenderingContext::take_frame, (taking,), taken),
    ensures
        taken == frame,
        final(taking).last_frame() is None,
        final(presentation).step is SwapBuffers,
{
}

/// A surface is imported in the size that surfman reports and with the options that
/// were given, and it is bound before anything else.
pub proof fn import_begins_with_the_surface(
    importer: &SurfmanSurfaceImporter,
    surface_size: SignedSize,
    options: &ImportOptions,
    platform: TargetPlatform,
    import: SurfaceImport,
    by_default: SurfaceImport,
)
    requires
        surface_size.width >= 0,
        surface_size.height >= 0,
        call_ensures(
            SurfmanSurfaceImporter::import_surface,
            (importer, surface_size, options, platform),
            import,
        ),
        call_ensures(
            SurfmanSurfaceImporter::import_surface_default,
            (importer, surface_size, platform),
            by_default,
        ),
    ensures
        import.size().width == surface_size.width,
        import.size().height == surface_size.height,
        import.options() == *options,
        import.platform() == platform,
        import.step() == SurfaceImportStep::BindSurface,
        import.outcome() is None,
        by_default.size() == import.size(),
        by_default.options().normalize_format && by_default.options().normalize_origin,
        by_default.step() == SurfaceImportStep::BindSurface,
{
}

/// A surface that was bound is unbound, whatever goes wrong in between: from the step
/// after binding, the import goes on until the surface is being unbound, and ends only
/// right after that. What it has come to by then is handed out.
pub proof fn bound_surface_is_unbound<S>(
    import: &mut SurfaceImport,
    importer: &SurfmanSurfaceImporter,
    reply: SurfaceImportReply<S>,
    end: Option<Result<ImportedSurfmanSurface<S>, SurfmanSurfaceImportFailure<S>>>,
)
    requires
        import.valid(),
        reply_fits(import.step(), reply),
        call_ensures(SurfaceImport::report::<S>, (import, importer, reply), end),
    ensures
        end is Some <==> {
            ||| old(import).step() is UnbindSurface
            ||| old(import).step() is BindSurface && reply is SurfmanFailed
        },
        end is Some <==> final(import).step() is Finish,
        old(import).step() is BindSurface && reply is Done ==> final(import).step() is MakeCurrent,
        old(import).step() is MakeCurrent && reply is Done ==> final(import).step() is AcquireFrame,
        old(import).step() is MakeCurrent && reply is SurfmanFailed ==> final(import).step()
            is UnbindSurface,
        old(import).step() is AcquireFrame ==> final(import).step() is UnbindSurface
            || final(import).step() is Open,
        old(import).step() is AcquireFrame && reply is FrameFailed ==> final(import).step()
            is UnbindSurface,
        old(import).step() is Open ==> final(import).step() is UnbindSurface,
{
}

/// An import that went well ends well exactly if the surface comes back, and then with
/// the texture that was imported and that surface. One that failed ends in the failure
/// that came first, and still hands the surface back where it can.
pub proof fn import_ends_in_what_came_first<S>(
    import: &mut SurfaceImport,
    importer: &SurfmanSurfaceImporter,
    reply: SurfaceImportReply<S>,
    end: Option<Result<ImportedSurfmanSurface<S>, SurfmanSurfaceImportFailure<S>>>,
)
    requires
        import.valid(),
        import.step() is UnbindSurface,
        reply is Unbound || reply is SurfmanFailed,
        call_ensures(SurfaceImport::report::<S>, (import, importer, reply), end),
    ensures
        end is Some,
        old(import).outcome() is Some,
        end->0 is Ok <==> old(import).outcome()->0 is Ok && (reply
            matches SurfaceImportReply::Unbound(surface) && surface is Some),
        end->0 matches Ok(imported) ==> {
            &&& old(import).outcome()->0 == Ok::<ImportedTexture, SurfmanSurfaceImportError>(
                imported.imported_texture,
            )
            &&& reply == SurfaceImportReply::Unbound(Some(imported.surface))
        },
        end->0 matches Err(failure) ==> match old(import).outcome()->0 {
            Err(first) => *failure.error() == first,
            Ok(_) => match reply {
                SurfaceImportReply::SurfmanFailed(cause) => *failure.error()
                    == SurfmanSurfaceImportError::UnbindSurface(cause),
                _ => failure.error() is MissingSurfaceAfterImport,
            },
        },
        reply matches SurfaceImportReply::Unbound(surface) ==> (end->0 matches Err(failure)
            ==> failure.spec_surface() == surface),
{
}

/// Where an import is left is told by what it has come to: a resource to open is
/// opened, a texture is kept as it is, and an error is kept as one of the import.
pub proof fn progress_is_followed(import: &SurfaceImport, progress: ImportProgress)
    requires
        import.follows(progress),
    ensures
        progress matches ImportProgress::Open(request) ==> import.step()
            == SurfaceImportStep::Open(request),
        progress matches ImportProgress::Finished(result) ==> {
            &&& import.step() == SurfaceImportStep::UnbindSurface
            &&& import.outcome() is Some
            &&& result matches Ok(texture) ==> import.outcome()->0 == Ok::<
                ImportedTexture,
                SurfmanSurfaceImportError,
            >(texture)
            &&& result matches Err(error) ==> import.outcome()->0 == Err::<
                ImportedTexture,
                SurfmanSurfaceImportError,
            >(SurfmanSurfaceImportError::ImportFrame(error))
        },
{
}

/// Every outcome of a step can be reported, its failure too.
pub proof fn failed_steps_can_be_reported<S>(
    cause: surfman::Error,
    error: InteropError,
    request: HalTextureRequest,
    opened: OpenedTexture,
    surface: Option<S>,
    frame: NativeFrame,
)
    ensures
        reply_fits::<S>(SurfaceImportStep::BindSurface, SurfaceImportReply::Done),
        reply_fits::<S>(SurfaceImportStep::BindSurface, SurfaceImportReply::SurfmanFailed(cause)),
        reply_fits::<S>(SurfaceImportStep::MakeCurrent, SurfaceImportReply::Done),
        reply_fits::<S>(SurfaceImportStep::MakeCurrent, SurfaceImportReply::SurfmanFailed(cause)),
        reply_fits::<S>(SurfaceImportStep::AcquireFrame, SurfaceImportReply::Frame(frame)),
        reply_fits::<S>(SurfaceImportStep::AcquireFrame, SurfaceImportReply::FrameFailed(error)),
        reply_fits::<S>(SurfaceImportStep::Open(request), SurfaceImportReply::Opened(opened)),
        reply_fits::<S>(SurfaceImportStep::UnbindSurface, SurfaceImportReply::Unbound(surface)),
        reply_fits::<S>(SurfaceImportStep::UnbindSurface, SurfaceImportReply::SurfmanFailed(cause)),
{
}

/// A frame that could not be acquired from the context ends in the error that says so,
/// and any other is imported by the adapter's own importer, normalized where nothing
/// else is asked for.
pub proof fn current_frame_is_imported(
    adapter: &ServoWgpuInteropAdapter,
    frame: Result<NativeFrame, InteropError>,
    platform: TargetPlatform,
    progress: ImportProgress,
)
    requires
        call_ensures(
            ServoWgpuInteropAdapter::import_current_frame_default,
            (adapter, frame, platform),
            progress,
        ),
    ensures
        frame matches Err(error) ==> progress == ImportProgress::Finished(Err(error)),
        progress matches ImportProgress::Open(request) ==> request.options.normalize_format
            && request.options.normalize_origin,
        progress matches ImportProgress::Finished(Ok(texture)) ==> texture.format is Rgba8Unorm
            && texture.origin is TopLeft,
{
}

/// The message of a failed import tells at which step it failed.
pub proof fn message_tells_the_step(error: &SurfmanSurfaceImportError)
    ensures
        error is BindSurface ==> error.message() == "failed to bind surfman surface",
        error is MakeCurrent ==> error.message() == "failed to make surfman context current",
        error is AcquireFrame ==> error.message() == "failed to acquire frame from surfman context",
        error is ImportFrame ==> error.message() == "failed to import frame into wgpu",
        error is UnbindSurface ==> error.message() == "failed to unbind surfman surface",
        error is MissingSurfaceAfterImport ==> error.message()
            == "import completed without returning a surfman surface",
{
}

/// An adapter and an importer of surfaces import into the device that they were given,
/// with the backend that is found on it, and wait for no semaphores.
pub proof fn frames_go_to_the_given_device(
    device: wgpu::Device,
    queue: wgpu::Queue,
    size: PhysicalSize,
    platform: TargetPlatform,
    apis: HalApis,
    adapter: ServoWgpuInteropAdapter,
    surfaces: SurfmanSurfaceImporter,
    backend: crate::interop::InteropBackend,
)
    requires
        call_ensures(
            ServoWgpuInteropAdapter::new,
            (device, queue, size, platform, apis),
            adapter,
        ),
        call_ensures(SurfmanSurfaceImporter::new, (device, queue, platform, apis), surfaces),
        call_ensures(crate::interop::detect_backend, (platform, apis), backend),
    ensures
        adapter.importer().spec_host().device == device,
        adapter.importer().spec_host().queue == queue,
        adapter.importer().spec_host().backend == backend,
        adapter.context().size() == size,
        surfaces.importer().spec_host().device == device,
        surfaces.importer().spec_host().queue == queue,
        surfaces.importer().spec_host().backend == backend,
{
}

} // verus!

//! The import of a surfman frame on Windows.
//!
//! A frame that ANGLE backs with a D3D11 texture is imported through its share
//! handle. Any other frame is imported from the framebuffer of its surface, which
//! is unbound for that time and bound again afterwards. Either way the texture is
//! normalized as the options ask.

use vstd::prelude::*;

use crate::error::InteropError;
use crate::geometry::PhysicalSize;
use crate::interop::{ImportOptions, ImportedTexture, TextureOrigin};
use crate::sync::SyncMechanism;
use crate::texture::TextureFormat;

verus! {

/// What a [`SurfmanImport`] asks of its caller.
#[derive(Clone, Copy, Debug, PartialEq, Eq, Structural)]
pub enum SurfmanStep {
    /// Make the context current, with the surface bound.
    MakeCurrent,
    /// Import the D3D11 texture behind the bound surface, which is `Bgra8Unorm`,
    /// and convert it where a format is named.
    ImportAngle { convert_to: Option<TextureFormat> },
    /// Unbind the surface from the context.
    UnbindSurface,
    /// Make the context current, with the surface unbound.
    MakeCurrentUnbound,
    /// Read which framebuffer the surface has.
    InspectSurface,
    /// Import this framebuffer of the surface.
    ImportFramebuffer { framebuffer: u32 },
    /// Bind the surface to the context again.
    RebindSurface,
    /// Destroy the surface, which could not be bound again.
    DestroySurface,
    /// Nothing is left to do.
    Finish,
}

/// What came of a [`SurfmanStep`].
#[derive(Debug)]
pub enum SurfmanReply {
    /// It succeeded.
    Done,
    /// Surfman failed, with the error that this text shows.
    Failed(String),
    /// There was no surface.
    NoSurface,
    /// The surface has this framebuffer.
    Framebuffer(Option<u32>),
    /// The import gave this texture.
    Texture(wgpu::Texture),
    /// The import failed.
    ImportFailed(InteropError),
}

/// The import of the frame that a surfman surface holds.
#[derive(Debug)]
pub struct SurfmanImport {
    frame_size: PhysicalSize,
    source_size: PhysicalSize,
    generation: u64,
    options: ImportOptions,
    step: SurfmanStep,
    imported: Option<Result<wgpu::Texture, InteropError>>,
}

/// Whether `reply` is of the kind that `step` gives.
pub open spec fn reply_fits(step: SurfmanStep, reply: SurfmanReply) -> bool {
    match step {
        SurfmanStep::MakeCurrent => reply is Done || reply is Failed,
        SurfmanStep::ImportAngle { .. } => reply is Texture || reply is ImportFailed,
        SurfmanStep::UnbindSurface => reply is Done || reply is NoSurface || reply is Failed,
        SurfmanStep::MakeCurrentUnbound => reply is Done || reply is Failed,
        SurfmanStep::InspectSurface => reply is Framebuffer,
        SurfmanStep::ImportFramebuffer { .. } => reply is Texture || reply is ImportFailed,
        SurfmanStep::RebindSurface => reply is Done || reply is Failed,
        SurfmanStep::DestroySurface => reply is Done || reply is Failed,
        SurfmanStep::Finish => false,
    }
}

/// The format that the D3D11 texture behind a surface is handed out in.
pub open spec fn angle_format(options: ImportOptions) -> TextureFormat {
    if options.normalize_format {
        TextureFormat::Rgba8Unorm
    } else {
        TextureFormat::Bgra8Unorm
    }
}

/// The step after `reply` to `step`, where the import goes on.
pub open spec fn step_after(
    options: ImportOptions,
    step: SurfmanStep,
    reply: SurfmanReply,
) -> SurfmanStep {
    match (step, reply) {
        (SurfmanStep::MakeCurrent, SurfmanReply::Done) => SurfmanStep::ImportAngle {
            convert_to: if options.normalize_format {
                Some(TextureFormat::Rgba8Unorm)
            } else {
                None
            },
        },
        (SurfmanStep::ImportAngle { .. }, SurfmanReply::ImportFailed(_)) => SurfmanStep::UnbindSurface,
        (SurfmanStep::UnbindSurface, SurfmanReply::Done) => SurfmanStep::MakeCurrentUnbound,
        (SurfmanStep::MakeCurrentUnbound, SurfmanReply::Done) => SurfmanStep::InspectSurface,
        (SurfmanStep::InspectSurface, SurfmanReply::Framebuffer(framebuffer)) => {
            SurfmanStep::ImportFramebuffer {
                framebuffer: match framebuffer {
                    Some(object) => object,
                    None => 0,
                },
            }
        },
        (SurfmanStep::ImportFramebuffer { .. }, _) => SurfmanStep::RebindSurface,
        (SurfmanStep::RebindSurface, SurfmanReply::Failed(_)) => SurfmanStep::DestroySurface,
        _ => SurfmanStep::Finish,
    }
}

impl SurfmanImport {
    /// The size that the imported texture is given.
    pub closed spec fn frame_size(&self) -> PhysicalSize {
        self.frame_size
    }

    /// The size of the surface.
    pub closed spec fn spec_source_size(&self) -> PhysicalSize {
        self.source_size
    }

    /// The generation of the frame.
    pub closed spec fn generation(&self) -> u64 {
        self.generation
    }

    /// How the frame is imported.
    pub closed spec fn options(&self) -> ImportOptions {
        self.options
    }

    /// What to do next.
    pub closed spec fn spec_step(&self) -> SurfmanStep {
        self.step
    }

    /// What the import of the framebuffer gave, as long as it has not been
    /// handed out.
    pub closed spec fn imported(&self) -> Option<Result<wgpu::Texture, InteropError>> {
        self.imported
    }

    /// Between the import of the framebuffer and its end, what it gave is kept.
    pub open spec fn valid(&self) -> bool {
        self.imported() is Some <==> self.step() is RebindSurface || self.step() is DestroySurface
    }

    /// `texture` as this import hands it out.
    pub open spec fn as_imported(
        &self,
        texture: wgpu::Texture,
        format: TextureFormat,
    ) -> ImportedTexture {
        ImportedTexture {
            texture,
            format,
            size: self.frame_size(),
            origin: TextureOrigin::TopLeft,
            generation: self.generation(),
            consumer_sync: SyncMechanism::ImplicitGlFlush,
        }
    }

    /// Whether `result` is how an import of the framebuffer ends that gave
    /// `imported`.
    pub open spec fn ends_in(
        &self,
        imported: Result<wgpu::Texture, InteropError>,
        result: Result<ImportedTexture, InteropError>,
    ) -> bool {
        match imported {
            Ok(texture) => result == Ok::<ImportedTexture, InteropError>(
                self.as_imported(texture, TextureFormat::Rgba8Unorm),
            ),
            Err(error) => result == Err::<ImportedTexture, InteropError>(error),
        }
    }

    /// Begins to import a frame for a Vulkan host.
    pub fn import_current_frame(
        frame_size: PhysicalSize,
        source_size: PhysicalSize,
        generation: u64,
        options: &ImportOptions,
    ) -> (r: SurfmanImport)
        ensures
            r.valid(),
            r.frame_size() == frame_size,
            r.source_size() == source_size,
            r.generation() == generation,
            r.options() == *options,
            r.step() is MakeCurrent,
    {
        SurfmanImport {
            frame_size,
            source_size,
            generation,
            options: *options,
            step: SurfmanStep::MakeCurrent,
            imported: None,
        }
    }

    /// Begins to import a frame for a Direct3D 12 host, which cannot take the
    /// share handle.
    pub fn import_current_frame_dx12(
        frame_size: PhysicalSize,
        source_size: PhysicalSize,
        generation: u64,
        options: &ImportOptions,
    ) -> (r: SurfmanImport)
        ensures
            r.valid(),
            r.frame_size() == frame_size,
            r.source_size() == source_size,
            r.generation() == generation,
            r.options() == *options,
            r.step() is UnbindSurface,
    {
        SurfmanImport {
            frame_size,
            source_size,
            generation,
            options: *options,
            step: SurfmanStep::UnbindSurface,
            imported: None,
        }
    }

    /// What to do next.
    #[verifier::when_used_as_spec(spec_step)]
    pub fn step(&self) -> (r: SurfmanStep)
        ensures
            r == self.step(),
    {
        self.step
    }

    /// The size of the surface.
    #[verifier::when_used_as_spec(spec_source_size)]
    pub fn source_size(&self) -> (r: PhysicalSize)
        ensures
            r == self.source_size(),
    {
        self.source_size
    }

    /// Reports what came of the step that was due. Returns the end of the import
    /// once nothing is left to do.
    ///
    /// That the share handle cannot be imported is no failure: the framebuffer
    /// is tried next. What the framebuffer's import gives is handed out after the
    /// surface has been bound again, or destroyed because it could not be.
    pub fn report(&mut self, reply: SurfmanReply) -> (r: Option<
        Result<ImportedTexture, InteropError>,
    >)
        requires
            old(self).valid(),
            reply_fits(old(self).step(), reply),
        ensures
            final(self).valid(),
            final(self).frame_size() == old(self).frame_size(),
            final(self).source_size() == old(self).source_size(),
            final(self).generation() == old(self).generation(),
            final(self).options() == old(self).options(),
            final(self).step() == step_after(old(self).options(), old(self).step(), reply),
            r is Some <==> final(self).step() is Finish,
            old(self).step() is ImportFramebuffer ==> final(self).imported() == Some(
                match reply {
                    SurfmanReply::Texture(texture) => Ok(texture),
                    _ => Err(reply->ImportFailed_0),
                },
            ),
            old(self).step() is RebindSurface && final(self).step() is DestroySurface ==> final(self).imported() == old(self).imported(),
            r matches Some(Ok(texture)) ==> texture.is_normalized(old(self).options()),
            r matches Some(result) ==> match old(self).step() {
                SurfmanStep::ImportAngle { .. } => result == Ok::<ImportedTexture, InteropError>(
                    old(self).as_imported(reply->Texture_0, angle_format(old(self).options())),
                ),
                SurfmanStep::RebindSurface => old(self).ends_in(old(self).imported()->0, result),
                SurfmanStep::DestroySurface => old(self).ends_in(old(self).imported()->0, result),
                _ => match reply {
                    SurfmanReply::Failed(text) => result matches Err(InteropError::Surfman(shown))
                        && shown@ == text@,
                    _ => result == Err::<ImportedTexture, InteropError>(
                        InteropError::InvalidFrame("no surfman surface available"),
                    ),
                },
            },
    {
        let step = self.step;
        match step {
            SurfmanStep::MakeCurrent => match reply {
                SurfmanReply::Failed(text) => self.fail(text),
                _ => {
                    self.step = SurfmanStep::ImportAngle {
                        convert_to: if self.options.normalize_format {
                            Some(TextureFormat::Rgba8Unorm)
                        } else {
                            None
                        },
                    };
                    None
                },
            },
            SurfmanStep::ImportAngle { .. } => match reply {
                SurfmanReply::Texture(texture) => {
                    self.step = SurfmanStep::Finish;
                    let format = if self.options.normalize_format {
                        TextureFormat::Rgba8Unorm
                    } else {
                        TextureFormat::Bgra8Unorm
                    };
                    Some(Ok(self.hand_out(texture, format)))
                },
                _ => {
                    self.step = SurfmanStep::UnbindSurface;
                    None
                },
            },
            SurfmanStep::UnbindSurface => match reply {
                SurfmanReply::Failed(text) => self.fail(text),
                SurfmanReply::NoSurface => {
                    self.step = SurfmanStep::Finish;
                    Some(Err(InteropError::InvalidFrame("no surfman surface available")))
                },
                _ => {
                    self.step = SurfmanStep::MakeCurrentUnbound;
                    None
                },
            },
            SurfmanStep::MakeCurrentUnbound => match reply {
                SurfmanReply::Failed(text) => self.fail(text),
                _ => {
                    self.step = SurfmanStep::InspectSurface;
                    None
                },
            },
            SurfmanStep::InspectSurface => {
                let framebuffer: u32 = match reply {
                    SurfmanReply::Framebuffer(Some(object)) => object,
                    _ => 0,
                };
                self.step = SurfmanStep::ImportFramebuffer { framebuffer };
                None
            },
            SurfmanStep::ImportFramebuffer { .. } => {
                match reply {
                    SurfmanReply::Texture(texture) => {
                        self.imported = Some(Ok(texture));
                    },
                    SurfmanReply::ImportFailed(error) => {
                        self.imported = Some(Err(error));
                    },
                    _ => {},
                }
                self.step = SurfmanStep::RebindSurface;
                None
            },
            SurfmanStep::RebindSurface => match reply {
                SurfmanReply::Failed(_) => {
                    self.step = SurfmanStep::DestroySurface;
                    None
                },
                _ => self.end(),
            },
            _ => self.end(),
        }
    }

    fn hand_out(&self, texture: wgpu::Texture, format: TextureFormat) -> (r: ImportedTexture)
        ensures
            r == self.as_imported(texture, format),
    {
        ImportedTexture {
            texture,
            format,
            size: self.frame_size,
            origin: TextureOrigin::TopLeft,
            generation: self.generation,
            consumer_sync: SyncMechanism::ImplicitGlFlush,
        }
    }

    fn fail(&mut self, text: String) -> (r: Option<Result<ImportedTexture, InteropError>>)
        ensures
            r matches Some(Err(InteropError::Surfman(shown))) && shown@ == text@,
            final(self).frame_size() == old(self).frame_size(),
            final(self).source_size() == old(self).source_size(),
            final(self).generation() == old(self).generation(),
            final(self).options() == old(self).options(),
            final(self).imported() == old(self).imported(),
            final(self).step() is Finish,
    {
        self.step = SurfmanStep::Finish;
        Some(Err(InteropError::Surfman(text)))
    }

    fn end(&mut self) -> (r: Option<Result<ImportedTexture, InteropError>>)
        requires
            old(self).imported() is Some,
        ensures
            r matches Some(result) && old(self).ends_in(old(self).imported()->0, result),
            final(self).frame_size() == old(self).frame_size(),
            final(self).source_size() == old(self).source_size(),
            final(self).generation() == old(self).generation(),
            final(self).options() == old(self).options(),
            final(self).imported() is None,
            final(self).step() is Finish,
    {
        self.step = SurfmanStep::Finish;
        match self.imported.take() {
            Some(Ok(texture)) => Some(Ok(self.hand_out(texture, TextureFormat::Rgba8Unorm))),
            Some(Err(error)) => Some(Err(error)),
            None => None,
        }
    }
}

/// Whether the surface is away from its context before `step`.
pub open spec fn surface_is_unbound(step: SurfmanStep) -> bool {
    match step {
        SurfmanStep::MakeCurrentUnbound => true,
        SurfmanStep::InspectSurface => true,
        SurfmanStep::ImportFramebuffer { .. } => true,
        SurfmanStep::RebindSurface => true,
        _ => false,
    }
}

/// An unbound surface is bound again or destroyed: an import ends while the
/// surface is away only if the context could not be made current, or because the
/// surface has just been bound again. An import of the framebuffer, whatever it
/// gives, is always followed by the attempt to bind.
pub proof fn unbound_surface_is_rebound_or_destroyed(
    options: ImportOptions,
    step: SurfmanStep,
    reply: SurfmanReply,
)
    requires
        reply_fits(step, reply),
        surface_is_unbound(step),
    ensures
        step_after(options, step, reply) is Finish <==> (step is MakeCurrentUnbound && reply is Failed) || (
        step is RebindSurface && reply is Done),
        step is ImportFramebuffer ==> step_after(options, step, reply) is RebindSurface,
        step is RebindSurface && reply is Failed ==> step_after(options, step, reply) is DestroySurface,
{
}

/// The share handle is tried first and the framebuffer after it has failed: each step
/// of an import is followed by the next where it went well, and the framebuffer that
/// is imported is the one that the surface has, or the default one where it has none.
pub proof fn steps_follow_each_other(
    options: ImportOptions,
    text: String,
    error: InteropError,
    framebuffer: Option<u32>,
    convert_to: Option<TextureFormat>,
)
    ensures
        step_after(options, SurfmanStep::MakeCurrent, SurfmanReply::Done) is ImportAngle,
        step_after(options, SurfmanStep::MakeCurrent, SurfmanReply::Failed(text)) is Finish,
        step_after(
            options,
            SurfmanStep::ImportAngle { convert_to },
            SurfmanReply::ImportFailed(error),
        ) is UnbindSurface,
        step_after(options, SurfmanStep::UnbindSurface, SurfmanReply::Done) is MakeCurrentUnbound,
        step_after(options, SurfmanStep::UnbindSurface, SurfmanReply::NoSurface) is Finish,
        step_after(options, SurfmanStep::UnbindSurface, SurfmanReply::Failed(text)) is Finish,
        step_after(options, SurfmanStep::MakeCurrentUnbound, SurfmanReply::Done) is InspectSurface,
        step_after(
            options,
            SurfmanStep::InspectSurface,
            SurfmanReply::Framebuffer(framebuffer),
        ) matches SurfmanStep::ImportFramebuffer { framebuffer: object } && {
            &&& framebuffer is Some ==> object == framebuffer->0
            &&& framebuffer is None ==> object == 0
        },
{
}

/// A texture behind a share handle is handed out in the format that it has been brought
/// to: where it was converted, in the one that it was converted to, and where it was
/// not, in `Bgra8Unorm`, which it is. It is converted exactly where that is asked for.
pub proof fn share_handle_is_converted_on_request(
    current: &mut SurfmanImport,
    none: Option<Result<ImportedTexture, InteropError>>,
    import: &mut SurfmanImport,
    texture: wgpu::Texture,
    end: Option<Result<ImportedTexture, InteropError>>,
)
    requires
        current.valid(),
        current.step() is MakeCurrent,
        call_ensures(SurfmanImport::report, (current, SurfmanReply::Done), none),
        *import == *final(current),
        call_ensures(SurfmanImport::report, (import, SurfmanReply::Texture(texture)), end),
    ensures
        none is None,
        old(import).step() matches SurfmanStep::ImportAngle { convert_to } && {
            &&& convert_to is Some <==> old(current).options().normalize_format
            &&& end matches Some(Ok(imported)) && {
                &&& convert_to matches Some(target) ==> target == TextureFormat::Rgba8Unorm
                    && imported.format == target
                &&& convert_to is None ==> imported.format == TextureFormat::Bgra8Unorm
                &&& imported.texture == texture
                &&& imported.size == old(current).frame_size()
                &&& imported.generation == old(current).generation()
                &&& imported.origin == TextureOrigin::TopLeft
                &&& imported.consumer_sync == SyncMechanism::ImplicitGlFlush
            }
        },
{
}

/// What the framebuffer gave is handed out whether the surface could be bound again or
/// had to be destroyed: a texture as `Rgba8Unorm` with the frame's size and
/// generation, row 0 on top, and an error as it is.
pub proof fn framebuffer_import_is_handed_out(
    import: &mut SurfmanImport,
    reply: SurfmanReply,
    end: Option<Result<ImportedTexture, InteropError>>,
)
    requires
        import.valid(),
        import.step() is RebindSurface && reply is Done || import.step() is DestroySurface && (reply
            is Done || reply is Failed),
        call_ensures(SurfmanImport::report, (import, reply), end),
    ensures
        end is Some,
        old(import).imported() is Some,
        old(import).imported()->0 matches Err(error) ==> end->0 == Err::<
            ImportedTexture,
            InteropError,
        >(error),
        old(import).imported()->0 matches Ok(texture) ==> (end->0 matches Ok(imported) && {
            &&& imported.texture == texture
            &&& imported.format == TextureFormat::Rgba8Unorm
            &&& imported.size == old(import).frame_size()
            &&& imported.generation == old(import).generation()
            &&& imported.origin == TextureOrigin::TopLeft
            &&& imported.consumer_sync == SyncMechanism::ImplicitGlFlush
        }),
{
}

/// Every outcome of a step can be reported, its failure too.
pub proof fn failed_steps_can_be_reported(
    text: String,
    texture: wgpu::Texture,
    error: InteropError,
    framebuffer: Option<u32>,
    object: u32,
    convert_to: Option<TextureFormat>,
)
    ensures
        reply_fits(SurfmanStep::MakeCurrent, SurfmanReply::Done),
        reply_fits(SurfmanStep::MakeCurrent, SurfmanReply::Failed(text)),
        reply_fits(SurfmanStep::ImportAngle { convert_to }, SurfmanReply::Texture(texture)),
        reply_fits(SurfmanStep::ImportAngle { convert_to }, SurfmanReply::ImportFailed(error)),
        reply_fits(SurfmanStep::UnbindSurface, SurfmanReply::Done),
        reply_fits(SurfmanStep::UnbindSurface, SurfmanReply::NoSurface),
        reply_fits(SurfmanStep::UnbindSurface, SurfmanReply::Failed(text)),
        reply_fits(SurfmanStep::MakeCurrentUnbound, SurfmanReply::Done),
        reply_fits(SurfmanStep::MakeCurrentUnbound, SurfmanReply::Failed(text)),
        reply_fits(SurfmanStep::InspectSurface, SurfmanReply::Framebuffer(framebuffer)),
        reply_fits(
            SurfmanStep::ImportFramebuffer { framebuffer: object },
            SurfmanReply::Texture(texture),
        ),
        reply_fits(
            SurfmanStep::ImportFramebuffer { framebuffer: object },
            SurfmanReply::ImportFailed(error),
        ),
        reply_fits(SurfmanStep::RebindSurface, SurfmanReply::Done),
        reply_fits(SurfmanStep::RebindSurface, SurfmanReply::Failed(text)),
        reply_fits(SurfmanStep::DestroySurface, SurfmanReply::Done),
        reply_fits(SurfmanStep::DestroySurface, SurfmanReply::Failed(text)),
{
}

/// A Vulkan host tries the share handle, for which the context has to be current, and
/// a Direct3D 12 host goes straight to the framebuffer; both import the same frame in
/// the same way otherwise.
pub proof fn direct3d_host_skips_the_share_handle(
    frame_size: PhysicalSize,
    source_size: PhysicalSize,
    generation: u64,
    options: &ImportOptions,
    vulkan: SurfmanImport,
    dx12: SurfmanImport,
)
    requires
        call_ensures(
            SurfmanImport::import_current_frame,
            (frame_size, source_size, generation, options),
            vulkan,
        ),
        call_ensures(
            SurfmanImport::import_current_frame_dx12,
            (frame_size, source_size, generation, options),
            dx12,
        ),
    ensures
        vulkan.step() == SurfmanStep::MakeCurrent,
        dx12.step() == SurfmanStep::UnbindSurface,
        vulkan.frame_size() == frame_size && dx12.frame_size() == frame_size,
        vulkan.source_size() == source_size && dx12.source_size() == source_size,
        vulkan.generation() == generation && dx12.generation() == generation,
        vulkan.options() == *options && dx12.options() == *options,
{
}

} // verus!

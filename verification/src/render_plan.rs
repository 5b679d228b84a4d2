//! What a renderer creates on a device, and when: surfaces, pipelines and the
//! texture that CPU frames are uploaded to.

use vstd::prelude::*;

use crate::geometry::PhysicalSize;
use crate::platform::TargetPlatform;
use crate::texture::{
    first_bgra_format, first_srgb_format, RgbaImage, TextureFormat, TextureShape, TextureUsage,
};

verus! {

/// The wgpu backends that an instance is created with.
#[derive(Clone, Copy, Debug, PartialEq, Eq, Structural)]
pub enum BackendChoice {
    /// Every backend that there is.
    All,
    /// The backends that wgpu calls primary.
    Primary,
    /// Direct3D 12.
    Dx12,
    /// Vulkan, and Direct3D 12 where there is no Vulkan driver.
    VulkanOrDx12,
}

/// The backends for a host of Servo's frames: on Windows Vulkan is wanted for the
/// import of share handles.
pub fn backends_for_servo(platform: TargetPlatform) -> (r: BackendChoice)
    ensures
        r == (if platform is Windows {
            BackendChoice::VulkanOrDx12
        } else {
            BackendChoice::All
        }),
{
    if matches!(platform, TargetPlatform::Windows) {
        BackendChoice::VulkanOrDx12
    } else {
        BackendChoice::All
    }
}

/// The backends for a host of system webviews: on Windows their frames can be
/// imported into Direct3D 12 only.
pub fn preferred_backends(platform: TargetPlatform) -> (r: BackendChoice)
    ensures
        r == (if platform is Windows {
            BackendChoice::Dx12
        } else {
            BackendChoice::Primary
        }),
{
    if matches!(platform, TargetPlatform::Windows) {
        BackendChoice::Dx12
    } else {
        BackendChoice::Primary
    }
}

/// Whether a device is asked for Win32 external memory: on Windows, where the
/// adapter has it. Without it frames are read back to the CPU.
pub fn wants_external_memory(platform: TargetPlatform, adapter_has_it: bool) -> (r: bool)
    ensures
        r == (platform is Windows && adapter_has_it),
{
    matches!(platform, TargetPlatform::Windows) && adapter_has_it
}

/// How a surface is configured. It is a render attachment that is presented in
/// step with the display.
#[derive(Clone, Copy, Debug, PartialEq, Eq, Structural)]
pub struct SurfacePlan {
    pub format: TextureFormat,
    pub size: PhysicalSize,
    /// Which of the surface's alpha modes is used.
    pub alpha_mode: usize,
    pub maximum_frame_latency: u32,
}

/// A surface of the given format and, as a surface cannot be empty, of at least
/// one pixel.
pub open spec fn surface_plan(format: TextureFormat, size: PhysicalSize) -> SurfacePlan {
    SurfacePlan { format, size: size.at_least_one(), alpha_mode: 0, maximum_frame_latency: 2 }
}

impl SurfacePlan {
    fn with_format(format: TextureFormat, size: PhysicalSize) -> (r: Self)
        ensures
            r == surface_plan(format, size),
    {
        SurfacePlan {
            format,
            size: size.at_least_one(),
            alpha_mode: 0,
            maximum_frame_latency: 2,
        }
    }

    /// The surface that Servo's frames are shown on: in the first sRGB format of
    /// those that it supports, else in the first of all.
    pub fn for_servo(formats: &Vec<TextureFormat>, size: PhysicalSize) -> (r: Self)
        requires
            formats@.len() > 0,
        ensures
            exists|i: int|
                #![trigger formats@[i]]
                0 <= i < formats@.len() && crate::texture::is_first_or_zero(
                    formats@,
                    i,
                    |f: TextureFormat| f.is_srgb(),
                ) && r == surface_plan(formats@[i], size),
    {
        let i: usize = first_srgb_format(formats);
        assert(formats@[i as int] == formats[i as int]);
        SurfacePlan::with_format(formats[i], size)
    }

    /// The surface that a webview's frames are shown on: in `Bgra8Unorm` if it
    /// supports that, else in the first format of all.
    pub fn for_webview(formats: &Vec<TextureFormat>, size: PhysicalSize) -> (r: Self)
        requires
            formats@.len() > 0,
        ensures
            r == surface_plan(
                if formats@.contains(TextureFormat::Bgra8Unorm) {
                    TextureFormat::Bgra8Unorm
                } else {
                    formats@[0]
                },
                size,
            ),
    {
        let i: usize = first_bgra_format(formats);
        SurfacePlan::with_format(formats[i], size)
    }

    /// Takes over another size. A minimized window leaves the surface as it is.
    /// Returns whether to configure it again.
    pub fn resize(&mut self, size: PhysicalSize) -> (r: bool)
        ensures
            r == !size.is_empty(),
            *final(self) == (if size.is_empty() {
                *old(self)
            } else {
                SurfacePlan { size, ..*old(self) }
            }),
    {
        if size.is_empty() {
            return false;
        }
        self.size = size;
        true
    }
}

/// How a pipeline writes into its target.
#[derive(Clone, Copy, Debug, PartialEq, Eq, Structural)]
pub enum Blend {
    /// With a blend state that replaces what is there.
    Replace,
    /// Without a blend state.
    Disabled,
}

/// The pipeline that fills a surface with one texture. Its single bind group
/// holds the texture and a linear sampler, both for the fragment stage.
#[derive(Clone, Copy, Debug)]
pub struct PipelinePlan {
    pub bind_group_layout_label: &'static str,
    pub sampler_label: &'static str,
    pub shader_label: &'static str,
    pub layout_label: &'static str,
    pub label: &'static str,
    pub vertex_entry: &'static str,
    pub fragment_entry: &'static str,
    pub texture_binding: u32,
    pub sampler_binding: u32,
    pub format: TextureFormat,
    pub blend: Blend,
}

impl PipelinePlan {
    /// The pipeline that shows Servo's frames on `surface`.
    pub fn for_servo(surface: &SurfacePlan) -> (r: Self)
        ensures
            r == (PipelinePlan {
                bind_group_layout_label: "frame-texture-layout",
                sampler_label: "frame-sampler",
                shader_label: "fullscreen-quad-shader",
                layout_label: "frame-pipeline-layout",
                label: "frame-pipeline",
                vertex_entry: "vs_main",
                fragment_entry: "fs_main",
                texture_binding: 0,
                sampler_binding: 1,
                format: surface.format,
                blend: Blend::Replace,
            }),
    {
        PipelinePlan {
            bind_group_layout_label: "frame-texture-layout",
            sampler_label: "frame-sampler",
            shader_label: "fullscreen-quad-shader",
            layout_label: "frame-pipeline-layout",
            label: "frame-pipeline",
            vertex_entry: "vs_main",
            fragment_entry: "fs_main",
            texture_binding: 0,
            sampler_binding: 1,
            format: surface.format,
            blend: Blend::Replace,
        }
    }

    /// The pipeline that shows a webview's frames on `surface`.
    pub fn for_webview(surface: &SurfacePlan) -> (r: Self)
        ensures
            r == (PipelinePlan {
                bind_group_layout_label: "webview-blit-bgl",
                sampler_label: "webview-blit-sampler",
                shader_label: "webview-blit-shader",
                layout_label: "webview-blit-pipeline-layout",
                label: "webview-blit-pipeline",
                vertex_entry: "vs_main",
                fragment_entry: "fs_main",
                texture_binding: 0,
                sampler_binding: 1,
                format: surface.format,
                blend: Blend::Disabled,
            }),
    {
        PipelinePlan {
            bind_group_layout_label: "webview-blit-bgl",
            sampler_label: "webview-blit-sampler",
            shader_label: "webview-blit-shader",
            layout_label: "webview-blit-pipeline-layout",
            label: "webview-blit-pipeline",
            vertex_entry: "vs_main",
            fragment_entry: "fs_main",
            texture_binding: 0,
            sampler_binding: 1,
            format: surface.format,
            blend: Blend::Disabled,
        }
    }
}

/// What a texture that is written by the CPU and sampled is used for.
pub open spec fn upload_usage() -> TextureUsage {
    TextureUsage { texture_binding: true, copy_src: false, copy_dst: true }
}

/// The single pixel that is bound until the first frame of a webview arrives.
pub fn placeholder_texture() -> (r: TextureShape)
    ensures
        r == TextureShape::plain(
            "webview-blit-placeholder",
            PhysicalSize { width: 1, height: 1 },
            TextureFormat::Bgra8Unorm,
            upload_usage(),
        ),
{
    TextureShape::plain(
        "webview-blit-placeholder",
        PhysicalSize::new(1, 1),
        TextureFormat::Bgra8Unorm,
        TextureUsage { texture_binding: true, copy_src: false, copy_dst: true },
    )
}

/// What a surface is cleared to.
#[derive(Clone, Copy, Debug, PartialEq, Eq, Structural)]
pub enum ClearColor {
    /// Black, behind a frame.
    Black,
    /// A dark red that says that there is no frame.
    NoFrame,
}

/// What a surface is cleared to. Only where there is a frame is it drawn.
pub fn clear_color(has_frame: bool) -> (r: ClearColor)
    ensures
        r == (if has_frame {
            ClearColor::Black
        } else {
            ClearColor::NoFrame
        }),
{
    if has_frame {
        ClearColor::Black
    } else {
        ClearColor::NoFrame
    }
}

/// The upload of a CPU frame.
#[derive(Clone, Copy, Debug)]
pub struct UploadPlan {
    /// The texture to create first, where the cached one does not fit.
    pub create: Option<TextureShape>,
    /// Whether there is a texture to write to.
    pub writes: bool,
    pub bytes_per_row: u32,
    pub rows_per_image: u32,
    pub size: PhysicalSize,
}

/// The texture that CPU frames are uploaded to, as far as it is known without
/// its GPU object.
#[derive(Clone, Copy, Debug, PartialEq, Eq, Structural)]
pub struct FrameCache {
    size: PhysicalSize,
    has_texture: bool,
}

impl FrameCache {
    /// A cache that has a size has a texture.
    #[verifier::type_invariant]
    spec fn well_formed(&self) -> bool {
        self.has_texture || (self.size.width == 0 && self.size.height == 0)
    }

    /// The size of the cached texture; zero by zero before there is one.
    pub closed spec fn spec_size(self) -> PhysicalSize {
        self.size
    }

    /// Whether there is a cached texture.
    pub closed spec fn spec_has_texture(self) -> bool {
        self.has_texture
    }

    /// A cache without a texture.
    pub fn new() -> (r: Self)
        ensures
            r.spec_size() == (PhysicalSize { width: 0, height: 0 }),
            !r.has_texture(),
    {
        FrameCache { size: PhysicalSize::new(0, 0), has_texture: false }
    }

    /// Whether there is a cached texture.
    #[verifier::when_used_as_spec(spec_has_texture)]
    pub fn has_texture(self) -> (r: bool)
        ensures
            r == self.has_texture(),
    {
        self.has_texture
    }

    /// How `image` is uploaded: into the cached texture if that has its size, else
    /// into a new one that replaces it.
    pub fn upload_frame(&mut self, image: &RgbaImage) -> (r: UploadPlan)
        requires
            4 * image@.0.width <= u32::MAX,
        ensures
            ({
                let fits = image@.0 == old(self).spec_size();
                &&& r.create == (if fits {
                    None
                } else {
                    Some(
                        TextureShape::plain(
                            "servo-frame-cpu",
                            image@.0,
                            TextureFormat::Rgba8UnormSrgb,
                            upload_usage(),
                        ),
                    )
                })
                &&& final(self).spec_size() == image@.0
                &&& final(self).has_texture() == (old(self).has_texture() || !fits)
                &&& r.writes == final(self).has_texture()
                &&& !image@.0.is_empty() ==> r.writes
                &&& r.size == image@.0
                &&& r.bytes_per_row == 4 * image@.0.width
                &&& r.rows_per_image == image@.0.height
                &&& r.bytes_per_row * r.rows_per_image == image@.1.len()
            }),
    {
        proof {
            use_type_invariant(&*self);
        }
        let size = image.dimensions();
        let create = if self.size != size {
            self.has_texture = true;
            self.size = size;
            Some(
                TextureShape::plain(
                    "servo-frame-cpu",
                    size,
                    TextureFormat::Rgba8UnormSrgb,
                    TextureUsage { texture_binding: true, copy_src: false, copy_dst: true },
                ),
            )
        } else {
            None
        };
        assert((4 * size.width) * size.height == 4 * size.width * size.height);
        UploadPlan {
            create,
            writes: self.has_texture,
            bytes_per_row: 4 * size.width,
            rows_per_image: size.height,
            size,
        }
    }
}

/// On Windows a host of Servo asks for Vulkan and a host of webviews for Direct3D 12,
/// which is what their frames can be imported into; elsewhere both leave the choice to
/// wgpu. Win32 memory is asked for on Windows alone, and only where it is there.
pub proof fn windows_hosts_ask_for_their_backend(
    platform: TargetPlatform,
    servo: BackendChoice,
    webview: BackendChoice,
    adapter_has_it: bool,
    wanted: bool,
)
    requires
        call_ensures(backends_for_servo, (platform,), servo),
        call_ensures(preferred_backends, (platform,), webview),
        call_ensures(wants_external_memory, (platform, adapter_has_it), wanted),
    ensures
        servo == BackendChoice::VulkanOrDx12 <==> platform == TargetPlatform::Windows,
        servo == BackendChoice::All <==> platform != TargetPlatform::Windows,
        webview == BackendChoice::Dx12 <==> platform == TargetPlatform::Windows,
        webview == BackendChoice::Primary <==> platform != TargetPlatform::Windows,
        wanted <==> platform == TargetPlatform::Windows && adapter_has_it,
{
}

/// A surface is configured with a format that it supports, with the window's own size
/// where that has pixels, and never empty. The webview's takes `Bgra8Unorm` and
/// Servo's an sRGB format wherever there is one.
pub proof fn surface_is_configured_for_its_window(
    formats: &Vec<TextureFormat>,
    size: PhysicalSize,
    servo: SurfacePlan,
    webview: SurfacePlan,
)
    requires
        formats@.len() > 0,
        call_ensures(SurfacePlan::for_servo, (formats, size), servo),
        call_ensures(SurfacePlan::for_webview, (formats, size), webview),
    ensures
        formats@.contains(servo.format),
        formats@.contains(webview.format),
        formats@.contains(TextureFormat::Bgra8Unorm) ==> webview.format
            == TextureFormat::Bgra8Unorm,
        !formats@.contains(TextureFormat::Bgra8Unorm) ==> webview.format == formats@[0],
        (exists|i: int| 0 <= i < formats@.len() && (#[trigger] formats@[i]).is_srgb())
            ==> servo.format.is_srgb(),
        !servo.format.is_srgb() ==> servo.format == formats@[0],
        size.width > 0 ==> servo.size.width == size.width && webview.size.width == size.width,
        size.height > 0 ==> servo.size.height == size.height && webview.size.height == size.height,
        size.width == 0 ==> servo.size.width == 1 && webview.size.width == 1,
        size.height == 0 ==> servo.size.height == 1 && webview.size.height == 1,
        servo.alpha_mode == 0 && webview.alpha_mode == 0,
        servo.maximum_frame_latency == 2 && webview.maximum_frame_latency == 2,
{
}

/// A surface follows its window, except that a minimized window leaves it alone; its
/// format and modes never change.
pub proof fn surface_follows_its_window(plan: &mut SurfacePlan, size: PhysicalSize, again: bool)
    requires
        call_ensures(SurfacePlan::resize, (plan, size), again),
    ensures
        again <==> size.width > 0 && size.height > 0,
        again ==> final(plan).size == size,
        !again ==> final(plan).size == old(plan).size,
        final(plan).format == old(plan).format,
        final(plan).alpha_mode == old(plan).alpha_mode,
        final(plan).maximum_frame_latency == old(plan).maximum_frame_latency,
{
}

/// A pipeline draws in the format of its surface, from a texture and a sampler that are
/// bound apart.
pub proof fn pipeline_matches_its_surface(
    surface: &SurfacePlan,
    servo: PipelinePlan,
    webview: PipelinePlan,
)
    requires
        call_ensures(PipelinePlan::for_servo, (surface,), servo),
        call_ensures(PipelinePlan::for_webview, (surface,), webview),
    ensures
        servo.format == surface.format,
        webview.format == surface.format,
        servo.texture_binding != servo.sampler_binding,
        webview.texture_binding != webview.sampler_binding,
        servo.texture_binding == webview.texture_binding,
        servo.sampler_binding == webview.sampler_binding,
        servo.blend == Blend::Replace,
        webview.blend == Blend::Disabled,
{
}

/// A frame of the CPU is uploaded whole: every byte of it lies in the rows that are
/// written, into a texture of just its size that can be written to and sampled. A
/// texture is created where there is none of that size, and only there; the next frame
/// of the same size needs no other.
pub proof fn frame_is_uploaded_whole(
    cache: &mut FrameCache,
    image: &RgbaImage,
    plan: UploadPlan,
    i: int,
)
    requires
        4 * image@.0.width <= u32::MAX,
        call_ensures(FrameCache::upload_frame, (cache, image), plan),
    ensures
        plan.size == image@.0,
        plan.bytes_per_row == 4 * plan.size.width,
        plan.rows_per_image == plan.size.height,
        0 <= i < image@.1.len() <==> 0 <= i < plan.rows_per_image * plan.bytes_per_row,
        plan.create is None <==> old(cache).spec_size() == image@.0,
        final(cache).spec_size() == image@.0,
        plan.create matches Some(shape) ==> {
            &&& shape.size == image@.0
            &&& shape.format == TextureFormat::Rgba8UnormSrgb
            &&& shape.usage.texture_binding && shape.usage.copy_dst
        },
        plan.create is Some ==> final(cache).has_texture(),
        image@.0.width > 0 && image@.0.height > 0 ==> plan.writes,
        old(cache).has_texture() ==> final(cache).has_texture(),
{
    assert(plan.bytes_per_row * plan.rows_per_image == plan.rows_per_image * plan.bytes_per_row)
        by (nonlinear_arith);
}

/// Until a frame arrives a single pixel is bound, which can be written to and sampled;
/// and a surface without a frame is told from one with a frame by its color.
pub proof fn surface_without_a_frame(
    shape: TextureShape,
    has_frame: bool,
    color: ClearColor,
)
    requires
        call_ensures(placeholder_texture, (), shape),
        call_ensures(clear_color, (has_frame,), color),
    ensures
        shape.size.width == 1 && shape.size.height == 1,
        shape.format == TextureFormat::Bgra8Unorm,
        shape.usage.texture_binding && shape.usage.copy_dst,
        color == ClearColor::NoFrame <==> !has_frame,
        color == ClearColor::Black <==> has_frame,
{
}

} // verus!

//! The selection policy: which adapter, which queue family, which surface
//! format and composite-alpha mode, and how many swapchain images.

use vstd::prelude::*;

use vulkano::format::Format;
use vulkano::swapchain::{ColorSpace, CompositeAlpha};

use crate::error::RendererError;

verus! {

/// The Vulkan bit of a queue family's flags that marks graphics capability.
pub const QUEUE_GRAPHICS_BIT: u32 = 1;

/// The Vulkan number of the preferred format, 8-bit BGRA with sRGB encoding.
pub const PREFERRED_FORMAT_RAW: i32 = 50;

/// The Vulkan number of the preferred color space, non-linear sRGB.
pub const PREFERRED_COLOR_SPACE_RAW: i32 = 0;

/// The fewest swapchain images ever requested: double buffering.
pub const MIN_SWAPCHAIN_IMAGES: u32 = 2;

/// A (format, color space) pair that an adapter reports for a surface,
/// together with the Vulkan numbers of both. Only `SurfaceFormat::new` builds
/// one, so the numbers are always those of the pair.
#[derive(Clone, Copy, Debug)]
pub struct SurfaceFormat {
    pub(crate) format: Format,
    pub(crate) color_space: ColorSpace,
    pub(crate) format_raw: i32,
    pub(crate) color_space_raw: i32,
}

impl SurfaceFormat {
    pub closed spec fn format_spec(&self) -> Format {
        self.format
    }

    pub closed spec fn color_space_spec(&self) -> ColorSpace {
        self.color_space
    }

    pub closed spec fn format_raw_spec(&self) -> i32 {
        self.format_raw
    }

    pub closed spec fn color_space_raw_spec(&self) -> i32 {
        self.color_space_raw
    }

    /// The pair `(format, color_space)` with its Vulkan numbers, which are the
    /// discriminants of vulkano's `repr(i32)` enums.
    #[verifier::external_body]
    pub fn new(format: Format, color_space: ColorSpace) -> (r: SurfaceFormat)
        ensures
            r.format_spec() == format,
            r.color_space_spec() == color_space,
    {
        SurfaceFormat { format, color_space, format_raw: format as i32, color_space_raw: color_space as i32 }
    }

    pub fn format(&self) -> (r: Format)
        ensures
            r == self.format_spec(),
    {
        self.format
    }

    pub fn color_space(&self) -> (r: ColorSpace)
        ensures
            r == self.color_space_spec(),
    {
        self.color_space
    }

    /// The Vulkan number of the format.
    pub fn format_raw(&self) -> (r: i32)
        ensures
            r == self.format_raw_spec(),
    {
        self.format_raw
    }

    /// The Vulkan number of the color space.
    pub fn color_space_raw(&self) -> (r: i32)
        ensures
            r == self.color_space_raw_spec(),
    {
        self.color_space_raw
    }
}

/// What the swapchain logic reads of a surface's capabilities.
#[derive(Clone, Debug)]
pub struct SurfaceCapabilities {
    pub min_image_count: u32,
    /// The supported composite-alpha modes, in the order the driver lists them.
    pub composite_alphas: Vec<CompositeAlpha>,
}

/// What the images of a swapchain are used for.
#[derive(Clone, Copy, Debug, PartialEq, Eq, Structural)]
pub enum SwapchainImageUse {
    /// Rendered to as a color attachment, and nothing else.
    ColorAttachment,
}

/// What a swapchain is created with.
#[derive(Clone, Copy, Debug)]
pub struct SwapchainPlan {
    pub min_image_count: u32,
    pub format: SurfaceFormat,
    pub composite_alpha: CompositeAlpha,
    pub image_extent: [u32; 2],
    pub image_use: SwapchainImageUse,
}

pub open spec fn has_graphics(flags: u32) -> bool {
    flags & QUEUE_GRAPHICS_BIT != 0
}

/// `i` is the lowest index of a graphics-capable queue family.
pub open spec fn is_first_graphics(families: Seq<u32>, i: int) -> bool {
    &&& 0 <= i < families.len()
    &&& has_graphics(families[i])
    &&& forall|j: int| 0 <= j < i ==> !has_graphics(#[trigger] families[j])
}

pub open spec fn any_graphics(families: Seq<u32>) -> bool {
    exists|i: int| 0 <= i < families.len() && has_graphics(#[trigger] families[i])
}

pub open spec fn is_preferred(f: SurfaceFormat) -> bool {
    f.format_raw_spec() == PREFERRED_FORMAT_RAW && f.color_space_raw_spec() == PREFERRED_COLOR_SPACE_RAW
}

/// `i` is the position of the first preferred pair.
pub open spec fn is_first_preferred(formats: Seq<SurfaceFormat>, i: int) -> bool {
    &&& 0 <= i < formats.len()
    &&& is_preferred(formats[i])
    &&& forall|j: int| 0 <= j < i ==> !is_preferred(#[trigger] formats[j])
}

pub open spec fn any_preferred(formats: Seq<SurfaceFormat>) -> bool {
    exists|i: int| 0 <= i < formats.len() && is_preferred(#[trigger] formats[i])
}

/// The pair a swapchain uses: the first preferred pair, else the first pair
/// reported, and none when nothing is reported.
pub open spec fn chosen_format(formats: Seq<SurfaceFormat>) -> Option<SurfaceFormat> {
    if any_preferred(formats) {
        Some(formats[choose|i: int| is_first_preferred(formats, i)])
    } else if formats.len() > 0 {
        Some(formats[0])
    } else {
        None
    }
}

pub open spec fn image_count(min_image_count: u32) -> u32 {
    if min_image_count >= MIN_SWAPCHAIN_IMAGES {
        min_image_count
    } else {
        MIN_SWAPCHAIN_IMAGES
    }
}

/// The plan for a swapchain on a surface with capabilities `min_image_count`
/// and `composite_alphas`, reported formats `formats`, and a window of size
/// `extent`.
pub open spec fn swapchain_plan(
    min_image_count: u32,
    composite_alphas: Seq<CompositeAlpha>,
    formats: Seq<SurfaceFormat>,
    extent: [u32; 2],
) -> Result<SwapchainPlan, RendererError> {
    match chosen_format(formats) {
        None => Err(RendererError::NoSurfaceFormat),
        Some(format) => if composite_alphas.len() == 0 {
            Err(RendererError::NoCompositeAlpha)
        } else {
            Ok(
                SwapchainPlan {
                    min_image_count: image_count(min_image_count),
                    format,
                    composite_alpha: composite_alphas[0],
                    image_extent: extent,
                    image_use: SwapchainImageUse::ColorAttachment,
                },
            )
        },
    }
}

/// The first preferred pair is unique.
proof fn lemma_first_preferred_unique(formats: Seq<SurfaceFormat>, i: int, k: int)
    requires
        is_first_preferred(formats, i),
        is_first_preferred(formats, k),
    ensures
        i == k,
{
    if i < k {
        assert(!is_preferred(formats[i]));
    } else if k < i {
        assert(!is_preferred(formats[k]));
    }
}

/// When the preferred pair is not reported but some pair is, the chosen pair
/// is the first one reported.
pub proof fn lemma_format_fallback(formats: Seq<SurfaceFormat>)
    requires
        formats.len() > 0,
        !any_preferred(formats),
    ensures
        chosen_format(formats) == Some(formats[0]),
{
}

/// When the preferred pair is reported, it is the pair chosen.
pub proof fn lemma_format_preferred(formats: Seq<SurfaceFormat>)
    requires
        any_preferred(formats),
    ensures
        chosen_format(formats) matches Some(f) && is_preferred(f),
{
    let i = choose|i: int| 0 <= i < formats.len() && is_preferred(#[trigger] formats[i]);
    lemma_first_preferred_exists(formats, i);
}

proof fn lemma_first_preferred_exists(formats: Seq<SurfaceFormat>, i: int)
    requires
        0 <= i < formats.len(),
        is_preferred(formats[i]),
    ensures
        exists|k: int| is_first_preferred(formats, k),
    decreases i,
{
    if exists|j: int| 0 <= j < i && is_preferred(#[trigger] formats[j]) {
        let j = choose|j: int| 0 <= j < i && is_preferred(#[trigger] formats[j]);
        lemma_first_preferred_exists(formats, j);
    } else {
        assert(is_first_preferred(formats, i));
    }
}

/// A planned swapchain asks for at least the surface's minimum number of
/// images, and never fewer than two.
pub proof fn lemma_plan_image_count(
    min_image_count: u32,
    composite_alphas: Seq<CompositeAlpha>,
    formats: Seq<SurfaceFormat>,
    extent: [u32; 2],
)
    requires
        swapchain_plan(min_image_count, composite_alphas, formats, extent) is Ok,
    ensures
        swapchain_plan(min_image_count, composite_alphas, formats, extent) matches Ok(p) && {
            &&& p.min_image_count >= min_image_count
            &&& p.min_image_count >= MIN_SWAPCHAIN_IMAGES
        },
{
}

/// Picks the first adapter of an enumeration.
pub fn select_adapter<T>(adapters: Vec<T>) -> (r: Result<T, RendererError>)
    ensures
        adapters@.len() == 0 <==> r is Err,
        r is Err ==> r == Err::<T, RendererError>(RendererError::NoPhysicalDeviceFound),
        r matches Ok(a) ==> a == adapters@[0],
{
    let mut adapters = adapters;
    if adapters.len() == 0 {
        Err(RendererError::NoPhysicalDeviceFound)
    } else {
        Ok(adapters.remove(0))
    }
}

/// Picks the lowest index of a queue family whose flags (Vulkan queue flag
/// bits, one entry per family in enumeration order) include graphics.
pub fn select_queue_family(families: &Vec<u32>) -> (r: Result<u32, RendererError>)
    requires
        families@.len() <= u32::MAX,
    ensures
        any_graphics(families@) <==> r is Ok,
        r matches Ok(i) ==> is_first_graphics(families@, i as int),
        r is Err ==> r == Err::<u32, RendererError>(RendererError::GraphicalQueueFamily),
{
    let mut i: usize = 0;
    while i < families.len()
        invariant
            i <= families@.len() <= u32::MAX,
            forall|j: int| 0 <= j < i ==> !has_graphics(#[trigger] families@[j]),
        decreases families@.len() - i,
    {
        if families[i] & QUEUE_GRAPHICS_BIT != 0 {
            return Ok(i as u32);
        }
        i = i + 1;
    }
    Err(RendererError::GraphicalQueueFamily)
}

/// Pairs each reported (format, color space) with its Vulkan numbers.
pub fn surface_formats_of(reported: &Vec<(Format, ColorSpace)>) -> (r: Vec<SurfaceFormat>)
    ensures
        r@.len() == reported@.len(),
        forall|i: int| 0 <= i < r@.len() ==> {
            &&& (#[trigger] r@[i]).format_spec() == reported@[i].0
            &&& r@[i].color_space_spec() == reported@[i].1
        },
{
    let mut r: Vec<SurfaceFormat> = Vec::new();
    let mut i: usize = 0;
    while i < reported.len()
        invariant
            i <= reported@.len(),
            r@.len() == i,
            forall|j: int| 0 <= j < i ==> {
                &&& (#[trigger] r@[j]).format_spec() == reported@[j].0
                &&& r@[j].color_space_spec() == reported@[j].1
            },
        decreases reported@.len() - i,
    {
        let (format, color_space) = reported[i];
        r.push(SurfaceFormat::new(format, color_space));
        i = i + 1;
    }
    r
}

/// Picks the preferred (BGRA sRGB, non-linear sRGB) pair if it is reported,
/// else the first pair reported.
pub fn choose_surface_format(formats: &Vec<SurfaceFormat>) -> (r: Result<
    SurfaceFormat,
    RendererError,
>)
    ensures
        r matches Ok(f) ==> chosen_format(formats@) == Some(f),
        r is Err ==> chosen_format(formats@) is None && r == Err::<SurfaceFormat, RendererError>(
            RendererError::NoSurfaceFormat,
        ),
{
    let mut i: usize = 0;
    while i < formats.len()
        invariant
            i <= formats@.len(),
            forall|j: int| 0 <= j < i ==> !is_preferred(#[trigger] formats@[j]),
        decreases formats@.len() - i,
    {
        let f = formats[i];
        if f.format_raw == PREFERRED_FORMAT_RAW && f.color_space_raw == PREFERRED_COLOR_SPACE_RAW {
            proof {
                assert(is_first_preferred(formats@, i as int));
                let k = choose|k: int| is_first_preferred(formats@, k);
                lemma_first_preferred_unique(formats@, i as int, k);
            }
            return Ok(f);
        }
        i = i + 1;
    }
    if formats.len() == 0 {
        Err(RendererError::NoSurfaceFormat)
    } else {
        Ok(formats[0])
    }
}

/// Picks the first supported composite-alpha mode.
pub fn choose_composite_alpha(supported: &Vec<CompositeAlpha>) -> (r: Result<
    CompositeAlpha,
    RendererError,
>)
    ensures
        supported@.len() == 0 <==> r is Err,
        r is Err ==> r == Err::<CompositeAlpha, RendererError>(RendererError::NoCompositeAlpha),
        r matches Ok(a) ==> a == supported@[0],
{
    if supported.len() == 0 {
        Err(RendererError::NoCompositeAlpha)
    } else {
        Ok(supported[0])
    }
}

/// The number of swapchain images requested: the surface's minimum, but never
/// fewer than two.
pub fn image_count_for(min_image_count: u32) -> (r: u32)
    ensures
        r == image_count(min_image_count),
        r >= min_image_count,
        r >= MIN_SWAPCHAIN_IMAGES,
{
    if min_image_count >= MIN_SWAPCHAIN_IMAGES {
        min_image_count
    } else {
        MIN_SWAPCHAIN_IMAGES
    }
}

/// Plans a swapchain for a window of size `window_size` on a surface with
/// capabilities `caps` and reported formats `formats`.
pub fn plan_swapchain(
    caps: &SurfaceCapabilities,
    formats: &Vec<SurfaceFormat>,
    window_size: [u32; 2],
) -> (r: Result<SwapchainPlan, RendererError>)
    ensures
        r == swapchain_plan(caps.min_image_count, caps.composite_alphas@, formats@, window_size),
{
    let format = choose_surface_format(formats)?;
    let composite_alpha = choose_composite_alpha(&caps.composite_alphas)?;
    Ok(
        SwapchainPlan {
            min_image_count: image_count_for(caps.min_image_count),
            format,
            composite_alpha,
            image_extent: window_size,
            image_use: SwapchainImageUse::ColorAttachment,
        },
    )
}

} // verus!

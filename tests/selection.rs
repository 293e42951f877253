use vk_renderer::selection::{
    choose_composite_alpha, choose_surface_format, image_count_for, plan_swapchain,
    select_adapter, select_queue_family, surface_formats_of, MIN_SWAPCHAIN_IMAGES,
};
use vk_renderer::{RendererError, SurfaceCapabilities, SurfaceFormat};
use vulkano::format::Format;
use vulkano::swapchain::{ColorSpace, CompositeAlpha};

const GRAPHICS: u32 = 0x1;
const COMPUTE: u32 = 0x2;
const TRANSFER: u32 = 0x4;

fn pair(format: Format, color_space: ColorSpace) -> SurfaceFormat {
    SurfaceFormat::new(format, color_space)
}

#[test]
fn queue_family_lowest_graphics_index() {
    let families = vec![TRANSFER, COMPUTE | GRAPHICS, GRAPHICS, GRAPHICS | TRANSFER];
    assert_eq!(select_queue_family(&families).unwrap(), 1);
}

#[test]
fn queue_family_first_is_graphics() {
    let families = vec![GRAPHICS | COMPUTE | TRANSFER, GRAPHICS];
    assert_eq!(select_queue_family(&families).unwrap(), 0);
}

#[test]
fn queue_family_none_with_graphics() {
    let families = vec![COMPUTE, TRANSFER, COMPUTE | TRANSFER];
    assert!(matches!(
        select_queue_family(&families),
        Err(RendererError::GraphicalQueueFamily)
    ));
}

#[test]
fn queue_family_empty() {
    assert!(matches!(
        select_queue_family(&Vec::new()),
        Err(RendererError::GraphicalQueueFamily)
    ));
}

#[test]
fn adapter_empty_enumeration_fails() {
    let adapters: Vec<u32> = Vec::new();
    assert!(matches!(
        select_adapter(adapters),
        Err(RendererError::NoPhysicalDeviceFound)
    ));
}

#[test]
fn adapter_first_enumerated_wins() {
    assert_eq!(select_adapter(vec![7u32, 3, 9]).unwrap(), 7);
}

#[test]
fn format_preferred_pair_is_chosen() {
    let formats = vec![
        pair(Format::R8G8B8A8_UNORM, ColorSpace::SrgbNonLinear),
        pair(Format::B8G8R8A8_SRGB, ColorSpace::ExtendedSrgbLinear),
        pair(Format::B8G8R8A8_SRGB, ColorSpace::SrgbNonLinear),
    ];
    let chosen = choose_surface_format(&formats).unwrap();
    assert_eq!(chosen.format(), Format::B8G8R8A8_SRGB);
    assert_eq!(chosen.color_space(), ColorSpace::SrgbNonLinear);
}

#[test]
fn format_falls_back_to_first_reported() {
    let formats = vec![
        pair(Format::R8G8B8A8_UNORM, ColorSpace::SrgbNonLinear),
        pair(Format::B8G8R8A8_UNORM, ColorSpace::SrgbNonLinear),
        pair(Format::B8G8R8A8_SRGB, ColorSpace::DisplayP3NonLinear),
    ];
    let chosen = choose_surface_format(&formats).unwrap();
    assert_eq!(chosen.format(), Format::R8G8B8A8_UNORM);
    assert_eq!(chosen.color_space(), ColorSpace::SrgbNonLinear);
}

#[test]
fn format_none_reported() {
    assert!(matches!(
        choose_surface_format(&Vec::new()),
        Err(RendererError::NoSurfaceFormat)
    ));
}

#[test]
fn surface_format_carries_vulkan_numbers() {
    let f = SurfaceFormat::new(Format::R8G8B8A8_UNORM, ColorSpace::DisplayP3NonLinear);
    assert_eq!(f.format(), Format::R8G8B8A8_UNORM);
    assert_eq!(f.color_space(), ColorSpace::DisplayP3NonLinear);
    assert_eq!(f.format_raw(), 37);
    assert_eq!(f.color_space_raw(), 1000104001);
}

#[test]
fn surface_formats_pair_each_report() {
    let reported = vec![
        (Format::B8G8R8A8_SRGB, ColorSpace::SrgbNonLinear),
        (Format::R8G8B8A8_UNORM, ColorSpace::SrgbNonLinear),
    ];
    let formats = surface_formats_of(&reported);
    assert_eq!(formats.len(), 2);
    assert_eq!(formats[0].format_raw(), 50);
    assert_eq!(formats[0].color_space_raw(), 0);
    assert_eq!(formats[1].format(), Format::R8G8B8A8_UNORM);
    assert_eq!(formats[1].format_raw(), 37);
}

#[test]
fn preferred_format_numbers() {
    assert_eq!(Format::B8G8R8A8_SRGB as i32, 50);
    assert_eq!(ColorSpace::SrgbNonLinear as i32, 0);
}

#[test]
fn composite_alpha_first_supported() {
    let supported = vec![CompositeAlpha::PreMultiplied, CompositeAlpha::Opaque];
    assert_eq!(
        choose_composite_alpha(&supported).unwrap(),
        CompositeAlpha::PreMultiplied
    );
}

#[test]
fn composite_alpha_none_supported() {
    assert!(matches!(
        choose_composite_alpha(&Vec::new()),
        Err(RendererError::NoCompositeAlpha)
    ));
}

#[test]
fn image_count_is_at_least_two() {
    assert_eq!(image_count_for(0), 2);
    assert_eq!(image_count_for(1), 2);
    assert_eq!(image_count_for(2), 2);
    assert_eq!(image_count_for(3), 3);
    assert_eq!(image_count_for(u32::MAX), u32::MAX);
    assert_eq!(MIN_SWAPCHAIN_IMAGES, 2);
}

#[test]
fn plan_with_fallback_format() {
    let caps = SurfaceCapabilities {
        min_image_count: 1,
        composite_alphas: vec![CompositeAlpha::Opaque],
    };
    let formats = vec![pair(Format::R8G8B8A8_UNORM, ColorSpace::SrgbNonLinear)];
    let plan = plan_swapchain(&caps, &formats, [800, 600]).unwrap();
    assert_eq!(plan.format.format(), Format::R8G8B8A8_UNORM);
    assert_eq!(plan.format.color_space(), ColorSpace::SrgbNonLinear);
    assert_eq!(plan.min_image_count, 2);
    assert_eq!(plan.composite_alpha, CompositeAlpha::Opaque);
    assert_eq!(plan.image_extent, [800, 600]);
}

#[test]
fn plan_keeps_larger_minimum() {
    let caps = SurfaceCapabilities {
        min_image_count: 3,
        composite_alphas: vec![CompositeAlpha::Inherit, CompositeAlpha::Opaque],
    };
    let formats = vec![
        pair(Format::R8G8B8A8_UNORM, ColorSpace::SrgbNonLinear),
        pair(Format::B8G8R8A8_SRGB, ColorSpace::SrgbNonLinear),
    ];
    let plan = plan_swapchain(&caps, &formats, [1024, 768]).unwrap();
    assert_eq!(plan.min_image_count, 3);
    assert_eq!(plan.format.format(), Format::B8G8R8A8_SRGB);
    assert_eq!(plan.composite_alpha, CompositeAlpha::Inherit);
    assert_eq!(plan.image_extent, [1024, 768]);
}

#[test]
fn plan_twice_same_structure() {
    let caps = SurfaceCapabilities {
        min_image_count: 2,
        composite_alphas: vec![CompositeAlpha::Opaque],
    };
    let formats = vec![pair(Format::B8G8R8A8_SRGB, ColorSpace::SrgbNonLinear)];
    let first = plan_swapchain(&caps, &formats, [640, 480]).unwrap();
    let second = plan_swapchain(&caps, &formats, [640, 480]).unwrap();
    assert_eq!(first.format.format(), second.format.format());
    assert_eq!(first.format.color_space(), second.format.color_space());
    assert_eq!(first.min_image_count, second.min_image_count);
}

#[test]
fn plan_without_formats() {
    let caps = SurfaceCapabilities {
        min_image_count: 2,
        composite_alphas: Vec::new(),
    };
    assert!(matches!(
        plan_swapchain(&caps, &Vec::new(), [1, 1]),
        Err(RendererError::NoSurfaceFormat)
    ));
}

#[test]
fn plan_without_composite_alpha() {
    let caps = SurfaceCapabilities {
        min_image_count: 2,
        composite_alphas: Vec::new(),
    };
    let formats = vec![pair(Format::B8G8R8A8_SRGB, ColorSpace::SrgbNonLinear)];
    assert!(matches!(
        plan_swapchain(&caps, &formats, [1, 1]),
        Err(RendererError::NoCompositeAlpha)
    ));
}

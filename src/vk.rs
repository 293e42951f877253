//! What this crate relies on from vulkano and raw-window-handle: the outside
//! types that its values carry, and the calls that it makes.

use vstd::prelude::*;

use std::sync::Arc;

use vulkano::buffer::{
    AllocateBufferError, Buffer, BufferContents, BufferCreateInfo, BufferUsage, Subbuffer,
};
use vulkano::command_buffer::allocator::{
    StandardCommandBufferAllocator, StandardCommandBufferAllocatorCreateInfo,
};
use vulkano::device::physical::PhysicalDevice;
use vulkano::device::{Device, DeviceCreateInfo, DeviceExtensions, Queue, QueueCreateInfo};
use vulkano::format::Format;
use vulkano::image::{Image, ImageLayout, ImageUsage, SampleCount};
use vulkano::instance::{Instance, InstanceCreateFlags, InstanceCreateInfo, InstanceExtensions};
use vulkano::memory::allocator::{AllocationCreateInfo, MemoryTypeFilter, StandardMemoryAllocator};
use vulkano::render_pass::{
    AttachmentDescription, AttachmentLoadOp, AttachmentReference, AttachmentStoreOp, RenderPass,
    RenderPassCreateInfo, SubpassDependency, SubpassDescription,
};
use vulkano::swapchain::{ColorSpace, Surface, Swapchain, SwapchainCreateInfo};
use vulkano::sync::{AccessFlags, PipelineStages};
use vulkano::{Validated, VulkanError, VulkanLibrary};

use crate::buffers::{BufferRecipe, BufferUse, HostAccess, Placement};
use crate::render_target::{Access, AttachmentSpec, DependencySpec, Layout, LoadOp, Stage, StoreOp};
use crate::selection::{SurfaceCapabilities, SwapchainImageUse, SwapchainPlan};

verus! {

#[verifier::external_type_specification]
#[verifier::external_body]
pub struct ExFormat(vulkano::format::Format);

#[verifier::external_type_specification]
#[verifier::external_body]
pub struct ExColorSpace(vulkano::swapchain::ColorSpace);

#[verifier::external_type_specification]
#[verifier::external_body]
pub struct ExCompositeAlpha(vulkano::swapchain::CompositeAlpha);

#[verifier::external_type_specification]
#[verifier::external_body]
pub struct ExVulkanError(vulkano::VulkanError);

#[verifier::external_type_specification]
#[verifier::external_body]
#[verifier::reject_recursive_types(E)]
pub struct ExValidated<E>(vulkano::Validated<E>);

#[verifier::external_type_specification]
#[verifier::external_body]
pub struct ExLoadingError(vulkano::LoadingError);

#[verifier::external_type_specification]
#[verifier::external_body]
pub struct ExFromWindowError(vulkano::swapchain::FromWindowError);

#[verifier::external_type_specification]
#[verifier::external_body]
pub struct ExHandleError(raw_window_handle::HandleError);

#[verifier::external_type_specification]
#[verifier::external_body]
pub struct ExAllocateBufferError(vulkano::buffer::AllocateBufferError);

#[verifier::external_type_specification]
#[verifier::external_body]
pub struct ExVulkanLibrary(vulkano::VulkanLibrary);

#[verifier::external_type_specification]
#[verifier::external_body]
pub struct ExInstance(vulkano::instance::Instance);

#[verifier::external_type_specification]
#[verifier::external_body]
pub struct ExInstanceExtensions(vulkano::instance::InstanceExtensions);

#[verifier::external_type_specification]
#[verifier::external_body]
pub struct ExPhysicalDevice(vulkano::device::physical::PhysicalDevice);

#[verifier::external_type_specification]
#[verifier::external_body]
pub struct ExDevice(vulkano::device::Device);

#[verifier::external_type_specification]
#[verifier::external_body]
pub struct ExQueue(vulkano::device::Queue);

#[verifier::external_type_specification]
#[verifier::external_body]
pub struct ExSurface(vulkano::swapchain::Surface);

#[verifier::external_type_specification]
#[verifier::external_body]
pub struct ExSwapchain(vulkano::swapchain::Swapchain);

#[verifier::external_type_specification]
#[verifier::external_body]
pub struct ExImage(vulkano::image::Image);

#[verifier::external_type_specification]
#[verifier::external_body]
pub struct ExRenderPass(vulkano::render_pass::RenderPass);

#[verifier::external_type_specification]
#[verifier::external_body]
pub struct ExImageLayout(vulkano::image::ImageLayout);

#[verifier::external_type_specification]
#[verifier::external_body]
pub struct ExAttachmentDescription(vulkano::render_pass::AttachmentDescription);

#[verifier::external_type_specification]
#[verifier::external_body]
pub struct ExSubpassDescription(vulkano::render_pass::SubpassDescription);

#[verifier::external_type_specification]
#[verifier::external_body]
pub struct ExSubpassDependency(vulkano::render_pass::SubpassDependency);

#[verifier::external_type_specification]
#[verifier::external_body]
#[verifier::reject_recursive_types(S)]
pub struct ExGenericMemoryAllocator<S>(vulkano::memory::allocator::GenericMemoryAllocator<S>);

#[verifier::external_type_specification]
#[verifier::external_body]
pub struct ExFreeListAllocator(vulkano::memory::allocator::FreeListAllocator);

#[verifier::external_type_specification]
#[verifier::external_body]
pub struct ExStandardCommandBufferAllocator(
    vulkano::command_buffer::allocator::StandardCommandBufferAllocator,
);

#[verifier::external_type_specification]
#[verifier::external_body]
#[verifier::reject_recursive_types(T)]
pub struct ExSubbuffer<T: ?Sized>(vulkano::buffer::Subbuffer<T>);

/// Relies on `Instance::new`: creates the instance with the given extensions,
/// and with portability enumeration when `enumerate_portability` is set.
#[verifier::external_body]
pub(crate) fn instance_new(
    library: Arc<VulkanLibrary>,
    enabled_extensions: InstanceExtensions,
    enumerate_portability: bool,
) -> Result<Arc<Instance>, Validated<VulkanError>> {
    let flags = if enumerate_portability {
        InstanceCreateFlags::ENUMERATE_PORTABILITY
    } else {
        InstanceCreateFlags::empty()
    };
    Instance::new(library, InstanceCreateInfo { flags, enabled_extensions, ..Default::default() })
}

/// An adapter together with a surface of the same instance. Only the
/// functions of this module build one, from adapters that the surface's own
/// instance enumerates, so the two always belong together.
pub struct SurfaceAdapter {
    physical_device: Arc<PhysicalDevice>,
    surface: Arc<Surface>,
}

impl SurfaceAdapter {
    pub closed spec fn physical_device_spec(&self) -> Arc<PhysicalDevice> {
        self.physical_device
    }

    pub closed spec fn surface_spec(&self) -> Arc<Surface> {
        self.surface
    }

    /// The adapter.
    pub fn physical_device(&self) -> (r: Arc<PhysicalDevice>)
        ensures
            r == self.physical_device_spec(),
    {
        self.physical_device.clone()
    }

    /// The surface.
    pub fn surface(&self) -> (r: Arc<Surface>)
        ensures
            r == self.surface_spec(),
    {
        self.surface.clone()
    }
}

/// A logical device together with a surface of the same instance. Only the
/// functions of this module build one, from a `SurfaceAdapter`.
pub struct SurfaceDevice {
    device: Arc<Device>,
    surface: Arc<Surface>,
}

impl SurfaceDevice {
    pub closed spec fn device_spec(&self) -> Arc<Device> {
        self.device
    }

    pub closed spec fn surface_spec(&self) -> Arc<Surface> {
        self.surface
    }

    /// The logical device.
    pub fn device(&self) -> (r: Arc<Device>)
        ensures
            r == self.device_spec(),
    {
        self.device.clone()
    }

    /// The surface.
    pub fn surface(&self) -> (r: Arc<Surface>)
        ensures
            r == self.surface_spec(),
    {
        self.surface.clone()
    }
}

/// Relies on `Surface::instance`: the instance the surface was created with.
#[verifier::external_body]
pub(crate) fn surface_instance(surface: &Arc<Surface>) -> Arc<Instance> {
    surface.instance().clone()
}

/// Relies on `Instance::enumerate_physical_devices`, called on the surface's
/// own instance: the adapters in the order the driver lists them, each paired
/// with `surface`.
#[verifier::external_body]
pub(crate) fn surface_adapters(surface: &Arc<Surface>) -> (r: Result<Vec<SurfaceAdapter>, VulkanError>)
    ensures
        r matches Ok(adapters) ==> forall|i: int|
            0 <= i < adapters@.len() ==> (#[trigger] adapters@[i]).surface_spec() == *surface,
{
    let adapters = surface.instance().enumerate_physical_devices()?;
    let pair = |physical_device| SurfaceAdapter { physical_device, surface: surface.clone() };
    Ok(adapters.map(pair).collect())
}

/// Relies on `PhysicalDevice::queue_family_properties`: the Vulkan flag bits
/// of each queue family, by family index. The driver counts the families in
/// a `u32`.
#[verifier::external_body]
pub(crate) fn queue_family_flags(adapter: &SurfaceAdapter) -> (r: Vec<u32>)
    ensures
        r@.len() <= u32::MAX,
{
    adapter
        .physical_device
        .queue_family_properties()
        .iter()
        .map(|p| ash::vk::QueueFlags::from(p.queue_flags).as_raw())
        .collect()
}

/// Relies on `Device::new`: one queue is requested from family
/// `queue_family_index` (vulkano's default `QueueCreateInfo` asks for one),
/// so on success exactly one queue comes back. The swapchain extension is
/// enabled when `khr_swapchain` is set. The device keeps the adapter's
/// surface.
#[verifier::external_body]
pub(crate) fn device_new(
    adapter: &SurfaceAdapter,
    queue_family_index: u32,
    khr_swapchain: bool,
) -> (r: Result<(SurfaceDevice, Vec<Arc<Queue>>), Validated<VulkanError>>)
    ensures
        r matches Ok((d, queues)) ==> queues@.len() == 1 && d.surface_spec() == adapter.surface_spec(),
{
    let queue_create_infos = vec![QueueCreateInfo { queue_family_index, ..Default::default() }];
    let enabled_extensions = DeviceExtensions { khr_swapchain, ..DeviceExtensions::empty() };
    let create_info = DeviceCreateInfo { queue_create_infos, enabled_extensions, ..Default::default() };
    let (device, queues) = Device::new(adapter.physical_device.clone(), create_info)?;
    Ok((SurfaceDevice { device, surface: adapter.surface.clone() }, queues.collect()))
}

/// Relies on `PhysicalDevice::surface_capabilities`, on an adapter and a
/// surface of one instance: the surface's minimum image count and its
/// supported composite-alpha modes, in vulkano's order.
#[verifier::external_body]
pub(crate) fn surface_capabilities(adapter: &SurfaceAdapter) -> Result<SurfaceCapabilities, Validated<VulkanError>> {
    let caps = adapter.physical_device.surface_capabilities(&adapter.surface, Default::default())?;
    Ok(
        SurfaceCapabilities {
            min_image_count: caps.min_image_count,
            composite_alphas: caps.supported_composite_alpha.into_iter().collect(),
        },
    )
}

/// Relies on `PhysicalDevice::surface_formats`, on an adapter and a surface
/// of one instance: the reported pairs in the driver's order.
#[verifier::external_body]
pub(crate) fn surface_formats(adapter: &SurfaceAdapter) -> Result<Vec<(Format, ColorSpace)>, Validated<VulkanError>> {
    adapter.physical_device.surface_formats(&adapter.surface, Default::default())
}

/// Relies on `Swapchain::new`, on a device and a surface of one instance: the
/// chain is created from `plan`; vulkano documents that it never creates
/// fewer images than `min_image_count`.
#[verifier::external_body]
pub(crate) fn swapchain_new(
    target: &SurfaceDevice,
    plan: &SwapchainPlan,
) -> (r: Result<(Arc<Swapchain>, Vec<Arc<Image>>), Validated<VulkanError>>)
    ensures
        r matches Ok((_, images)) ==> images@.len() >= plan.min_image_count,
{
    let create_info = SwapchainCreateInfo {
        min_image_count: plan.min_image_count,
        image_format: plan.format.format,
        image_color_space: plan.format.color_space,
        image_extent: plan.image_extent,
        image_usage: match plan.image_use {
            SwapchainImageUse::ColorAttachment => ImageUsage::COLOR_ATTACHMENT,
        },
        composite_alpha: plan.composite_alpha,
        ..Default::default()
    };
    Swapchain::new(target.device.clone(), target.surface.clone(), create_info)
}

/// Converts a layout to vulkano's `ImageLayout`.
#[verifier::external_body]
pub(crate) fn vk_layout(layout: Layout) -> ImageLayout {
    match layout {
        Layout::Undefined => ImageLayout::Undefined,
        Layout::ColorAttachmentOptimal => ImageLayout::ColorAttachmentOptimal,
        Layout::PresentSrc => ImageLayout::PresentSrc,
    }
}

/// Converts an attachment to vulkano's `AttachmentDescription`; relies on
/// `SampleCount::try_from`, which accepts a sample count of 1.
#[verifier::external_body]
pub(crate) fn vk_attachment(a: &AttachmentSpec, initial: ImageLayout, last: ImageLayout) -> (r:
    Result<AttachmentDescription, ()>)
    ensures
        a.samples == 1 ==> r is Ok,
{
    let load_op = match a.load_op {
        LoadOp::Load => AttachmentLoadOp::Load,
        LoadOp::Clear => AttachmentLoadOp::Clear,
        LoadOp::DontCare => AttachmentLoadOp::DontCare,
    };
    let store_op = match a.store_op {
        StoreOp::Store => AttachmentStoreOp::Store,
        StoreOp::DontCare => AttachmentStoreOp::DontCare,
    };
    let samples = SampleCount::try_from(a.samples)?;
    let (format, initial_layout, final_layout) = (a.format, initial, last);
    Ok(AttachmentDescription { format, samples, load_op, store_op, initial_layout, final_layout, ..Default::default() })
}

/// Converts a subpass's color references to vulkano's `SubpassDescription`.
#[verifier::external_body]
pub(crate) fn vk_subpass(color_refs: Vec<(u32, ImageLayout)>) -> SubpassDescription {
    let color_attachments = color_refs
        .into_iter()
        .map(|(attachment, layout)| Some(AttachmentReference { attachment, layout, ..Default::default() }))
        .collect();
    SubpassDescription { color_attachments, ..Default::default() }
}

/// Converts a dependency to vulkano's `SubpassDependency`.
#[verifier::external_body]
pub(crate) fn vk_dependency(d: &DependencySpec) -> SubpassDependency {
    let stages = |s: Stage| match s {
        Stage::ColorAttachmentOutput => PipelineStages::COLOR_ATTACHMENT_OUTPUT,
        Stage::BottomOfPipe => PipelineStages::BOTTOM_OF_PIPE,
    };
    let access = |a: Access| match a {
        Access::NoAccess => AccessFlags::empty(),
        Access::ColorAttachmentWrite => AccessFlags::COLOR_ATTACHMENT_WRITE,
    };
    let (src_stages, dst_stages) = (stages(d.src_stage), stages(d.dst_stage));
    let (src_access, dst_access) = (access(d.src_access), access(d.dst_access));
    let (src_subpass, dst_subpass) = (d.src_subpass, d.dst_subpass);
    SubpassDependency { src_subpass, dst_subpass, src_stages, dst_stages, src_access, dst_access, ..Default::default() }
}

/// Relies on `RenderPass::new`.
#[verifier::external_body]
pub(crate) fn render_pass_new(
    device: Arc<Device>,
    attachments: Vec<AttachmentDescription>,
    subpasses: Vec<SubpassDescription>,
    dependencies: Vec<SubpassDependency>,
) -> Result<Arc<RenderPass>, Validated<VulkanError>> {
    let create_info = RenderPassCreateInfo { attachments, subpasses, dependencies, ..Default::default() };
    RenderPass::new(device, create_info)
}

/// Relies on `StandardMemoryAllocator::new_default`.
#[verifier::external_body]
pub(crate) fn memory_allocator_new(device: Arc<Device>) -> Arc<StandardMemoryAllocator> {
    Arc::new(StandardMemoryAllocator::new_default(device))
}

/// Relies on `StandardCommandBufferAllocator::new`, with vulkano's default
/// settings.
#[verifier::external_body]
pub(crate) fn command_buffer_allocator_new(device: Arc<Device>) -> Arc<StandardCommandBufferAllocator> {
    let create_info = StandardCommandBufferAllocatorCreateInfo::default();
    Arc::new(StandardCommandBufferAllocator::new(device, create_info))
}

/// Relies on `Buffer::from_iter`: allocates a buffer for exactly the given
/// values, with the usage and memory placement of `recipe`, and writes them
/// in. It panics on an empty sequence, and every recipe asks for host-visible
/// memory, as it requires.
#[verifier::external_body]
pub(crate) fn buffer_from_iter<T: BufferContents>(
    allocator: Arc<StandardMemoryAllocator>,
    recipe: &BufferRecipe,
    values: Vec<T>,
) -> Result<Subbuffer<[T]>, Validated<AllocateBufferError>>
    requires
        values@.len() > 0,
{
    let usage = match recipe.usage {
        BufferUse::Uniform => BufferUsage::UNIFORM_BUFFER,
        BufferUse::TransferSrc => BufferUsage::TRANSFER_SRC,
        BufferUse::TransferDst => BufferUsage::TRANSFER_DST,
    };
    let memory_type_filter = match (recipe.placement, recipe.host_access) {
        (Placement::PreferDevice, HostAccess::SequentialWrite) => MemoryTypeFilter::PREFER_DEVICE | MemoryTypeFilter::HOST_SEQUENTIAL_WRITE,
        (Placement::PreferDevice, HostAccess::RandomAccess) => MemoryTypeFilter::PREFER_DEVICE | MemoryTypeFilter::HOST_RANDOM_ACCESS,
        (Placement::PreferHost, HostAccess::SequentialWrite) => MemoryTypeFilter::PREFER_HOST | MemoryTypeFilter::HOST_SEQUENTIAL_WRITE,
        (Placement::PreferHost, HostAccess::RandomAccess) => MemoryTypeFilter::PREFER_HOST | MemoryTypeFilter::HOST_RANDOM_ACCESS,
    };
    let allocation = AllocationCreateInfo { memory_type_filter, ..Default::default() };
    Buffer::from_iter(allocator, BufferCreateInfo { usage, ..Default::default() }, allocation, values)
}

} // verus!


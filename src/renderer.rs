//! The renderer: it builds the device context in order, keeps the swapchain
//! and the render pass that matches it, rebuilds both on resize, and
//! allocates buffers.

use vstd::prelude::*;

use std::sync::Arc;

use vulkano::buffer::{BufferContents, Subbuffer};
use vulkano::command_buffer::allocator::StandardCommandBufferAllocator;
use vulkano::device::{Device, Queue};
use vulkano::image::{Image, ImageLayout};
use vulkano::instance::{Instance, InstanceExtensions};
use vulkano::memory::allocator::StandardMemoryAllocator;
use vulkano::render_pass::{AttachmentDescription, RenderPass, SubpassDependency, SubpassDescription};
use vulkano::swapchain::{Surface, Swapchain};
use vulkano::VulkanLibrary;

use crate::buffers::{recipe, recipe_spec, BufferClass, BufferUse, HostAccess};
use crate::error::RendererError;
use crate::render_target::{describes_swapchain_target, render_target_descriptor, RenderTargetDescriptor};
use crate::selection::{
    is_first_graphics, plan_swapchain, select_adapter, select_queue_family, surface_formats_of,
    swapchain_plan,
    SurfaceCapabilities, SurfaceFormat, SwapchainPlan, MIN_SWAPCHAIN_IMAGES,
};
use crate::vk::{self, SurfaceAdapter, SurfaceDevice};

verus! {

/// A swapchain together with what it was planned from.
pub struct SwapchainState {
    /// The surface capabilities reported when the chain was planned.
    pub capabilities: SurfaceCapabilities,
    /// The surface formats reported when the chain was planned.
    pub formats: Vec<SurfaceFormat>,
    pub plan: SwapchainPlan,
    pub swapchain: Arc<Swapchain>,
    /// The chain's images, in presentation order.
    pub images: Vec<Arc<Image>>,
}

impl SwapchainState {
    /// The plan follows from what was reported and the window size, and the
    /// chain holds at least as many images as the plan asked for.
    pub open spec fn wf(&self) -> bool {
        &&& swapchain_plan(
            self.capabilities.min_image_count,
            self.capabilities.composite_alphas@,
            self.formats@,
            self.plan.image_extent,
        ) == Ok::<SwapchainPlan, RendererError>(self.plan)
        &&& self.images@.len() >= self.plan.min_image_count
    }
}

/// A created swapchain holds at least as many images as the surface's
/// minimum, and at least two.
pub proof fn lemma_swapchain_image_count(s: SwapchainState)
    requires
        s.wf(),
    ensures
        s.images@.len() >= s.capabilities.min_image_count,
        s.images@.len() >= MIN_SWAPCHAIN_IMAGES,
{
}

/// Two swapchains planned from the same reports for the same window size have
/// the same format and ask for the same number of images: rebuilding for an
/// unchanged size and unchanged surface gives an equivalent chain.
pub proof fn lemma_rebuild_same_structure(a: SwapchainState, b: SwapchainState)
    requires
        a.wf(),
        b.wf(),
        a.capabilities.min_image_count == b.capabilities.min_image_count,
        a.capabilities.composite_alphas@ == b.capabilities.composite_alphas@,
        a.formats@ == b.formats@,
        a.plan.image_extent == b.plan.image_extent,
    ensures
        a.plan.format == b.plan.format,
        a.plan.min_image_count == b.plan.min_image_count,
        a.plan.composite_alpha == b.plan.composite_alpha,
{
}

/// A buffer with the kind it was allocated as and the number of elements it
/// was allocated for.
#[verifier::reject_recursive_types(T)]
pub struct BufferAllocation<T> {
    pub buffer: Subbuffer<[T]>,
    pub class: BufferClass,
    pub len: usize,
}

/// A transfer-source and a transfer-destination buffer allocated for the same
/// number of elements can take part in a copy from the one to the other: the
/// first is a copy source, the second a copy destination, and both sit in
/// host-visible memory for the host to write and read.
pub proof fn lemma_staging_pair<T>(src: BufferAllocation<T>, dst: BufferAllocation<T>)
    requires
        src.class == BufferClass::TransferSource,
        dst.class == BufferClass::TransferDestination,
        src.len == dst.len,
    ensures
        recipe_spec(src.class).usage == BufferUse::TransferSrc,
        recipe_spec(dst.class).usage == BufferUse::TransferDst,
        recipe_spec(src.class).host_access == HostAccess::SequentialWrite,
        recipe_spec(dst.class).host_access == HostAccess::RandomAccess,
        src.len == dst.len,
{
}

/// Creates the instance with the extensions that the window system needs,
/// enumerating portability (not fully conformant) adapters too.
pub fn create_instance(
    library: Arc<VulkanLibrary>,
    required_extensions: InstanceExtensions,
) -> (r: Result<Arc<Instance>, RendererError>)
    ensures
        r is Err ==> r matches Err(RendererError::ValidatedVulkanError(_)),
{
    match vk::instance_new(library, required_extensions, true) {
        Ok(instance) => Ok(instance),
        Err(e) => Err(RendererError::ValidatedVulkanError(e)),
    }
}

/// Picks the first adapter that the surface's instance enumerates, paired
/// with the surface.
pub fn select_physical_device(surface: &Arc<Surface>) -> (r: Result<SurfaceAdapter, RendererError>)
    ensures
        r matches Ok(a) ==> a.surface_spec() == *surface,
        r is Err ==> r matches Err(RendererError::VulkanError(_))
            || r matches Err(RendererError::NoPhysicalDeviceFound),
{
    match vk::surface_adapters(surface) {
        Ok(adapters) => select_adapter(adapters),
        Err(e) => Err(RendererError::VulkanError(e)),
    }
}

/// The logical device, its one queue, the queue flags of the adapter's
/// families and the family the queue was taken from.
pub struct DeviceAndQueue {
    pub device: SurfaceDevice,
    pub queue: Arc<Queue>,
    pub queue_families: Vec<u32>,
    pub queue_family_index: u32,
}

/// Creates the logical device with the swapchain extension, and one queue
/// from the lowest graphics-capable queue family. No device is created when
/// the adapter has no such family.
pub fn create_device_and_queue(adapter: &SurfaceAdapter) -> (r: Result<DeviceAndQueue, RendererError>)
    ensures
        r matches Ok(d) ==> is_first_graphics(d.queue_families@, d.queue_family_index as int),
        r matches Ok(d) ==> d.device.surface_spec() == adapter.surface_spec(),
        r is Err ==> r matches Err(RendererError::ValidatedVulkanError(_))
            || r matches Err(RendererError::GraphicalQueueFamily)
            || r matches Err(RendererError::FailedDeviceCreation),
{
    let queue_families = vk::queue_family_flags(adapter);
    let queue_family_index = select_queue_family(&queue_families)?;
    let (device, mut queues) = match vk::device_new(adapter, queue_family_index, true) {
        Ok(created) => created,
        Err(e) => return Err(RendererError::ValidatedVulkanError(e)),
    };
    match queues.pop() {
        Some(queue) => Ok(DeviceAndQueue { device, queue, queue_families, queue_family_index }),
        None => Err(RendererError::FailedDeviceCreation),
    }
}

/// Plans and creates a swapchain for a window of size `window_size`, from the
/// surface capabilities and formats that the adapter reports now.
pub fn create_swapchain(
    adapter: &SurfaceAdapter,
    target: &SurfaceDevice,
    window_size: [u32; 2],
) -> (r: Result<SwapchainState, RendererError>)
    ensures
        r matches Ok(s) ==> s.wf() && s.plan.image_extent == window_size,
        r matches Err(e) ==> is_rebuild_error(e),
{
    let capabilities = match vk::surface_capabilities(adapter) {
        Ok(c) => c,
        Err(e) => return Err(RendererError::ValidatedVulkanError(e)),
    };
    let formats = match vk::surface_formats(adapter) {
        Ok(reported) => surface_formats_of(&reported),
        Err(e) => return Err(RendererError::ValidatedVulkanError(e)),
    };
    let plan = plan_swapchain(&capabilities, &formats, window_size)?;
    match vk::swapchain_new(target, &plan) {
        Ok((swapchain, images)) => Ok(SwapchainState { capabilities, formats, plan, swapchain, images }),
        Err(e) => Err(RendererError::ValidatedVulkanError(e)),
    }
}

/// Creates the render pass that a descriptor describes.
pub fn create_render_pass(device: &Arc<Device>, target: &RenderTargetDescriptor) -> (r: Result<
    Arc<RenderPass>,
    RendererError,
>)
    requires
        forall|i: int| 0 <= i < target.attachments@.len() ==> #[trigger] target.attachments@[i].samples == 1,
    ensures
        r is Err ==> r matches Err(RendererError::ValidatedVulkanError(_)),
{
    let mut attachments: Vec<AttachmentDescription> = Vec::new();
    let mut i: usize = 0;
    while i < target.attachments.len()
        invariant
            i <= target.attachments@.len(),
            forall|j: int| 0 <= j < target.attachments@.len() ==> #[trigger] target.attachments@[j].samples == 1,
        decreases target.attachments@.len() - i,
    {
        let a = &target.attachments[i];
        let initial = vk::vk_layout(a.initial_layout);
        let last = vk::vk_layout(a.final_layout);
        match vk::vk_attachment(a, initial, last) {
            Ok(description) => attachments.push(description),
            Err(_) => {
                // every attachment is single-sampled, which vulkano accepts
                assert(false);
            },
        }
        i = i + 1;
    }
    let mut subpasses: Vec<SubpassDescription> = Vec::new();
    let mut s: usize = 0;
    while s < target.subpasses.len()
        invariant
            s <= target.subpasses@.len(),
        decreases target.subpasses@.len() - s,
    {
        let refs = &target.subpasses[s].color_attachments;
        let mut color_refs: Vec<(u32, ImageLayout)> = Vec::new();
        let mut k: usize = 0;
        while k < refs.len()
            invariant
                k <= refs@.len(),
            decreases refs@.len() - k,
        {
            color_refs.push((refs[k].attachment, vk::vk_layout(refs[k].layout)));
            k = k + 1;
        }
        subpasses.push(vk::vk_subpass(color_refs));
        s = s + 1;
    }
    let mut dependencies: Vec<SubpassDependency> = Vec::new();
    let mut d: usize = 0;
    while d < target.dependencies.len()
        invariant
            d <= target.dependencies@.len(),
        decreases target.dependencies@.len() - d,
    {
        dependencies.push(vk::vk_dependency(&target.dependencies[d]));
        d = d + 1;
    }
    match vk::render_pass_new(device.clone(), attachments, subpasses, dependencies) {
        Ok(render_pass) => Ok(render_pass),
        Err(e) => Err(RendererError::ValidatedVulkanError(e)),
    }
}

/// The errors that building the renderer can end in.
pub open spec fn is_setup_error(e: RendererError) -> bool {
    ||| e matches RendererError::VulkanError(_)
    ||| e matches RendererError::ValidatedVulkanError(_)
    ||| e is NoPhysicalDeviceFound
    ||| e is GraphicalQueueFamily
    ||| e is FailedDeviceCreation
    ||| e is NoSurfaceFormat
    ||| e is NoCompositeAlpha
}

/// The errors that rebuilding the swapchain can end in.
pub open spec fn is_rebuild_error(e: RendererError) -> bool {
    ||| e matches RendererError::ValidatedVulkanError(_)
    ||| e is NoSurfaceFormat
    ||| e is NoCompositeAlpha
}

/// The renderer: instance, adapter, device and queue, the current swapchain
/// with the render pass built for it, and the allocators.
pub struct VulkanRenderer {
    instance: Arc<Instance>,
    adapter: SurfaceAdapter,
    device: SurfaceDevice,
    queue: Arc<Queue>,
    queue_families: Vec<u32>,
    queue_family_index: u32,
    swapchain: SwapchainState,
    render_target: RenderTargetDescriptor,
    render_pass: Arc<RenderPass>,
    memory_allocator: Arc<StandardMemoryAllocator>,
    command_buffer_allocator: Arc<StandardCommandBufferAllocator>,
}

impl VulkanRenderer {
    pub closed spec fn instance_spec(&self) -> Arc<Instance> {
        self.instance
    }

    pub closed spec fn surface_spec(&self) -> Arc<Surface> {
        self.device.surface_spec()
    }

    pub closed spec fn device_spec(&self) -> Arc<Device> {
        self.device.device_spec()
    }

    pub closed spec fn queue_spec(&self) -> Arc<Queue> {
        self.queue
    }

    /// The queue flag bits of the adapter's families, by family index.
    pub closed spec fn queue_families_spec(&self) -> Seq<u32> {
        self.queue_families@
    }

    /// The family the queue was taken from.
    pub closed spec fn queue_family_index_spec(&self) -> u32 {
        self.queue_family_index
    }

    pub closed spec fn swapchain_spec(&self) -> SwapchainState {
        self.swapchain
    }

    pub closed spec fn render_target_spec(&self) -> RenderTargetDescriptor {
        self.render_target
    }

    pub closed spec fn memory_allocator_spec(&self) -> Arc<StandardMemoryAllocator> {
        self.memory_allocator
    }

    pub closed spec fn command_buffer_allocator_spec(&self) -> Arc<StandardCommandBufferAllocator> {
        self.command_buffer_allocator
    }

    /// The adapter, device and swapchain share one surface.
    pub closed spec fn shares_surface(&self) -> bool {
        &&& self.adapter.surface_spec() == self.device.surface_spec()
    }

    /// The queue comes from the lowest graphics-capable family, the swapchain
    /// is consistent with what it was planned from, and the render target is
    /// the one for the swapchain's format.
    pub open spec fn wf(&self) -> bool {
        &&& self.shares_surface()
        &&& is_first_graphics(self.queue_families_spec(), self.queue_family_index_spec() as int)
        &&& self.swapchain_spec().wf()
        &&& describes_swapchain_target(
            self.render_target_spec(),
            self.swapchain_spec().plan.format.format_spec(),
        )
    }

    /// Builds the renderer for the window that `surface` was created from,
    /// whose size is `window_size`, on the surface's own instance. The
    /// surface must not outlive that window.
    pub fn new(surface: Arc<Surface>, window_size: [u32; 2]) -> (r: Result<Self, RendererError>)
        ensures
            r matches Ok(renderer) ==> {
                &&& renderer.wf()
                &&& renderer.surface_spec() == surface
                &&& renderer.swapchain_spec().plan.image_extent == window_size
            },
            r matches Err(e) ==> is_setup_error(e),
    {
        let instance = vk::surface_instance(&surface);
        let adapter = select_physical_device(&surface)?;
        let created = create_device_and_queue(&adapter)?;
        let DeviceAndQueue { device, queue, queue_families, queue_family_index } = created;
        let swapchain = create_swapchain(&adapter, &device, window_size)?;
        let memory_allocator = vk::memory_allocator_new(device.device());
        let render_target = render_target_descriptor(swapchain.plan.format.format());
        let render_pass = create_render_pass(&device.device(), &render_target)?;
        let command_buffer_allocator = vk::command_buffer_allocator_new(device.device());
        Ok(
            VulkanRenderer {
                instance,
                adapter,
                device,
                queue,
                queue_families,
                queue_family_index,
                swapchain,
                render_target,
                render_pass,
                memory_allocator,
                command_buffer_allocator,
            },
        )
    }

    /// Rebuilds the swapchain, and the render pass that depends on its format,
    /// for a window of size `new_size`. On failure nothing changes.
    pub fn resize(&mut self, new_size: [u32; 2]) -> (r: Result<(), RendererError>)
        requires
            old(self).wf(),
        ensures
            final(self).wf(),
            final(self).instance_spec() == old(self).instance_spec(),
            final(self).surface_spec() == old(self).surface_spec(),
            final(self).device_spec() == old(self).device_spec(),
            final(self).queue_spec() == old(self).queue_spec(),
            final(self).queue_families_spec() == old(self).queue_families_spec(),
            final(self).queue_family_index_spec() == old(self).queue_family_index_spec(),
            final(self).memory_allocator_spec() == old(self).memory_allocator_spec(),
            final(self).command_buffer_allocator_spec() == old(self).command_buffer_allocator_spec(),
            r is Ok ==> final(self).swapchain_spec().plan.image_extent == new_size,
            r is Err ==> *final(self) == *old(self),
            r matches Err(e) ==> is_rebuild_error(e),
    {
        let swapchain = create_swapchain(&self.adapter, &self.device, new_size)?;
        let render_target = render_target_descriptor(swapchain.plan.format.format());
        let render_pass = create_render_pass(&self.device.device(), &render_target)?;
        self.swapchain = swapchain;
        self.render_target = render_target;
        self.render_pass = render_pass;
        Ok(())
    }

    /// The logical device.
    pub fn device(&self) -> (r: Arc<Device>)
        ensures
            r == self.device_spec(),
    {
        self.device.device()
    }

    /// The graphics queue.
    pub fn queue(&self) -> (r: Arc<Queue>)
        ensures
            r == self.queue_spec(),
    {
        self.queue.clone()
    }

    /// The current swapchain and what it was planned from.
    pub fn swapchain(&self) -> (r: &SwapchainState)
        ensures
            *r == self.swapchain_spec(),
    {
        &self.swapchain
    }

    /// The descriptor of the current render pass.
    pub fn render_target(&self) -> (r: &RenderTargetDescriptor)
        ensures
            *r == self.render_target_spec(),
    {
        &self.render_target
    }

    /// The render pass built for the current swapchain.
    pub fn render_pass(&self) -> Arc<RenderPass> {
        self.render_pass.clone()
    }

    /// The allocator of command buffers.
    pub fn command_buffer_allocator(&self) -> (r: Arc<StandardCommandBufferAllocator>)
        ensures
            r == self.command_buffer_allocator_spec(),
    {
        self.command_buffer_allocator.clone()
    }

    fn allocate<T: BufferContents>(&self, class: BufferClass, values: Vec<T>) -> (r: Result<
        BufferAllocation<T>,
        RendererError,
    >)
        requires
            values@.len() > 0,
        ensures
            r matches Ok(b) ==> b.class == class && b.len == values@.len(),
            r is Err ==> r matches Err(RendererError::AllocationError(_)),
    {
        let len = values.len();
        let chosen = recipe(class);
        match vk::buffer_from_iter(self.memory_allocator.clone(), &chosen, values) {
            Ok(buffer) => Ok(BufferAllocation { buffer, class, len }),
            Err(e) => Err(RendererError::AllocationError(e)),
        }
    }

    /// Allocates a uniform buffer holding `values`, in device-preferred memory
    /// that the host writes sequentially.
    pub fn create_uniform_buffer_from_iter<T: BufferContents>(&self, values: Vec<T>) -> (r: Result<
        BufferAllocation<T>,
        RendererError,
    >)
        requires
            values@.len() > 0,
        ensures
            r matches Ok(b) ==> b.class == BufferClass::UniformUpload && b.len == values@.len(),
            r is Err ==> r matches Err(RendererError::AllocationError(_)),
    {
        self.allocate(BufferClass::UniformUpload, values)
    }

    /// Allocates a transfer-source staging buffer holding `values`, in
    /// host-preferred memory that the host writes sequentially.
    pub fn create_source_buffer_from_iter<T: BufferContents>(&self, values: Vec<T>) -> (r: Result<
        BufferAllocation<T>,
        RendererError,
    >)
        requires
            values@.len() > 0,
        ensures
            r matches Ok(b) ==> b.class == BufferClass::TransferSource && b.len == values@.len(),
            r is Err ==> r matches Err(RendererError::AllocationError(_)),
    {
        self.allocate(BufferClass::TransferSource, values)
    }

    /// Allocates a transfer-destination staging buffer holding `values`, in
    /// host-preferred memory that the host reads and writes in any order.
    pub fn create_destination_buffer_from_iter<T: BufferContents>(&self, values: Vec<T>) -> (r:
        Result<BufferAllocation<T>, RendererError>)
        requires
            values@.len() > 0,
        ensures
            r matches Ok(b) ==> b.class == BufferClass::TransferDestination && b.len == values@.len(),
            r is Err ==> r matches Err(RendererError::AllocationError(_)),
    {
        self.allocate(BufferClass::TransferDestination, values)
    }
}

} // verus!

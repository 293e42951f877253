//! The errors of the renderer.

use vstd::prelude::*;

use vulkano::buffer::AllocateBufferError;
use vulkano::swapchain::FromWindowError;
use vulkano::{LoadingError, Validated, VulkanError};

verus! {

/// Why building or rebuilding the renderer, or allocating a buffer, failed.
#[non_exhaustive]
#[derive(Debug, Default)]
pub enum RendererError {
    #[default]
    UnknownError,
    /// A driver call failed.
    VulkanError(VulkanError),
    /// A driver call was refused by validation or failed.
    ValidatedVulkanError(Validated<VulkanError>),
    /// The Vulkan library could not be loaded.
    LibraryLoadFailure(LoadingError),
    /// A surface could not be created for the window.
    VulkanWindowError(FromWindowError),
    /// The adapter reports no surface format.
    NoSurfaceFormat,
    /// The surface supports no composite-alpha mode.
    NoCompositeAlpha,
    /// The adapters could not be enumerated.
    EnumeratePhysicalDevice,
    /// The enumeration of adapters is empty.
    NoPhysicalDeviceFound,
    /// No queue family of the adapter has the graphics capability.
    GraphicalQueueFamily,
    /// The logical device was created without a queue.
    FailedDeviceCreation,
    /// The window cannot hand out the native handles.
    HandleError(raw_window_handle::HandleError),
    /// A buffer could not be allocated.
    AllocationError(Validated<AllocateBufferError>),
}

} // verus!

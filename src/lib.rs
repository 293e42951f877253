//! A Vulkan device and swapchain layer: it picks an adapter and a graphics
//! queue family, creates the logical device, plans and (re)creates the
//! swapchain, describes the render target and allocates the three kinds of
//! buffers that the renderer offers.

mod vk;

pub mod buffers;
pub mod error;
pub mod render_target;
pub mod renderer;
pub mod selection;

pub use error::RendererError;
pub use renderer::{BufferAllocation, SwapchainState, VulkanRenderer};
pub use vk::{SurfaceAdapter, SurfaceDevice};
pub use selection::{SurfaceCapabilities, SurfaceFormat, SwapchainPlan};

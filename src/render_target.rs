//! The render target descriptor: one color attachment in the swapchain's
//! format, one subpass that writes it, and the two dependencies that order
//! rendering against presentation.

use vstd::prelude::*;

use vulkano::format::Format;

verus! {

/// What happens to an attachment's contents when a render pass begins.
#[derive(Clone, Copy, Debug, PartialEq, Eq, Structural)]
pub enum LoadOp {
    Load,
    Clear,
    DontCare,
}

/// What happens to an attachment's contents when a render pass ends.
#[derive(Clone, Copy, Debug, PartialEq, Eq, Structural)]
pub enum StoreOp {
    Store,
    DontCare,
}

/// The image layouts that the descriptor speaks of.
#[derive(Clone, Copy, Debug, PartialEq, Eq, Structural)]
pub enum Layout {
    Undefined,
    ColorAttachmentOptimal,
    PresentSrc,
}

/// The pipeline stages that the dependencies speak of.
#[derive(Clone, Copy, Debug, PartialEq, Eq, Structural)]
pub enum Stage {
    ColorAttachmentOutput,
    BottomOfPipe,
}

/// The memory accesses that the dependencies speak of.
#[derive(Clone, Copy, Debug, PartialEq, Eq, Structural)]
pub enum Access {
    NoAccess,
    ColorAttachmentWrite,
}

/// One attachment of a render pass.
#[derive(Clone, Copy, Debug)]
pub struct AttachmentSpec {
    pub format: Format,
    pub samples: u32,
    pub load_op: LoadOp,
    pub store_op: StoreOp,
    pub initial_layout: Layout,
    pub final_layout: Layout,
}

/// A reference from a subpass to an attachment, by index.
#[derive(Clone, Copy, Debug, PartialEq, Eq, Structural)]
pub struct ColorRef {
    pub attachment: u32,
    pub layout: Layout,
}

/// One subpass: the attachments it writes color to.
#[derive(Clone, Debug)]
pub struct SubpassSpec {
    pub color_attachments: Vec<ColorRef>,
}

/// An execution and memory dependency between two subpasses; `None` stands
/// for what happens outside the render pass.
#[derive(Clone, Copy, Debug, PartialEq, Eq, Structural)]
pub struct DependencySpec {
    pub src_subpass: Option<u32>,
    pub dst_subpass: Option<u32>,
    pub src_stage: Stage,
    pub dst_stage: Stage,
    pub src_access: Access,
    pub dst_access: Access,
}

/// The attachments, subpasses and dependencies of a render pass.
#[derive(Clone, Debug)]
pub struct RenderTargetDescriptor {
    pub attachments: Vec<AttachmentSpec>,
    pub subpasses: Vec<SubpassSpec>,
    pub dependencies: Vec<DependencySpec>,
}

/// The single color attachment: cleared on load, stored at the end, from an
/// undefined layout to one ready for presentation.
pub open spec fn color_attachment(format: Format) -> AttachmentSpec {
    AttachmentSpec {
        format,
        samples: 1,
        load_op: LoadOp::Clear,
        store_op: StoreOp::Store,
        initial_layout: Layout::Undefined,
        final_layout: Layout::PresentSrc,
    }
}

/// Colour writes of the subpass wait for earlier work outside the pass, whose
/// image may still be presented.
pub open spec fn incoming_dependency() -> DependencySpec {
    DependencySpec {
        src_subpass: None,
        dst_subpass: Some(0),
        src_stage: Stage::ColorAttachmentOutput,
        dst_stage: Stage::ColorAttachmentOutput,
        src_access: Access::NoAccess,
        dst_access: Access::ColorAttachmentWrite,
    }
}

/// The subpass's writes are visible before presentation waits on them.
pub open spec fn outgoing_dependency() -> DependencySpec {
    DependencySpec {
        src_subpass: Some(0),
        dst_subpass: None,
        src_stage: Stage::ColorAttachmentOutput,
        dst_stage: Stage::BottomOfPipe,
        src_access: Access::ColorAttachmentWrite,
        dst_access: Access::NoAccess,
    }
}

pub open spec fn describes_swapchain_target(d: RenderTargetDescriptor, format: Format) -> bool {
    &&& d.attachments@ == seq![color_attachment(format)]
    &&& d.subpasses@.len() == 1
    &&& d.subpasses@[0].color_attachments@ == seq![
        ColorRef { attachment: 0, layout: Layout::ColorAttachmentOptimal },
    ]
    &&& d.dependencies@ == seq![incoming_dependency(), outgoing_dependency()]
}

/// Describes the render pass that draws straight into swapchain images of
/// format `format`.
pub fn render_target_descriptor(format: Format) -> (d: RenderTargetDescriptor)
    ensures
        describes_swapchain_target(d, format),
{
    let attachment = AttachmentSpec {
        format,
        samples: 1,
        load_op: LoadOp::Clear,
        store_op: StoreOp::Store,
        initial_layout: Layout::Undefined,
        final_layout: Layout::PresentSrc,
    };
    let subpass = SubpassSpec {
        color_attachments: vec![ColorRef { attachment: 0, layout: Layout::ColorAttachmentOptimal }],
    };
    let incoming = DependencySpec {
        src_subpass: None,
        dst_subpass: Some(0),
        src_stage: Stage::ColorAttachmentOutput,
        dst_stage: Stage::ColorAttachmentOutput,
        src_access: Access::NoAccess,
        dst_access: Access::ColorAttachmentWrite,
    };
    let outgoing = DependencySpec {
        src_subpass: Some(0),
        dst_subpass: None,
        src_stage: Stage::ColorAttachmentOutput,
        dst_stage: Stage::BottomOfPipe,
        src_access: Access::ColorAttachmentWrite,
        dst_access: Access::NoAccess,
    };
    let d = RenderTargetDescriptor {
        attachments: vec![attachment],
        subpasses: vec![subpass],
        dependencies: vec![incoming, outgoing],
    };
    proof {
        assert(d.attachments@ =~= seq![color_attachment(format)]);
        assert(d.subpasses@[0].color_attachments@ =~= seq![
            ColorRef { attachment: 0, layout: Layout::ColorAttachmentOptimal },
        ]);
        assert(d.dependencies@ =~= seq![incoming_dependency(), outgoing_dependency()]);
    }
    d
}

} // verus!

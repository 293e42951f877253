use vk_renderer::buffers::{recipe, BufferClass, BufferUse, HostAccess, Placement};
use vk_renderer::render_target::{
    render_target_descriptor, Access, ColorRef, DependencySpec, Layout, LoadOp, Stage, StoreOp,
};
use vulkano::format::Format;

#[test]
fn render_target_single_attachment() {
    let d = render_target_descriptor(Format::R8G8B8A8_UNORM);
    assert_eq!(d.attachments.len(), 1);
    let a = &d.attachments[0];
    assert_eq!(a.format, Format::R8G8B8A8_UNORM);
    assert_eq!(a.samples, 1);
    assert_eq!(a.load_op, LoadOp::Clear);
    assert_eq!(a.store_op, StoreOp::Store);
    assert_eq!(a.initial_layout, Layout::Undefined);
    assert_eq!(a.final_layout, Layout::PresentSrc);
}

#[test]
fn render_target_single_subpass() {
    let d = render_target_descriptor(Format::B8G8R8A8_SRGB);
    assert_eq!(d.subpasses.len(), 1);
    assert_eq!(
        d.subpasses[0].color_attachments,
        vec![ColorRef { attachment: 0, layout: Layout::ColorAttachmentOptimal }]
    );
}

#[test]
fn render_target_dependencies() {
    let d = render_target_descriptor(Format::B8G8R8A8_SRGB);
    assert_eq!(
        d.dependencies,
        vec![
            DependencySpec {
                src_subpass: None,
                dst_subpass: Some(0),
                src_stage: Stage::ColorAttachmentOutput,
                dst_stage: Stage::ColorAttachmentOutput,
                src_access: Access::NoAccess,
                dst_access: Access::ColorAttachmentWrite,
            },
            DependencySpec {
                src_subpass: Some(0),
                dst_subpass: None,
                src_stage: Stage::ColorAttachmentOutput,
                dst_stage: Stage::BottomOfPipe,
                src_access: Access::ColorAttachmentWrite,
                dst_access: Access::NoAccess,
            },
        ]
    );
}

#[test]
fn uniform_recipe() {
    let r = recipe(BufferClass::UniformUpload);
    assert_eq!(r.usage, BufferUse::Uniform);
    assert_eq!(r.placement, Placement::PreferDevice);
    assert_eq!(r.host_access, HostAccess::SequentialWrite);
}

#[test]
fn source_recipe() {
    let r = recipe(BufferClass::TransferSource);
    assert_eq!(r.usage, BufferUse::TransferSrc);
    assert_eq!(r.placement, Placement::PreferHost);
    assert_eq!(r.host_access, HostAccess::SequentialWrite);
}

#[test]
fn destination_recipe() {
    let r = recipe(BufferClass::TransferDestination);
    assert_eq!(r.usage, BufferUse::TransferDst);
    assert_eq!(r.placement, Placement::PreferHost);
    assert_eq!(r.host_access, HostAccess::RandomAccess);
}

#[test]
fn recipes_differ() {
    let u = recipe(BufferClass::UniformUpload);
    let s = recipe(BufferClass::TransferSource);
    let d = recipe(BufferClass::TransferDestination);
    assert_ne!(u, s);
    assert_ne!(s, d);
    assert_ne!(u, d);
}

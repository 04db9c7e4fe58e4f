use kiln::{
    background_color, ClearColor, Command, Device, DeviceHandle, Drawable, FixedSurface,
    LoadAction, PixelFormat, PrimitiveType, QueueOp, Renderer, RenderPass, RenderStages,
    ResourceOptions,
};

const OPTS: ResourceOptions = ResourceOptions::CpuCacheModeDefaultCache;

fn fresh_queue() -> kiln::Queue {
    Device::from_handle(DeviceHandle { id: 1 }).new_queue()
}

fn simple_renderer() -> Renderer<u32, u32> {
    let mut device = Device::from_handle(DeviceHandle { id: 1 });
    let lib = device.compile_library_from_source("lib", "src").expect("compile");
    let pipeline = device
        .pipeline_builder(&lib)
        .vertex("v")
        .fragment("f")
        .color_format(PixelFormat::Bgra8Unorm)
        .build()
        .expect("pipeline");
    let vb = device.vertex_buffer_from_slice(&[1u32, 2, 3], OPTS);
    Renderer::new(device, pipeline, vb)
}

fn surface(id: u64) -> FixedSurface {
    FixedSurface {
        pass: Some(RenderPass::new()),
        drawable: Some(Drawable::new(id)),
        handle: DeviceHandle { id: 1 },
        format: PixelFormat::Bgra8Unorm,
    }
}

#[test]
fn begin_frame_clears_to_background() {
    let mut r = simple_renderer();
    let mut s = surface(3);
    let frame = r.begin_frame(&mut s).expect("frame");
    assert_eq!(frame.pass().clear_color(), background_color());
    assert_eq!(frame.pass().load_action(), LoadAction::Clear);
    assert!(!frame.is_ended());
    assert!(frame.commands().is_empty());
    assert_eq!(frame.drawable().id(), 3);
    assert!(!frame.drawable().was_presented());
    assert_eq!(r.allocator().reset_count(), 1);
    assert!(!r.allocator().ready());
}

#[test]
fn begin_frame_none_leaves_renderer_alone() {
    let mut r = simple_renderer();
    let mut s = surface(3);
    s.pass = None;
    assert!(r.begin_frame(&mut s).is_none());
    assert_eq!(r.allocator().reset_count(), 0);
    assert!(r.allocator().ready());
}

#[test]
fn end_is_idempotent() {
    let mut r = simple_renderer();
    let mut s = surface(3);
    let mut frame = r.begin_frame(&mut s).expect("frame");
    assert!(!frame.is_ended());
    frame.end();
    assert!(frame.is_ended());
    frame.end();
    assert!(frame.is_ended());
    assert!(frame.commands().is_empty());
    let mut q = fresh_queue();
    let _ = frame.finish(&mut q);
    assert_eq!(q.commit_count(), 1);
}

#[test]
fn set_clear_overrides_background() {
    let mut r = simple_renderer();
    let mut s = surface(3);
    let mut frame = r.begin_frame(&mut s).expect("frame");
    let red = ClearColor {
        red_bits: 0x3FF0_0000_0000_0000,
        green_bits: 0,
        blue_bits: 0,
        alpha_bits: 0x3FF0_0000_0000_0000,
    };
    frame.set_clear(red, LoadAction::Clear);
    assert_eq!(frame.pass().clear_color(), red);
}

#[test]
fn finish_submits_and_presents_exactly_once() {
    let mut r = simple_renderer();
    let mut s = surface(11);
    let frame = r.begin_frame(&mut s).expect("frame");
    let mut q = fresh_queue();
    let drawable = frame.finish(&mut q);
    assert!(drawable.was_presented());
    assert_eq!(drawable.id(), 11);
    assert_eq!(
        q.log().as_slice(),
        &[
            QueueOp::WaitDrawable { drawable: 11 },
            QueueOp::Commit { which: 0 },
            QueueOp::SignalDrawable { drawable: 11 },
            QueueOp::Present { drawable: 11 },
        ]
    );
    let committed = q.committed();
    assert_eq!(committed.len(), 1);
    assert!(committed[0].has_ended());
    assert!(committed[0].commands().is_empty());
}

#[test]
fn finish_after_explicit_end_submits_once() {
    let mut r = simple_renderer();
    let mut s = surface(4);
    let mut frame = r.begin_frame(&mut s).expect("frame");
    frame.end();
    let mut q = fresh_queue();
    let drawable = frame.finish(&mut q);
    assert!(drawable.was_presented());
    assert_eq!(q.commit_count(), 1);
}

#[test]
fn encoder_records_into_the_frame() {
    let mut r = simple_renderer();
    let mut s = surface(4);
    let mut frame = r.begin_frame(&mut s).expect("frame");
    let mut enc = frame.encoder().expect("encoder");
    enc.draw_primitives(PrimitiveType::Triangle, 0, 3);
    enc.draw_primitives_instanced(PrimitiveType::Line, 1, 2, 5);
    frame.end_encoding(enc);
    assert_eq!(
        frame.commands().as_slice(),
        &[
            Command::Draw { primitive: PrimitiveType::Triangle, start: 0, count: 3 },
            Command::DrawInstanced {
                primitive: PrimitiveType::Line,
                start: 1,
                count: 2,
                instances: 5,
            },
        ]
    );
    let mut q = fresh_queue();
    let _ = frame.finish(&mut q);
    assert_eq!(q.committed()[0].commands().len(), 2);
}

#[test]
fn encoder_binds_pipeline_and_table() {
    let mut r = simple_renderer();
    let mut s = surface(4);
    let mut frame = r.begin_frame(&mut s).expect("frame");
    let mut enc = frame.encoder().expect("encoder");
    enc.set_pipeline(r.pipeline());
    enc.set_argument_table_at_stages(r.argument_table(), RenderStages::Vertex);
    frame.end_encoding(enc);
    assert_eq!(
        frame.commands().as_slice(),
        &[
            Command::SetPipeline { color_format: PixelFormat::Bgra8Unorm, blending: false },
            Command::SetArgumentTable { stages: RenderStages::Vertex },
        ]
    );
}

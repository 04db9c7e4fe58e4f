use kiln::{
    Command, Device, DeviceHandle, Drawable, FrameStatus, PixelFormat, PrimitiveType, QueueOp,
    Renderer, RenderPass, RenderStages, RenderSurface, ResourceOptions,
};

const OPTS: ResourceOptions = ResourceOptions::CpuCacheModeDefaultCache;

#[derive(Copy, Clone, PartialEq, Debug)]
struct SceneProps {
    time: f32,
}

#[derive(Copy, Clone, PartialEq, Debug)]
struct VertexInput {
    position: [f32; 3],
    color: [f32; 3],
}

/// A surface that counts how often it was asked for a target or a
/// drawable, handing out copies of fixed values.
struct SpySurface {
    pass: Option<RenderPass>,
    drawable: Option<Drawable>,
    handle: DeviceHandle,
    format: PixelFormat,
    target_calls: u32,
    drawable_calls: u32,
}

impl SpySurface {
    fn available(drawable_id: u64) -> SpySurface {
        SpySurface {
            pass: Some(RenderPass::new()),
            drawable: Some(Drawable::new(drawable_id)),
            handle: DeviceHandle { id: 1 },
            format: PixelFormat::Bgra8Unorm,
            target_calls: 0,
            drawable_calls: 0,
        }
    }

    fn unavailable() -> SpySurface {
        SpySurface { pass: None, drawable: None, ..SpySurface::available(0) }
    }
}

impl RenderSurface for SpySurface {
    // The trait's specification-only items are never called at runtime.
    fn spec_device(&self) -> DeviceHandle {
        unreachable!()
    }

    fn spec_color_pixel_format(&self) -> PixelFormat {
        unreachable!()
    }

    fn current_render_pass_target(&mut self) -> Option<RenderPass> {
        self.target_calls += 1;
        self.pass
    }

    fn current_drawable(&mut self) -> Option<Drawable> {
        self.drawable_calls += 1;
        self.drawable
    }

    fn device(&self) -> DeviceHandle {
        self.handle
    }

    fn color_pixel_format(&self) -> PixelFormat {
        self.format
    }
}

fn triangle_renderer() -> Renderer<SceneProps, VertexInput> {
    let mut device = Device::from_handle(DeviceHandle { id: 1 });
    let lib = device
        .compile_library_from_source("triangle", "vertex_main fragment_main")
        .expect("compile");
    let pipeline = device
        .pipeline_builder(&lib)
        .vertex("vertex_main")
        .fragment("fragment_main")
        .color_format(PixelFormat::Bgra8Unorm)
        .build()
        .expect("pipeline");
    let verts = [
        VertexInput { position: [-0.433, -0.25, 0.0], color: [1.0, 0.0, 0.0] },
        VertexInput { position: [0.433, -0.25, 0.0], color: [0.0, 1.0, 0.0] },
        VertexInput { position: [0.0, 0.5, 0.0], color: [0.0, 0.0, 1.0] },
    ];
    let vb = device.vertex_buffer_from_slice(&verts, OPTS);
    Renderer::new(device, pipeline, vb)
}

#[test]
fn skip_when_no_target() {
    let mut r = triangle_renderer();
    let mut surface = SpySurface::available(5);
    surface.pass = None;
    let status = r.draw_frame(&mut surface, SceneProps { time: 1.0 });
    assert_eq!(status, FrameStatus::Skipped);
    assert_eq!(surface.target_calls, 1);
    assert_eq!(surface.drawable_calls, 0);
    assert_eq!(r.allocator().reset_count(), 0);
    assert_eq!(r.queue().commit_count(), 0);
    assert!(r.queue().log().is_empty());
    assert_eq!(r.uniform().read_one(0), None);
    assert_eq!(r.argument_table().slot(0), 0);
    assert_eq!(r.argument_table().slot(1), 0);
}

#[test]
fn skip_when_no_drawable() {
    let mut r = triangle_renderer();
    let mut surface = SpySurface::available(5);
    surface.drawable = None;
    let status = r.draw_frame(&mut surface, SceneProps { time: 1.0 });
    assert_eq!(status, FrameStatus::Skipped);
    assert_eq!(surface.target_calls, 1);
    assert_eq!(surface.drawable_calls, 1);
    assert_eq!(r.allocator().reset_count(), 0);
    assert_eq!(r.queue().commit_count(), 0);
    assert!(r.queue().log().is_empty());
    assert_eq!(r.uniform().read_one(0), None);
}

#[test]
fn skipped_frame_retries_next_tick() {
    let mut r = triangle_renderer();
    let mut surface = SpySurface::unavailable();
    assert_eq!(r.draw_frame(&mut surface, SceneProps { time: 0.1 }), FrameStatus::Skipped);
    let mut surface = SpySurface::available(4);
    assert_eq!(r.draw_frame(&mut surface, SceneProps { time: 0.2 }), FrameStatus::Presented);
    assert_eq!(r.allocator().reset_count(), 1);
    assert_eq!(r.queue().commit_count(), 1);
}

#[test]
fn one_frame_resets_opens_submits_presents_once_in_order() {
    let mut r = triangle_renderer();
    let mut surface = SpySurface::available(9);
    let status = r.draw_frame(&mut surface, SceneProps { time: 0.25 });
    assert_eq!(status, FrameStatus::Presented);
    assert_eq!(surface.target_calls, 1);
    assert_eq!(surface.drawable_calls, 1);
    assert_eq!(r.allocator().reset_count(), 1);
    assert_eq!(r.queue().commit_count(), 1);
    assert_eq!(
        r.queue().log().as_slice(),
        &[
            QueueOp::WaitDrawable { drawable: 9 },
            QueueOp::Commit { which: 0 },
            QueueOp::SignalDrawable { drawable: 9 },
            QueueOp::Present { drawable: 9 },
        ]
    );
    assert_eq!(r.last_drawable(), 9);
    let committed = r.queue().committed();
    assert_eq!(committed.len(), 1);
    assert!(committed[0].has_ended());
}

#[test]
fn two_frames_submit_twice_in_order() {
    let mut r = triangle_renderer();
    let mut surface = SpySurface::available(7);
    assert_eq!(r.draw_frame(&mut surface, SceneProps { time: 0.1 }), FrameStatus::Presented);
    let mut surface2 = SpySurface::available(8);
    assert_eq!(r.draw_frame(&mut surface2, SceneProps { time: 0.2 }), FrameStatus::Presented);
    assert_eq!(r.allocator().reset_count(), 2);
    assert_eq!(r.queue().commit_count(), 2);
    assert_eq!(
        r.queue().log().as_slice(),
        &[
            QueueOp::WaitDrawable { drawable: 7 },
            QueueOp::Commit { which: 0 },
            QueueOp::SignalDrawable { drawable: 7 },
            QueueOp::Present { drawable: 7 },
            QueueOp::WaitDrawable { drawable: 8 },
            QueueOp::Commit { which: 1 },
            QueueOp::SignalDrawable { drawable: 8 },
            QueueOp::Present { drawable: 8 },
        ]
    );
    assert_eq!(r.uniform().read_one(0), Some(SceneProps { time: 0.2 }));
}

#[test]
fn triangle_frame_updates_uniform_and_bindings() {
    let mut r = triangle_renderer();
    let mut surface = SpySurface::available(2);
    let status = r.draw_frame(&mut surface, SceneProps { time: 0.5 });
    assert_eq!(status, FrameStatus::Presented);
    assert_eq!(r.uniform().read_one(0), Some(SceneProps { time: 0.5 }));
    assert_eq!(r.argument_table().slot(0), r.uniform().gpu_address());
    assert_eq!(r.argument_table().slot(1), r.vertex_buffer().gpu_address());
    assert_eq!(r.argument_table().slot(2), 0);
}

#[test]
fn plain_draw_records_one_triangle_draw() {
    let mut r = triangle_renderer();
    assert_eq!(r.instance_count(), 1);
    let mut surface = SpySurface::available(2);
    r.draw_frame(&mut surface, SceneProps { time: 0.0 });
    let committed = r.queue().committed();
    assert_eq!(
        committed[0].commands().as_slice(),
        &[
            Command::SetPipeline { color_format: PixelFormat::Bgra8Unorm, blending: false },
            Command::SetArgumentTable { stages: RenderStages::Vertex },
            Command::Draw { primitive: PrimitiveType::Triangle, start: 0, count: 3 },
        ]
    );
}

#[test]
fn instanced_draw_is_one_command_not_many() {
    let mut r = triangle_renderer();
    r.set_instance_count(100);
    let mut surface = SpySurface::available(2);
    assert_eq!(r.draw_frame(&mut surface, SceneProps { time: 0.0 }), FrameStatus::Presented);
    let committed = r.queue().committed();
    assert_eq!(committed.len(), 1);
    let commands = committed[0].commands();
    assert_eq!(commands.len(), 3);
    assert_eq!(
        commands[2],
        Command::DrawInstanced {
            primitive: PrimitiveType::Triangle,
            start: 0,
            count: 3,
            instances: 100,
        }
    );
    let draws = commands
        .iter()
        .filter(|c| matches!(c, Command::Draw { .. } | Command::DrawInstanced { .. }))
        .count();
    assert_eq!(draws, 1);
}

#[test]
fn instance_count_one_stays_plain() {
    let mut r = triangle_renderer();
    r.set_instance_count(100);
    r.set_instance_count(1);
    let mut surface = SpySurface::available(2);
    r.draw_frame(&mut surface, SceneProps { time: 0.0 });
    assert!(matches!(
        r.queue().committed()[0].commands()[2],
        Command::Draw { primitive: PrimitiveType::Triangle, start: 0, count: 3 }
    ));
}

#[test]
fn index_buffer_binds_at_slot_two() {
    let mut r = triangle_renderer();
    let mut d = Device::from_handle(DeviceHandle { id: 1 });
    let ib = kiln::IndexBuffer::from_u16(&mut d, &[0, 1, 2], OPTS);
    let addr = ib.gpu_address();
    r.set_index_buffer(ib);
    let mut surface = SpySurface::available(2);
    assert_eq!(r.draw_frame(&mut surface, SceneProps { time: 0.0 }), FrameStatus::Presented);
    assert_eq!(r.argument_table().slot(2), addr);
}

#[test]
fn renderer_new_starts_clean() {
    let r = triangle_renderer();
    assert_eq!(r.instance_count(), 1);
    assert!(r.index_buffer().is_none());
    assert_eq!(r.allocator().reset_count(), 0);
    assert!(r.allocator().ready());
    assert!(r.queue().log().is_empty());
    assert_eq!(r.queue().commit_count(), 0);
    assert_eq!(r.uniform().len(), 1);
    assert_eq!(r.uniform().read_one(0), None);
    assert_eq!(r.argument_table().max_buffer_slots(), 3);
    assert_eq!(r.vertex_buffer().len(), 3);
    assert_eq!(r.last_drawable(), 0);
    assert_eq!(r.pipeline().vertex_function().as_str(), "vertex_main");
}

#[test]
fn draw_frame_with_presents_exactly_when_both_available() {
    let mut r = triangle_renderer();
    let scene = SceneProps { time: 0.75 };
    assert_eq!(r.draw_frame_with(None, None, scene), FrameStatus::Skipped);
    assert_eq!(r.draw_frame_with(Some(RenderPass::new()), None, scene), FrameStatus::Skipped);
    assert_eq!(r.draw_frame_with(None, Some(Drawable::new(6)), scene), FrameStatus::Skipped);
    assert_eq!(r.allocator().reset_count(), 0);
    assert!(r.queue().log().is_empty());
    assert_eq!(
        r.draw_frame_with(Some(RenderPass::new()), Some(Drawable::new(6)), scene),
        FrameStatus::Presented
    );
    assert_eq!(r.allocator().reset_count(), 1);
    assert_eq!(r.queue().commit_count(), 1);
    assert_eq!(r.last_drawable(), 6);
    assert_eq!(r.uniform().read_one(0), Some(scene));
}

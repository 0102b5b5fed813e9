use polygon_renderer::game::{Command, ElementState, Event, Game, Key, WindowEvent};
use polygon_renderer::geometry::{geometry_counts, index_buffer_contents, indices, NUM_VERTICES};
use polygon_renderer::pipeline::{
    create_pipeline, vertex_desc, BlendFactor, CullMode, IndexFormat, PrimitiveTopology,
    VertexFormat,
};
use polygon_renderer::renderer::{ClearColor, DrawCall, FrameRequest, Renderer};
use polygon_renderer::swapchain::{
    create_swapchain, PresentMode, Size, SwapchainConfig, TextureFormat, TextureUsage,
};

fn frame_800_600() -> DrawCall {
    DrawCall {
        clear: ClearColor { r: 10, g: 15, b: 80, a: 100 },
        first_index: 0,
        index_count: 9,
        base_vertex: 0,
        instance_count: 1,
    }
}

#[test]
fn resize_sets_swapchain_size() {
    let mut r = Renderer::new(Size::new(800, 600));
    for (w, h) in [(1u32, 1u32), (1024, 768), (3840, 2160), (u32::MAX, 7)] {
        let c = r.resize(Size::new(w, h)).expect("a swapchain for a size with pixels");
        assert_eq!((c.width, c.height), (w, h));
        let sc = r.sc_desc.expect("swapchain in force");
        assert_eq!((sc.width, sc.height), (w, h));
        assert_eq!(r.size, Size::new(w, h));
    }
}

#[test]
fn zero_area_resize_then_valid_resize_restores_rendering() {
    let mut r = Renderer::new(Size::new(800, 600));
    assert_eq!(r.resize(Size::new(0, 0)), None);
    assert_eq!(r.resize(Size::new(0, 600)), None);
    assert_eq!(r.resize(Size::new(800, 0)), None);
    assert_eq!(r.size, Size::new(800, 0));
    assert_eq!(r.sc_desc, Some(create_swapchain(Size::new(800, 600))));
    assert_eq!(r.render(true), FrameRequest::Draw(frame_800_600()));
    assert_eq!(r.render(false), FrameRequest::Skip);
    let c = r.resize(Size::new(640, 480)).unwrap();
    assert_eq!((c.width, c.height), (640, 480));
    assert_eq!(r.render(true), FrameRequest::Draw(frame_800_600()));
}

#[test]
fn fresh_renderer_renders_without_resize() {
    let mut r = Renderer::new(Size::new(320, 200));
    assert_eq!(r.render(true), FrameRequest::Draw(frame_800_600()));
}

#[test]
fn repeated_renders_keep_state() {
    let mut r = Renderer::new(Size::new(800, 600));
    let before = r.clone();
    for _ in 0..100 {
        assert_eq!(r.render(true), FrameRequest::Draw(frame_800_600()));
    }
    assert_eq!(r.size, before.size);
    assert_eq!(r.sc_desc, before.sc_desc);
    assert_eq!(r.geometry, before.geometry);
    assert_eq!(r.render_pipeline.vertex_layout.attributes, before.render_pipeline.vertex_layout.attributes);
}

#[test]
fn failed_acquisition_skips_frame() {
    let mut r = Renderer::new(Size::new(800, 600));
    assert_eq!(r.render(false), FrameRequest::Skip);
    assert_eq!(r.render(true), FrameRequest::Draw(frame_800_600()));
}

#[test]
fn input_consumes_nothing() {
    let mut r = Renderer::new(Size::new(800, 600));
    let events = [
        WindowEvent::CloseRequested,
        WindowEvent::KeyboardInput { state: ElementState::Pressed, key: Some(Key::Escape) },
        WindowEvent::Resized(Size::new(1, 2)),
        WindowEvent::Other,
    ];
    for e in events.iter() {
        assert!(!r.input(e));
    }
    assert_eq!(r.size, Size::new(800, 600));
}

#[test]
fn update_changes_nothing() {
    let mut r = Renderer::new(Size::new(800, 600));
    r.update();
    assert_eq!(r.sc_desc, Some(create_swapchain(Size::new(800, 600))));
}

#[test]
fn end_to_end_800_by_600() {
    let mut r = Renderer::new(Size::new(800, 600));
    assert_eq!(
        r.sc_desc,
        Some(SwapchainConfig {
            usage: TextureUsage::OutputAttachment,
            format: TextureFormat::Bgra8UnormSrgb,
            width: 800,
            height: 600,
            present_mode: PresentMode::Fifo,
        })
    );
    assert_eq!(r.geometry.num_vertices, 5);
    assert_eq!(r.geometry.num_indices, 9);
    assert_eq!(r.render(true), FrameRequest::Draw(frame_800_600()));
}

#[test]
fn zero_area_initial_window_has_no_swapchain() {
    let mut r = Renderer::new(Size::new(0, 0));
    assert_eq!(r.sc_desc, None);
    assert_eq!(r.render(false), FrameRequest::Skip);
    assert!(r.resize(Size::new(10, 10)).is_some());
    assert_eq!(r.render(true), FrameRequest::Draw(frame_800_600()));
}

#[test]
fn resize_is_idempotent() {
    let mut r = Renderer::new(Size::new(800, 600));
    let a = r.resize(Size::new(500, 400));
    let first = r.clone();
    let b = r.resize(Size::new(500, 400));
    assert_eq!(a, b);
    assert_eq!(r.sc_desc, first.sc_desc);
    assert_eq!(r.size, first.size);
}

#[test]
fn polygon_index_list() {
    assert_eq!(indices(), vec![0u16, 1, 4, 1, 2, 4, 2, 3, 4]);
    assert!(indices().iter().all(|&i| u32::from(i) < NUM_VERTICES));
    let g = geometry_counts();
    assert_eq!((g.num_vertices, g.num_indices), (5, 9));
}

#[test]
fn index_buffer_holds_indices_as_bytes() {
    let b = index_buffer_contents();
    assert_eq!(b.len(), 18);
    let back: Vec<u16> = b.chunks(2).map(|p| u16::from_ne_bytes([p[0], p[1]])).collect();
    assert_eq!(back, indices());
}

#[test]
fn vertex_layout_position_then_color() {
    let l = vertex_desc();
    assert_eq!(l.stride, 24);
    assert_eq!(l.attributes.len(), 2);
    assert_eq!((l.attributes[0].offset, l.attributes[0].shader_location), (0, 0));
    assert_eq!((l.attributes[1].offset, l.attributes[1].shader_location), (12, 1));
    assert_eq!(l.attributes[1].format, VertexFormat::Float3);
}

#[test]
fn pipeline_matches_swapchain_format() {
    let sc = create_swapchain(Size::new(800, 600));
    let p = create_pipeline(&sc);
    assert_eq!(p.color_format, sc.format);
    assert_eq!(p.topology, PrimitiveTopology::TriangleList);
    assert_eq!(p.cull_mode, CullMode::Back);
    assert_eq!(p.color_blend.src_factor, BlendFactor::SrcAlpha);
    assert_eq!(p.color_blend.dst_factor, BlendFactor::OneMinusSrcAlpha);
    assert_eq!(p.alpha_blend.src_factor, BlendFactor::One);
    assert_eq!(p.index_format, IndexFormat::Uint16);
    assert_eq!(p.sample_count, 1);
    assert_eq!(p.sample_mask, u32::MAX);
    assert!(!p.depth_stencil);
}

#[test]
fn game_dispatches_events() {
    let mut g = Game::new(Size::new(800, 600));
    let own = |event| Event::Window { own_window: true, event };
    assert_eq!(g.handle(own(WindowEvent::CloseRequested)), Command::Exit);
    assert_eq!(
        g.handle(own(WindowEvent::KeyboardInput { state: ElementState::Pressed, key: Some(Key::Escape) })),
        Command::Exit
    );
    assert_eq!(
        g.handle(own(WindowEvent::KeyboardInput { state: ElementState::Released, key: Some(Key::Escape) })),
        Command::Nothing
    );
    assert_eq!(
        g.handle(own(WindowEvent::KeyboardInput { state: ElementState::Pressed, key: Some(Key::Other) })),
        Command::Nothing
    );
    assert_eq!(
        g.handle(Event::Window { own_window: false, event: WindowEvent::CloseRequested }),
        Command::Nothing
    );
    assert_eq!(
        g.handle(own(WindowEvent::Resized(Size::new(640, 480)))),
        Command::Reconfigure(create_swapchain(Size::new(640, 480)))
    );
    assert_eq!(g.handle(own(WindowEvent::ScaleFactorChanged(Size::new(0, 480)))), Command::Nothing);
    assert_eq!(g.renderer.size, Size::new(0, 480));
    assert_eq!(g.handle(Event::RedrawRequested), Command::Render);
    assert_eq!(g.handle(Event::MainEventsCleared), Command::RequestRedraw);
    assert_eq!(g.handle(Event::Other), Command::Nothing);
}

#[test]
fn zero_area_sizes() {
    assert!(Size::new(0, 0).is_zero_area());
    assert!(Size::new(0, 5).is_zero_area());
    assert!(Size::new(5, 0).is_zero_area());
    assert!(!Size::new(1, 1).is_zero_area());
}

#[test]
fn zero_area_keeps_old_swapchain_and_draws_on_acquired_image() {
    let mut r = Renderer::new(Size::new(800, 600));
    assert_eq!(r.resize(Size::new(0, 600)), None);
    assert_eq!(r.sc_desc, Some(create_swapchain(Size::new(800, 600))));
    assert_eq!(r.render(true), FrameRequest::Draw(frame_800_600()));
}

#[test]
fn pipeline_has_no_depth_bias() {
    let p = create_pipeline(&create_swapchain(Size::new(800, 600)));
    assert!(!p.clamp_depth);
    assert_eq!((p.depth_bias, p.depth_bias_slope_scale, p.depth_bias_clamp), (0, 0, 0));
}

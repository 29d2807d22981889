use wgpu_surfaces::event::PhysicalSize;
use wgpu_surfaces::wgpu_simplified::init::FRAME_LATENCY;
use wgpu_surfaces::wgpu_simplified::{
    IRenderPipeline, IndexFormat, InitWgpu, PrimitiveTopology,
};

#[test]
fn default_pipeline_is_a_depth_tested_triangle_list() {
    let pipeline: IRenderPipeline<u8, u8> = IRenderPipeline::default();
    assert_eq!(pipeline.shader, None);
    assert_eq!(pipeline.vs_shader, None);
    assert_eq!(pipeline.fs_shader, None);
    assert_eq!(pipeline.pipeline_layout, None);
    assert_eq!(pipeline.topology, PrimitiveTopology::TriangleList);
    assert_eq!(pipeline.strip_index_format, None);
    assert_eq!(pipeline.cull_mode, None);
    assert!(pipeline.is_depth_stencil);
    assert_eq!(pipeline.vs_entry, "vs_main");
    assert_eq!(pipeline.fs_entry, "fs_main");
    assert!(!pipeline.is_complete());
}

#[test]
fn pipeline_needs_a_layout_and_both_shaders() {
    let none: IRenderPipeline<u8, u8> = IRenderPipeline::default();
    let with_layout = IRenderPipeline { pipeline_layout: Some(1u8), ..none };
    assert!(!with_layout.is_complete());
    assert!(!IRenderPipeline { vs_shader: Some(2), ..with_layout }.is_complete());
    assert!(!IRenderPipeline { fs_shader: Some(3), ..with_layout }.is_complete());
    assert!(IRenderPipeline { vs_shader: Some(2), fs_shader: Some(3), ..with_layout }
        .is_complete());
    assert!(IRenderPipeline { shader: Some(4), ..with_layout }.is_complete());
    assert!(!IRenderPipeline { shader: Some(4), ..none }.is_complete());
}

#[test]
fn separate_shaders_go_to_their_stages() {
    let mut pipeline = IRenderPipeline {
        vs_shader: Some("vertex"),
        fs_shader: Some("fragment"),
        pipeline_layout: Some(7u32),
        topology: PrimitiveTopology::LineList,
        ..IRenderPipeline::default()
    };
    let plan = pipeline.new(4);
    assert_eq!(plan.label, "Render Pipeline");
    assert_eq!(plan.layout, 7);
    assert_eq!(plan.vertex_module, "vertex");
    assert_eq!(plan.vertex_entry, "vs_main");
    assert_eq!(plan.fragment_module, "fragment");
    assert_eq!(plan.fragment_entry, "fs_main");
    assert_eq!(plan.topology, PrimitiveTopology::LineList);
    assert_eq!(plan.strip_index_format, None);
    assert!(plan.depth_stencil);
    assert_eq!(plan.sample_count, 4);
    assert_eq!(pipeline.vs_shader, Some("vertex"));
    assert_eq!(pipeline.fs_shader, Some("fragment"));
    assert_eq!(pipeline.shader, None);
}

#[test]
fn a_shared_shader_replaces_the_separate_ones() {
    let mut pipeline = IRenderPipeline {
        shader: Some("shared"),
        vs_shader: Some("vertex"),
        pipeline_layout: Some(7u32),
        strip_index_format: Some(IndexFormat::Uint32),
        topology: PrimitiveTopology::TriangleStrip,
        is_depth_stencil: false,
        vs_entry: "vs",
        fs_entry: "fs",
        ..IRenderPipeline::default()
    };
    let plan = pipeline.new(1);
    assert_eq!(plan.vertex_module, "shared");
    assert_eq!(plan.fragment_module, "shared");
    assert_eq!(plan.vertex_entry, "vs");
    assert_eq!(plan.fragment_entry, "fs");
    assert_eq!(plan.strip_index_format, Some(IndexFormat::Uint32));
    assert_eq!(plan.topology, PrimitiveTopology::TriangleStrip);
    assert!(!plan.depth_stencil);
    assert_eq!(plan.sample_count, 1);
    assert_eq!(pipeline.shader, Some("shared"));
    assert_eq!(pipeline.vs_shader, Some("shared"));
    assert_eq!(pipeline.fs_shader, Some("shared"));
}

#[test]
fn surface_takes_the_first_format_and_alpha_mode() {
    let size = PhysicalSize { width: 800, height: 600 };
    let init = InitWgpu::init_wgpu(size, 4, &vec!["bgra8", "rgba8"], &vec!['o', 'p']);
    assert_eq!(init.config.format, "bgra8");
    assert_eq!(init.config.alpha_mode, 'o');
    assert_eq!(init.config.width, 800);
    assert_eq!(init.config.height, 600);
    assert_eq!(init.config.desired_maximum_frame_latency, 2);
    assert_eq!(FRAME_LATENCY, 2);
    assert_eq!(init.size, size);
    assert_eq!(init.sample_count, 4);
}

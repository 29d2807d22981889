use wgpu_surfaces::event::{ElementState, Key, PhysicalKey, PhysicalSize, WindowEvent};
use wgpu_surfaces::scene::{
    draw_calls, plan_resize, step_cycle, DrawCall, PlotType, ResizePlan, FPS_INTERVAL,
};

#[test]
fn plot_types_cycle_in_three_steps() {
    assert_eq!(PlotType::ShapeOnly.next(), PlotType::WireframeOnly);
    assert_eq!(PlotType::WireframeOnly.next(), PlotType::Both);
    assert_eq!(PlotType::Both.next(), PlotType::ShapeOnly);
    for plot_type in [PlotType::Both, PlotType::ShapeOnly, PlotType::WireframeOnly] {
        assert_ne!(plot_type.next(), plot_type);
        assert_ne!(plot_type.next().next(), plot_type);
        assert_eq!(plot_type.next().next().next(), plot_type);
    }
}

fn shape(index_count: u32, instance_count: u32) -> DrawCall {
    DrawCall {
        pipeline: 0,
        vertex_buffer: 0,
        index_buffer: 0,
        bind_groups: (0, 1),
        index_count,
        instance_count,
    }
}

fn wireframe(index_count: u32, instance_count: u32) -> DrawCall {
    DrawCall {
        pipeline: 1,
        vertex_buffer: 1,
        index_buffer: 1,
        bind_groups: (2, 3),
        index_count,
        instance_count,
    }
}

#[test]
fn shape_only_draws_the_shape() {
    assert_eq!(draw_calls(PlotType::ShapeOnly, [30, 40], 1), vec![shape(30, 1)]);
}

#[test]
fn wireframe_only_draws_the_wireframe() {
    assert_eq!(draw_calls(PlotType::WireframeOnly, [30, 40], 1), vec![wireframe(40, 1)]);
}

#[test]
fn both_draws_the_shape_and_then_the_wireframe() {
    assert_eq!(
        draw_calls(PlotType::Both, [30, 40], 10_000),
        vec![shape(30, 10_000), wireframe(40, 10_000)]
    );
}

#[test]
fn resize_to_an_empty_window_is_skipped() {
    assert_eq!(plan_resize(PhysicalSize { width: 0, height: 600 }, 4), None);
    assert_eq!(plan_resize(PhysicalSize { width: 800, height: 0 }, 4), None);
    assert_eq!(plan_resize(PhysicalSize { width: 0, height: 0 }, 1), None);
}

#[test]
fn resize_rebuilds_the_multisampled_texture_only_with_several_samples() {
    let size = PhysicalSize { width: 1, height: 1 };
    assert_eq!(plan_resize(size, 0), Some(ResizePlan { size, rebuild_msaa: false }));
    assert_eq!(plan_resize(size, 1), Some(ResizePlan { size, rebuild_msaa: false }));
    assert_eq!(plan_resize(size, 2), Some(ResizePlan { size, rebuild_msaa: true }));
    assert_eq!(plan_resize(size, 4), Some(ResizePlan { size, rebuild_msaa: true }));
}

#[test]
fn cycle_steps_wrap_around() {
    assert_eq!(step_cycle(0, 23), 1);
    assert_eq!(step_cycle(21, 23), 22);
    assert_eq!(step_cycle(22, 23), 0);
    assert_eq!(step_cycle(2, 3), 0);
    assert_eq!(step_cycle(0, 1), 0);
    // 2^32 is 3 * 1431655765 + 1.
    assert_eq!(step_cycle(u32::MAX, 3), 1);
    assert_eq!(step_cycle(7, 3), 2);
}

#[test]
fn frame_rate_is_reported_every_five_seconds() {
    assert_eq!(FPS_INTERVAL, 5);
}

#[test]
fn pressed_key_is_the_logical_key_of_a_press() {
    let press = WindowEvent::KeyboardInput {
        logical_key: Key::Character('q'),
        physical_key: PhysicalKey::Other,
        state: ElementState::Pressed,
    };
    let release = WindowEvent::KeyboardInput {
        logical_key: Key::Character('q'),
        physical_key: PhysicalKey::Other,
        state: ElementState::Released,
    };
    assert_eq!(press.pressed(), Some(Key::Character('q')));
    assert_eq!(release.pressed(), None);
    assert_eq!(WindowEvent::CloseRequested.pressed(), None);
    assert_eq!(WindowEvent::RedrawRequested.pressed(), None);
    assert_eq!(WindowEvent::Resized(PhysicalSize { width: 1, height: 1 }).pressed(), None);
    assert_eq!(WindowEvent::Other.pressed(), None);
}

#[test]
fn text_of_one_character_is_a_character_key() {
    assert_eq!(Key::from_text("q"), Key::Character('q'));
    assert_eq!(Key::from_text("Q"), Key::Character('Q'));
    assert_eq!(Key::from_text("\u{e9}"), Key::Character('\u{e9}'));
    assert_eq!(Key::from_text(" "), Key::Character(' '));
    assert_eq!(Key::from_text(""), Key::Other);
    assert_eq!(Key::from_text("qq"), Key::Other);
    assert_eq!(Key::from_text("e\u{301}"), Key::Other);
}

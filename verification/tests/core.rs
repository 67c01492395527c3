use random_shader_window::dispatcher::{Action, Dispatcher, Event, Phase};
use random_shader_window::frame::{frame_plan, FrameCommand};
use random_shader_window::pipeline::{pipeline_desc, uniform_binding_desc, uniform_buffer_desc};
use random_shader_window::surface::{config_for, SurfaceSize};
use random_shader_window::uniform::UniformState;

fn le8(x: f32, y: f32) -> Vec<u8> {
    let mut v = x.to_le_bytes().to_vec();
    v.extend_from_slice(&y.to_le_bytes());
    v
}

fn render_commands(a: Action) -> Vec<FrameCommand> {
    match a {
        Action::Render { commands } => commands,
        other => panic!("expected a render action, got {:?}", other),
    }
}

#[test]
fn encode_unset_is_none() {
    let u = UniformState::Unset;
    assert!(u.encode().is_none());
}

#[test]
fn encode_known_matches_le_float_bytes() {
    let mut u = UniformState::Unset;
    u.update(10.0f32.to_bits(), 20.0f32.to_bits());
    assert_eq!(u.encode().unwrap(), le8(10.0, 20.0));
}

#[test]
fn encode_last_cursor_write_wins() {
    let mut u = UniformState::Unset;
    u.update(1.5f32.to_bits(), 2.5f32.to_bits());
    u.update(300.25f32.to_bits(), 4.0f32.to_bits());
    assert_eq!(u.encode().unwrap(), le8(300.25, 4.0));
}

#[test]
fn cursor_then_render_writes_cursor_bytes() {
    let mut d = Dispatcher::new(SurfaceSize { width: 640, height: 480 });
    let a = d.handle_event(Event::CursorMoved {
        x_bits: 10.0f32.to_bits(),
        y_bits: 20.0f32.to_bits(),
    });
    let commands = render_commands(a);
    assert_eq!(commands.len(), 9);
    assert_eq!(commands[5], FrameCommand::WriteUniform { bytes: le8(10.0, 20.0) });
}

#[test]
fn no_uniform_write_before_first_cursor_move() {
    let mut d = Dispatcher::new(SurfaceSize { width: 640, height: 480 });
    d.handle_event(Event::Resized { width: 100, height: 100 });
    d.handle_event(Event::Other);
    let commands = render_commands(d.handle_event(Event::RedrawRequested));
    assert!(commands.iter().all(|c| !matches!(c, FrameCommand::WriteUniform { .. })));
}

#[test]
fn resize_then_redraw_configured_before_present() {
    let mut d = Dispatcher::new(SurfaceSize { width: 640, height: 480 });
    let a = d.handle_event(Event::Resized { width: 800, height: 600 });
    match a {
        Action::Reconfigure { config } => {
            assert_eq!((config.width, config.height), (800, 600));
        }
        other => panic!("expected a reconfigure action, got {:?}", other),
    }
    assert_eq!((d.config.width, d.config.height), (800, 600));
    let commands = render_commands(d.handle_event(Event::RedrawRequested));
    assert_eq!((d.config.width, d.config.height), (800, 600));
    assert_eq!(*commands.last().unwrap(), FrameCommand::Present);
}

#[test]
fn last_resize_wins_clamped() {
    let mut d = Dispatcher::new(SurfaceSize { width: 1, height: 1 });
    d.handle_event(Event::Resized { width: 320, height: 200 });
    d.handle_event(Event::Resized { width: 0, height: 600 });
    d.handle_event(Event::RedrawRequested);
    assert_eq!((d.config.width, d.config.height), (1, 600));
}

#[test]
fn degenerate_resize_then_redraw_renders_clamped() {
    let mut d = Dispatcher::new(SurfaceSize { width: 640, height: 480 });
    d.handle_event(Event::Resized { width: 0, height: 0 });
    assert_eq!((d.config.width, d.config.height), (1, 1));
    let commands = render_commands(d.handle_event(Event::RedrawRequested));
    assert_eq!(commands[3], FrameCommand::Draw { vertices: 6, instances: 1 });
}

#[test]
fn largest_resize_kept_exactly() {
    let mut d = Dispatcher::new(SurfaceSize { width: 1, height: 1 });
    d.handle_event(Event::Resized { width: u32::MAX, height: u32::MAX });
    assert_eq!((d.config.width, d.config.height), (u32::MAX, u32::MAX));
}

#[test]
fn initial_configuration_is_clamped_window_size() {
    let d = Dispatcher::new(SurfaceSize { width: 0, height: 5 });
    assert_eq!((d.config.width, d.config.height), (1, 5));
    assert!(matches!(d.phase, Phase::Running));
    assert!(matches!(d.uniform, UniformState::Unset));
}

#[test]
fn every_frame_draws_six_vertices_one_instance() {
    let unset = frame_plan(&UniformState::Unset);
    let known = frame_plan(&UniformState::Known { x_bits: 7, y_bits: 9 });
    for commands in [unset, known] {
        let draws: Vec<&FrameCommand> = commands
            .iter()
            .filter(|c| matches!(c, FrameCommand::Draw { .. }))
            .collect();
        assert_eq!(draws.len(), 1);
        assert_eq!(*draws[0], FrameCommand::Draw { vertices: 6, instances: 1 });
    }
}

#[test]
fn frame_order_ends_submit_notify_present() {
    let commands = frame_plan(&UniformState::Unset);
    let n = commands.len();
    assert_eq!(commands[0], FrameCommand::BeginClearPass);
    assert_eq!(commands[n - 3], FrameCommand::Submit);
    assert_eq!(commands[n - 2], FrameCommand::PrePresentNotify);
    assert_eq!(commands[n - 1], FrameCommand::Present);
}

#[test]
fn close_terminates_and_ignores_the_rest() {
    let mut d = Dispatcher::new(SurfaceSize { width: 64, height: 64 });
    let a = d.handle_event(Event::CloseRequested);
    assert!(matches!(a, Action::Exit));
    assert!(matches!(d.phase, Phase::Terminated));
    let before = d;
    assert!(matches!(d.handle_event(Event::Resized { width: 9, height: 9 }), Action::Ignore));
    assert!(matches!(
        d.handle_event(Event::CursorMoved { x_bits: 1, y_bits: 2 }),
        Action::Ignore
    ));
    assert!(matches!(d.handle_event(Event::RedrawRequested), Action::Ignore));
    assert_eq!(d, before);
}

#[test]
fn other_events_are_ignored() {
    let mut d = Dispatcher::new(SurfaceSize { width: 64, height: 64 });
    let before = d;
    assert!(matches!(d.handle_event(Event::Other), Action::Ignore));
    assert_eq!(d, before);
}

#[test]
fn surface_recovery_reuses_current_size() {
    let mut d = Dispatcher::new(SurfaceSize { width: 64, height: 64 });
    d.handle_event(Event::Resized { width: 1024, height: 0 });
    let c = d.recover_surface();
    assert_eq!((c.width, c.height), (1024, 1));
}

#[test]
fn clamping_only_lifts_zero() {
    let c = config_for(SurfaceSize { width: 0, height: 7 });
    assert_eq!((c.width, c.height), (1, 7));
    let c = config_for(SurfaceSize { width: 7, height: 0 });
    assert_eq!((c.width, c.height), (7, 1));
    let c = config_for(SurfaceSize { width: 7, height: 7 });
    assert_eq!((c.width, c.height), (7, 7));
}

#[test]
fn uniform_buffer_descriptor_is_eight_byte_copy_dst() {
    let d = uniform_buffer_desc();
    assert_eq!(d.size, 8);
    assert!(d.uniform_usage);
    assert!(d.copy_dst_usage);
    assert!(!d.mapped_at_creation);
}

#[test]
fn uniform_binding_is_slot_zero_fragment_only() {
    let d = uniform_binding_desc();
    assert_eq!(d.group, 0);
    assert_eq!(d.binding, 0);
    assert!(d.fragment_visible);
    assert!(!d.vertex_visible);
    assert!(!d.has_dynamic_offset);
    assert!(d.min_binding_size.is_none());
}

#[test]
fn pipeline_has_no_vertex_buffers_one_surface_target() {
    let d = pipeline_desc();
    assert_eq!(d.vertex_buffer_count, 0);
    assert_eq!(d.color_target_count, 1);
    assert!(d.target_matches_surface_format);
    assert!(d.triangle_list);
    assert!(!d.has_depth_stencil);
    assert_eq!(d.sample_count, 1);
}

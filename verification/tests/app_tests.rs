use cube_renderer::app::{Action, ControlFlow, Event, WindowEvent};
use cube_renderer::bits::{ONE, ZERO};
use cube_renderer::descriptor::{Color, LoadOp, PresentMode, TextureFormat};
use cube_renderer::input::{DeviceEvent, ElementState, KeyboardInput, ESCAPE};
use cube_renderer::renderer::{PhysicalSize, RenderCommand};
use cube_renderer::{App, AppConfig, Config, WindowConfig};

fn config(width: i32, height: i32) -> Config {
    Config {
        window: WindowConfig {
            fullscreen: false,
            vsync: true,
            width,
            height,
            bg_color: [ZERO, ONE, ZERO, ONE],
        },
        application: AppConfig { name: String::from("demo"), logging: false },
    }
}

fn app() -> App {
    App::new(&config(800, 600), PhysicalSize { width: 640, height: 480 }).0
}

fn key(state: ElementState, code: u32) -> Event {
    Event::DeviceEvent(DeviceEvent::Key(KeyboardInput { state, virtual_keycode: Some(code) }))
}

#[test]
fn window_takes_the_configured_size_and_title() {
    let attributes = App::window_attributes(&config(800, 600));
    assert_eq!(attributes.inner_size, PhysicalSize { width: 800, height: 600 });
    assert_eq!(attributes.title, "demo");
}

#[test]
fn negative_extents_become_zero() {
    let attributes = App::window_attributes(&config(-1, i32::MIN));
    assert_eq!(attributes.inner_size, PhysicalSize { width: 0, height: 0 });
    let attributes = App::window_attributes(&config(-800, 600));
    assert_eq!(attributes.inner_size, PhysicalSize { width: 0, height: 600 });
}

#[test]
fn extreme_extents_are_kept() {
    let attributes = App::window_attributes(&config(i32::MAX, 0));
    assert_eq!(attributes.inner_size, PhysicalSize { width: 0x7FFF_FFFF, height: 0 });
    let attributes = App::window_attributes(&config(1, 16_777_217));
    assert_eq!(attributes.inner_size, PhysicalSize { width: 1, height: 16_777_217 });
}

#[test]
fn new_app_renders_into_the_actual_surface() {
    let (app, first_frame) = App::new(&config(800, 600), PhysicalSize { width: 640, height: 480 });
    assert_eq!(app.renderer().size(), PhysicalSize { width: 640, height: 480 });
    assert_eq!(app.renderer().sc_desc().width, 640);
    assert_eq!(app.renderer().sc_desc().height, 480);
    assert_eq!(app.renderer().sc_desc().format, TextureFormat::Bgra8UnormSrgb);
    assert_eq!(app.renderer().bg_color(), Color { r: ZERO, g: ONE, b: ZERO, a: ONE });
    assert_eq!(app.cube().num_indices, 6);
    assert!(!app.is_key_pressed(ESCAPE));
    assert!(first_frame.commands().is_empty());
    assert_eq!(first_frame.descriptor().color_attachments.len(), 1);
    assert_eq!(first_frame.descriptor().color_attachments[0].load_op, LoadOp::Clear);
    assert_eq!(
        first_frame.descriptor().color_attachments[0].clear_color,
        Color { r: ZERO, g: ONE, b: ZERO, a: ONE }
    );
}

#[test]
fn end_of_iteration_asks_for_a_redraw() {
    let mut app = app();
    let response = app.handle_event(&Event::MainEventsCleared);
    assert_eq!(response.control_flow, None);
    assert!(matches!(response.action, Action::RequestRedraw));
}

#[test]
fn escape_leaves_the_loop_at_the_end_of_the_iteration() {
    let mut app = app();
    let response = app.handle_event(&key(ElementState::Pressed, ESCAPE));
    assert_eq!(response.control_flow, None);
    assert!(matches!(response.action, Action::Nothing));
    assert!(app.is_key_pressed(ESCAPE));
    let response = app.handle_event(&Event::MainEventsCleared);
    assert_eq!(response.control_flow, Some(ControlFlow::Exit));
    assert!(matches!(response.action, Action::RequestRedraw));
}

#[test]
fn released_escape_does_not_leave_the_loop() {
    let mut app = app();
    app.handle_event(&key(ElementState::Pressed, ESCAPE));
    app.handle_event(&key(ElementState::Released, ESCAPE));
    let response = app.handle_event(&Event::MainEventsCleared);
    assert_eq!(response.control_flow, None);
}

#[test]
fn other_keys_do_not_leave_the_loop() {
    let mut app = app();
    app.handle_event(&key(ElementState::Pressed, ESCAPE + 1));
    assert!(app.is_key_pressed(ESCAPE + 1));
    let response = app.handle_event(&Event::MainEventsCleared);
    assert_eq!(response.control_flow, None);
}

#[test]
fn redraw_request_draws_the_cube() {
    let mut app = app();
    let response = app.handle_event(&Event::RedrawRequested);
    assert_eq!(response.control_flow, None);
    match response.action {
        Action::Submit(frame) => {
            assert_eq!(frame.commands().len(), 4);
            assert_eq!(frame.commands()[0], RenderCommand::SetPipeline);
            assert_eq!(
                frame.commands()[3],
                RenderCommand::DrawIndexed {
                    first_index: 0,
                    end_index: 6,
                    base_vertex: 0,
                    first_instance: 0,
                    end_instance: 1,
                }
            );
            assert_eq!(
                frame.descriptor().color_attachments[0].clear_color,
                Color { r: ZERO, g: ONE, b: ZERO, a: ONE }
            );
        }
        other => panic!("unexpected action {:?}", other),
    }
}

#[test]
fn close_request_leaves_the_loop() {
    let mut app = app();
    let response = app.handle_event(&Event::WindowEvent(WindowEvent::CloseRequested));
    assert_eq!(response.control_flow, Some(ControlFlow::Exit));
    assert!(matches!(response.action, Action::Nothing));
}

#[test]
fn resize_asks_for_a_new_swap_chain() {
    let mut app = app();
    let size = PhysicalSize { width: 1024, height: 768 };
    let response = app.handle_event(&Event::WindowEvent(WindowEvent::Resized(size)));
    assert_eq!(response.control_flow, None);
    match response.action {
        Action::CreateSwapChain(sc_desc) => {
            assert_eq!(sc_desc.width, 1024);
            assert_eq!(sc_desc.height, 768);
            assert_eq!(sc_desc.format, TextureFormat::Bgra8UnormSrgb);
            assert_eq!(sc_desc.present_mode, PresentMode::Immediate);
            assert!(sc_desc.usage.output_attachment);
            assert_eq!(sc_desc, app.renderer().sc_desc());
        }
        other => panic!("unexpected action {:?}", other),
    }
    assert_eq!(app.renderer().size(), size);
}

#[test]
fn scale_factor_change_asks_for_a_new_swap_chain() {
    let mut app = app();
    let size = PhysicalSize { width: 1280, height: 960 };
    let response = app.handle_event(&Event::WindowEvent(WindowEvent::ScaleFactorChanged {
        new_inner_size: size,
    }));
    assert_eq!(response.control_flow, None);
    match response.action {
        Action::CreateSwapChain(sc_desc) => {
            assert_eq!(sc_desc.width, 1280);
            assert_eq!(sc_desc.height, 960);
        }
        other => panic!("unexpected action {:?}", other),
    }
    assert_eq!(app.renderer().size(), size);
}

#[test]
fn end_of_the_loop_changes_nothing() {
    let mut app = app();
    let response = app.handle_event(&Event::LoopDestroyed);
    assert_eq!(response.control_flow, None);
    assert!(matches!(response.action, Action::Nothing));
    assert_eq!(app.renderer().size(), PhysicalSize { width: 640, height: 480 });
}

#[test]
fn device_events_reach_the_input_state() {
    let mut app = app();
    let response = app.handle_event(&key(ElementState::Pressed, 10));
    assert_eq!(response.control_flow, None);
    assert!(matches!(response.action, Action::Nothing));
    assert!(app.is_key_pressed(10));
    app.handle_event(&Event::DeviceEvent(DeviceEvent::Other));
    assert!(app.is_key_pressed(10));
    app.handle_event(&key(ElementState::Released, 10));
    assert!(!app.is_key_pressed(10));
}

#[test]
fn unused_events_switch_to_polling() {
    let mut app = app();
    let response = app.handle_event(&Event::Other);
    assert_eq!(response.control_flow, Some(ControlFlow::Poll));
    assert!(matches!(response.action, Action::Nothing));
    let response = app.handle_event(&Event::WindowEvent(WindowEvent::Other));
    assert_eq!(response.control_flow, Some(ControlFlow::Poll));
    assert!(matches!(response.action, Action::Nothing));
    assert_eq!(app.renderer().size(), PhysicalSize { width: 640, height: 480 });
}

#[test]
fn events_leave_the_cube_alone() {
    let mut app = app();
    app.handle_event(&Event::WindowEvent(WindowEvent::Resized(PhysicalSize {
        width: 1,
        height: 2,
    })));
    app.handle_event(&key(ElementState::Pressed, 1));
    assert_eq!(app.cube().num_indices, 6);
    assert_eq!(app.cube().mesh.indices, vec![0, 1, 2, 0, 2, 3]);
    assert_eq!(app.renderer().bg_color(), Color { r: ZERO, g: ONE, b: ZERO, a: ONE });
}

use mandelbrot_gpu::app::{Action, App, Command};
use mandelbrot_gpu::computer::MandelbrotParams;
use mandelbrot_gpu::event::{ElementState, Event, VirtualKeyCode, WindowEvent};
use mandelbrot_gpu::math::UVec2;
use mandelbrot_gpu::renderer::{PresentError, SurfaceConfig};

fn viewer() -> App {
    App::new(UVec2::new(1024, 1024), SurfaceConfig { width: 1024, height: 1024 })
}

fn key(state: ElementState, code: VirtualKeyCode) -> WindowEvent {
    WindowEvent::KeyboardInput { state, virtual_keycode: Some(code) }
}

fn assert_unchanged(app: &App, size: UVec2, surface: SurfaceConfig) {
    assert_eq!(app.computer.texture_size(), UVec2 { x: 1024, y: 1024 });
    assert_eq!(app.renderer.size(), size);
    assert_eq!(app.surface, surface);
}

#[test]
fn viewer_starts_with_both_engines_at_the_given_size() {
    let app = App::new(UVec2::new(1024, 512), SurfaceConfig { width: 2048, height: 1024 });
    assert_eq!(app.computer.texture_size(), UVec2 { x: 1024, y: 512 });
    assert_eq!(app.renderer.size(), UVec2 { x: 1024, y: 512 });
    assert_eq!(app.surface, SurfaceConfig { width: 2048, height: 1024 });
}

#[test]
fn pressed_keys_give_their_commands() {
    let app = viewer();
    let cases = [
        (VirtualKeyCode::Left, Some(Command::Left)),
        (VirtualKeyCode::Right, Some(Command::Right)),
        (VirtualKeyCode::Up, Some(Command::Up)),
        (VirtualKeyCode::Down, Some(Command::Down)),
        (VirtualKeyCode::NumpadAdd, Some(Command::ZoomIn)),
        (VirtualKeyCode::NumpadSubtract, Some(Command::ZoomOut)),
        (VirtualKeyCode::Escape, None),
        (VirtualKeyCode::Other, None),
    ];
    for (code, command) in cases {
        assert_eq!(app.handle_event(&key(ElementState::Pressed, code)), command);
    }
}

#[test]
fn released_keys_give_no_command() {
    let app = viewer();
    let codes = [
        VirtualKeyCode::Left,
        VirtualKeyCode::Right,
        VirtualKeyCode::Up,
        VirtualKeyCode::Down,
        VirtualKeyCode::NumpadAdd,
        VirtualKeyCode::NumpadSubtract,
        VirtualKeyCode::Escape,
        VirtualKeyCode::Other,
    ];
    for code in codes {
        assert_eq!(app.handle_event(&key(ElementState::Released, code)), None);
    }
}

#[test]
fn unnamed_keys_and_other_events_give_no_command() {
    let app = viewer();
    let unnamed =
        WindowEvent::KeyboardInput { state: ElementState::Pressed, virtual_keycode: None };
    assert_eq!(app.handle_event(&unnamed), None);
    assert_eq!(app.handle_event(&WindowEvent::CloseRequested), None);
    assert_eq!(app.handle_event(&WindowEvent::Resized(UVec2::new(3, 4))), None);
    assert_eq!(
        app.handle_event(&WindowEvent::ScaleFactorChanged { new_inner_size: UVec2::new(3, 4) }),
        None
    );
    assert_eq!(app.handle_event(&WindowEvent::Other), None);
}

#[test]
fn loop_navigates_on_a_command_key() {
    let mut app = viewer();
    let event = Event::WindowEvent(key(ElementState::Pressed, VirtualKeyCode::NumpadAdd));
    assert_eq!(app.on_event(&event), Action::Navigate(Command::ZoomIn));
    let event = Event::WindowEvent(key(ElementState::Pressed, VirtualKeyCode::Up));
    assert_eq!(app.on_event(&event), Action::Navigate(Command::Up));
    let event = Event::WindowEvent(key(ElementState::Released, VirtualKeyCode::Up));
    assert_eq!(app.on_event(&event), Action::Idle);
    assert_unchanged(
        &app,
        UVec2 { x: 1024, y: 1024 },
        SurfaceConfig { width: 1024, height: 1024 },
    );
}

#[test]
fn loop_exits_on_escape_and_on_close() {
    let mut app = viewer();
    let escape = Event::WindowEvent(key(ElementState::Pressed, VirtualKeyCode::Escape));
    assert_eq!(app.on_event(&escape), Action::Exit);
    assert_eq!(app.on_event(&Event::WindowEvent(WindowEvent::CloseRequested)), Action::Exit);
    let released = Event::WindowEvent(key(ElementState::Released, VirtualKeyCode::Escape));
    assert_eq!(app.on_event(&released), Action::Idle);
}

#[test]
fn loop_draws_and_asks_for_the_next_redraw() {
    let mut app = viewer();
    assert_eq!(app.on_event(&Event::RedrawRequested), Action::Draw);
    assert_eq!(app.on_event(&Event::MainEventsCleared), Action::RequestRedraw);
    assert_eq!(app.on_event(&Event::Other), Action::Idle);
    assert_eq!(app.on_event(&Event::WindowEvent(WindowEvent::Other)), Action::Idle);
    assert_unchanged(
        &app,
        UVec2 { x: 1024, y: 1024 },
        SurfaceConfig { width: 1024, height: 1024 },
    );
}

#[test]
fn loop_reconfigures_on_a_resize_with_area() {
    let mut app = viewer();
    let resized = Event::WindowEvent(WindowEvent::Resized(UVec2::new(800, 600)));
    assert_eq!(
        app.on_event(&resized),
        Action::Reconfigure(SurfaceConfig { width: 800, height: 600 })
    );
    assert_unchanged(&app, UVec2 { x: 800, y: 600 }, SurfaceConfig { width: 800, height: 600 });
    let scaled = Event::WindowEvent(WindowEvent::ScaleFactorChanged {
        new_inner_size: UVec2::new(1600, 1200),
    });
    assert_eq!(
        app.on_event(&scaled),
        Action::Reconfigure(SurfaceConfig { width: 1600, height: 1200 })
    );
    assert_unchanged(
        &app,
        UVec2 { x: 1600, y: 1200 },
        SurfaceConfig { width: 1600, height: 1200 },
    );
}

#[test]
fn loop_ignores_a_resize_without_area() {
    let mut app = viewer();
    for size in [UVec2::new(0, 600), UVec2::new(800, 0), UVec2::new(0, 0)] {
        assert_eq!(app.on_event(&Event::WindowEvent(WindowEvent::Resized(size))), Action::Idle);
        let scaled = WindowEvent::ScaleFactorChanged { new_inner_size: size };
        assert_eq!(app.on_event(&Event::WindowEvent(scaled)), Action::Idle);
        assert_eq!(app.resize(size), Action::Idle);
        assert_unchanged(
            &app,
            UVec2 { x: 1024, y: 1024 },
            SurfaceConfig { width: 1024, height: 1024 },
        );
    }
}

#[test]
fn presented_frame_asks_for_nothing() {
    let mut app = viewer();
    assert_eq!(app.after_frame(Ok(())), Action::Idle);
    assert_unchanged(
        &app,
        UVec2 { x: 1024, y: 1024 },
        SurfaceConfig { width: 1024, height: 1024 },
    );
}

#[test]
fn lost_surface_is_configured_anew_with_its_own_extent() {
    let mut app = App::new(UVec2::new(1024, 1024), SurfaceConfig { width: 800, height: 600 });
    assert_eq!(
        app.after_frame(Err(PresentError::Lost)),
        Action::Reconfigure(SurfaceConfig { width: 800, height: 600 })
    );
    assert_unchanged(&app, UVec2 { x: 800, y: 600 }, SurfaceConfig { width: 800, height: 600 });
}

#[test]
fn lost_surface_without_area_is_left_alone() {
    let mut app = App::new(UVec2::new(1024, 1024), SurfaceConfig { width: 0, height: 600 });
    assert_eq!(app.after_frame(Err(PresentError::Lost)), Action::Idle);
    assert_unchanged(&app, UVec2 { x: 1024, y: 1024 }, SurfaceConfig { width: 0, height: 600 });
}

#[test]
fn out_of_memory_leaves_the_loop() {
    let mut app = viewer();
    assert_eq!(app.after_frame(Err(PresentError::OutOfMemory)), Action::Exit);
}

#[test]
fn transient_failures_are_reported() {
    let mut app = viewer();
    assert_eq!(
        app.after_frame(Err(PresentError::Timeout)),
        Action::Report(PresentError::Timeout)
    );
    assert_eq!(
        app.after_frame(Err(PresentError::Outdated)),
        Action::Report(PresentError::Outdated)
    );
    assert_unchanged(
        &app,
        UVec2 { x: 1024, y: 1024 },
        SurfaceConfig { width: 1024, height: 1024 },
    );
}

#[test]
fn two_presses_of_zoom_in_lead_to_a_quarter_of_the_extent() {
    let mut app = viewer();
    let press = Event::WindowEvent(key(ElementState::Pressed, VirtualKeyCode::NumpadAdd));
    let release = Event::WindowEvent(key(ElementState::Released, VirtualKeyCode::NumpadAdd));
    let (center_x, center_y) = (0.0f32, 0.0f32);
    let mut zoom = 1.0f32;
    for event in [press, release, press, release] {
        match app.on_event(&event) {
            Action::Navigate(Command::ZoomIn) => zoom *= 0.5,
            Action::Idle => {}
            other => panic!("unexpected action {:?}", other),
        }
    }
    assert_eq!(zoom, 0.25);
    assert_eq!(app.on_event(&Event::RedrawRequested), Action::Draw);
    let params = MandelbrotParams {
        x_min: (center_x - zoom).to_bits(),
        x_max: (center_x + zoom).to_bits(),
        y_min: (center_y - zoom).to_bits(),
        y_max: (center_y + zoom).to_bits(),
        max_iterations: 180,
    };
    let pass = app.computer.run(&params);
    let mut expected = Vec::new();
    for bound in [-0.25f32, 0.25, -0.25, 0.25] {
        expected.extend_from_slice(&bound.to_ne_bytes());
    }
    expected.extend_from_slice(&180i32.to_ne_bytes());
    assert_eq!(pass.params, expected);
    assert_eq!(pass.workgroups, (64, 64, 1));
}

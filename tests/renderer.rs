use gui_core_00::errors::{GeneralError, GuiInitError};
use gui_core_00::geometry::{Color, Triangle, Vertex2D, UV_ONE};
use gui_core_00::renderer::{FrameCommand, FrameRenderer, KeyCode, LoopState, WindowEvent};
use gui_core_00::transform::Transform;

fn running_renderer() -> FrameRenderer {
    let mut r = FrameRenderer::new();
    let t = Triangle::new(
        Vertex2D::new(100, -50, UV_ONE, 0),
        Vertex2D::new(150, -50, UV_ONE, 0),
        Vertex2D::new(100, 50, UV_ONE, 0),
        Color::new(255, 255, 255, 1),
        None,
    );
    assert!(r.add_to_vertex_buffer(&t));
    r.prepare(1440, 900).unwrap();
    r.start();
    r
}

fn count(cmds: &[FrameCommand], pred: fn(&FrameCommand) -> bool) -> usize {
    cmds.iter().filter(|c| pred(c)).count()
}

#[test]
fn one_frame_without_input_keeps_running() {
    let mut r = running_renderer();
    assert_eq!(r.geometry_buffers().vertex_buffer().len(), 3);
    let cmds = r.frame_tick(&vec![]);
    assert!(!r.is_terminated());
    assert_eq!(count(&cmds, |c| matches!(c, FrameCommand::Clear(_))), 1);
    assert_eq!(count(&cmds, |c| matches!(c, FrameCommand::UpdateTransform(_))), 1);
    assert_eq!(count(&cmds, |c| matches!(c, FrameCommand::Draw)), 1);
    assert_eq!(count(&cmds, |c| matches!(c, FrameCommand::Present)), 1);
    assert_eq!(
        cmds,
        vec![
            FrameCommand::Clear(Color::black()),
            FrameCommand::UpdateTransform(Transform::screen_fit(1440, 900).unwrap()),
            FrameCommand::Draw,
            FrameCommand::Submit,
            FrameCommand::Present,
            FrameCommand::Cleanup,
        ]
    );
}

#[test]
fn escape_ends_loop_after_frame() {
    let mut r = running_renderer();
    let cmds = r.frame_tick(&vec![
        WindowEvent::KeyPressed(KeyCode::Other(65)),
        WindowEvent::KeyPressed(KeyCode::Escape),
    ]);
    assert_eq!(cmds.len(), 6);
    assert!(r.is_terminated());
}

#[test]
fn close_request_ends_loop() {
    let mut r = running_renderer();
    r.frame_tick(&vec![WindowEvent::CloseRequested]);
    assert!(r.is_terminated());
}

#[test]
fn other_keys_keep_running() {
    let mut r = running_renderer();
    r.frame_tick(&vec![WindowEvent::KeyPressed(KeyCode::Other(13))]);
    r.frame_tick(&vec![]);
    assert!(!r.is_terminated());
}

#[test]
fn prepare_needs_window_area() {
    let mut r = FrameRenderer::new();
    assert_eq!(r.prepare(0, 900), Err(GuiInitError::WindowInit));
    assert!(r.prepare(1440, 900).is_ok());
    let _ = LoopState::Ready;
}

#[test]
fn error_messages() {
    assert_eq!(
        GuiInitError::WindowInit.to_message(),
        "[GuiInitError]: Window and its handles could not be initialized"
    );
    assert_eq!(
        GuiInitError::EventLoopInit.to_message(),
        "[GuiInitError]: Event loop could not be initialized"
    );
    assert!(GeneralError::StructInit
        .to_message()
        .starts_with("[GeneralError]: Struct could not be initialized"));
}

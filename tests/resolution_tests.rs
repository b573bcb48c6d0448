use screen_mirror::command::GlCommand;
use screen_mirror::resolution::{process_events, requests_close, Key, KeyAction, Resolution, WindowEvent};

#[test]
fn resolution_initial_is_doubled_window() {
    assert_eq!(Resolution::initial(), Resolution { width: 1600, height: 900 });
    assert_eq!(Resolution::for_window(10, 20), Resolution { width: 20, height: 40 });
}

#[test]
fn resize_overwrites_resolution() {
    let mut r = Resolution { width: 5, height: 7 };
    assert_eq!(r.on_resize(1024, 768), GlCommand::Viewport(1024, 768));
    assert_eq!(r, Resolution { width: 1024, height: 768 });
    assert_eq!(r.on_resize(1024, 768), GlCommand::Viewport(1024, 768));
    assert_eq!(r, Resolution { width: 1024, height: 768 });
}

#[test]
fn escape_press_requests_close() {
    assert!(requests_close(WindowEvent::Key(Key::Escape, KeyAction::Press)));
    assert!(!requests_close(WindowEvent::Key(Key::Escape, KeyAction::Release)));
    assert!(!requests_close(WindowEvent::Key(Key::Other, KeyAction::Press)));
    assert!(!requests_close(WindowEvent::FramebufferSize(1, 1)));
}

#[test]
fn process_events_last_resize_wins() {
    let mut r = Resolution::initial();
    let events = vec![
        WindowEvent::FramebufferSize(640, 480),
        WindowEvent::Other,
        WindowEvent::FramebufferSize(800, 600),
    ];
    let (cmds, close) = process_events(&mut r, &events);
    assert_eq!(cmds, vec![GlCommand::Viewport(640, 480), GlCommand::Viewport(800, 600)]);
    assert!(!close);
    assert_eq!(r, Resolution { width: 800, height: 600 });
}

#[test]
fn process_events_escape_closes() {
    let mut r = Resolution::initial();
    let events = vec![WindowEvent::Key(Key::Escape, KeyAction::Press)];
    let (cmds, close) = process_events(&mut r, &events);
    assert!(cmds.is_empty());
    assert!(close);
    assert_eq!(r, Resolution::initial());
}

#[test]
fn process_events_none() {
    let mut r = Resolution { width: 3, height: 4 };
    let (cmds, close) = process_events(&mut r, &Vec::new());
    assert!(cmds.is_empty());
    assert!(!close);
    assert_eq!(r, Resolution { width: 3, height: 4 });
}

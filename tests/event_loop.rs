use game_engine::display::{Color, Command, FullscreenMode};
use game_engine::event::{classify, Action, Key, PlatformEvent};
use game_engine::event_loop::EventLoop;

#[test]
fn classify_bindings() {
    assert_eq!(classify(PlatformEvent::Quit), Action::Stop);
    assert_eq!(classify(PlatformEvent::KeyDown(Key::Escape)), Action::Stop);
    assert_eq!(classify(PlatformEvent::KeyDown(Key::F11)), Action::ToggleFullscreen);
    assert_eq!(classify(PlatformEvent::KeyDown(Key::Other)), Action::Ignore);
    assert_eq!(classify(PlatformEvent::WindowResized), Action::Repaint);
    assert_eq!(classify(PlatformEvent::WindowOther), Action::Ignore);
    assert_eq!(classify(PlatformEvent::Other), Action::Ignore);
}

#[test]
fn toggled_flips() {
    assert_eq!(FullscreenMode::Windowed.toggled(), FullscreenMode::FullscreenDesktop);
    assert_eq!(FullscreenMode::FullscreenDesktop.toggled(), FullscreenMode::Windowed);
    assert_eq!(FullscreenMode::Windowed.toggled().toggled(), FullscreenMode::Windowed);
}

#[test]
fn white_background() {
    assert_eq!(Color::white(), Color { r: 255, g: 255, b: 255, a: 255 });
}

#[test]
fn tick_empty_changes_nothing() {
    let mut l = EventLoop::new(FullscreenMode::Windowed);
    let cmds = l.tick(&vec![]);
    assert!(cmds.is_empty());
    assert_eq!(l, EventLoop { mode: FullscreenMode::Windowed, running: true });
}

#[test]
fn tick_three_f11() {
    let mut l = EventLoop::new(FullscreenMode::Windowed);
    let f = PlatformEvent::KeyDown(Key::F11);
    let cmds = l.tick(&vec![f, f, f]);
    assert_eq!(
        cmds,
        vec![
            Command::SetFullscreen(FullscreenMode::FullscreenDesktop),
            Command::SetFullscreen(FullscreenMode::Windowed),
            Command::SetFullscreen(FullscreenMode::FullscreenDesktop),
        ]
    );
    assert_eq!(l.mode, FullscreenMode::FullscreenDesktop);
    assert!(l.running);
}

#[test]
fn tick_escape_first_stops_at_once() {
    let mut l = EventLoop::new(FullscreenMode::Windowed);
    let cmds = l.tick(&vec![
        PlatformEvent::KeyDown(Key::Escape),
        PlatformEvent::WindowResized,
        PlatformEvent::KeyDown(Key::F11),
    ]);
    assert!(cmds.is_empty());
    assert!(!l.running);
    assert_eq!(l.mode, FullscreenMode::Windowed);
}

#[test]
fn stopped_loop_ignores_events() {
    let mut l = EventLoop { mode: FullscreenMode::Windowed, running: false };
    let cmds = l.tick(&vec![PlatformEvent::WindowResized]);
    assert!(cmds.is_empty());
    assert!(!l.running);
}

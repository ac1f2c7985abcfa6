use game_engine::display::{Color, Command, FullscreenMode, WINDOW_HEIGHT, WINDOW_WIDTH};
use game_engine::engine::{Directive, Engine, EngineError, Next, Report, Session, Stage};
use game_engine::event::{Key, PlatformEvent};

fn running_session(name: &str) -> Session {
    let engine = Engine::new(name);
    let (mut session, first) = engine.start();
    assert!(matches!(first.next, Next::InitPlatform));
    let d = session.advance(Report::PlatformReady);
    assert!(matches!(d.next, Next::CreateWindow(_)));
    let d = session.advance(Report::WindowReady);
    assert_eq!(d.commands, vec![Command::ClearAndPresent(Color::white())]);
    assert!(matches!(d.next, Next::PollEvents));
    session
}

fn poll(session: &mut Session, events: Vec<PlatformEvent>) -> Directive {
    session.advance(Report::Polled(events))
}

#[test]
fn new_keeps_name() {
    let engine = Engine::new("Test App");
    assert_eq!(engine.name(), "Test App");
}

#[test]
fn start_waits_for_platform() {
    let engine = Engine::new("Test App");
    let (session, d) = engine.start();
    assert_eq!(session.stage, Stage::AwaitingPlatform);
    assert_eq!(session.title, "Test App");
    assert!(d.commands.is_empty());
    assert!(matches!(d.next, Next::InitPlatform));
}

#[test]
fn subsystem_failure_ends_start_without_window() {
    let engine = Engine::new("Test App");
    let (mut session, _) = engine.start();
    let d = session.advance(Report::PlatformFailed("no display".to_string()));
    assert!(d.commands.is_empty());
    match d.next {
        Next::Finish(Err(EngineError::SubsystemUnavailable(m))) => assert_eq!(m, "no display"),
        other => panic!("unexpected {:?}", other),
    }
    assert!(session.is_finished());
    // Nothing that follows asks for a window.
    let d = session.advance(Report::WindowReady);
    assert!(matches!(d.next, Next::Finish(Err(EngineError::SubsystemUnavailable(_)))));
}

#[test]
fn window_request_uses_name_and_size() {
    let engine = Engine::new("Test App");
    let (mut session, _) = engine.start();
    let d = session.advance(Report::PlatformReady);
    match d.next {
        Next::CreateWindow(c) => {
            assert_eq!(c.title, "Test App");
            assert_eq!((c.width, c.height), (800, 600));
            assert_eq!((WINDOW_WIDTH, WINDOW_HEIGHT), (800, 600));
            assert!(c.resizable && c.centered);
            assert_eq!(c.initial_mode, FullscreenMode::FullscreenDesktop);
        }
        other => panic!("unexpected {:?}", other),
    }
    let c = engine.window_config();
    assert_eq!(c.title, "Test App");
}

#[test]
fn window_failure_is_fatal() {
    let (mut session, _) = Engine::new("A").start();
    session.advance(Report::PlatformReady);
    let d = session.advance(Report::WindowFailed("bad".to_string()));
    assert!(matches!(d.next, Next::Finish(Err(EngineError::WindowCreationFailed(_)))));
}

#[test]
fn surface_failure_is_fatal() {
    let (mut session, _) = Engine::new("A").start();
    session.advance(Report::PlatformReady);
    let d = session.advance(Report::SurfaceFailed("bad".to_string()));
    assert!(matches!(d.next, Next::Finish(Err(EngineError::SurfaceCreationFailed(_)))));
}

#[test]
fn stray_report_repeats_pending_step() {
    let (mut session, _) = Engine::new("A").start();
    let d = session.advance(Report::Polled(vec![PlatformEvent::Quit]));
    assert!(matches!(d.next, Next::InitPlatform));
    assert_eq!(session.stage, Stage::AwaitingPlatform);
}

#[test]
fn f11_twice_then_escape() {
    let mut session = running_session("Test App");
    let initial = session.mode();
    let d = poll(
        &mut session,
        vec![
            PlatformEvent::KeyDown(Key::F11),
            PlatformEvent::KeyDown(Key::F11),
            PlatformEvent::KeyDown(Key::Escape),
        ],
    );
    assert_eq!(
        d.commands,
        vec![
            Command::SetFullscreen(FullscreenMode::Windowed),
            Command::SetFullscreen(FullscreenMode::FullscreenDesktop),
        ]
    );
    assert!(matches!(d.next, Next::Finish(Ok(()))));
    assert_eq!(session.mode(), initial);
}

#[test]
fn two_resizes_then_quit() {
    let mut session = running_session("Test App");
    let d = poll(
        &mut session,
        vec![PlatformEvent::WindowResized, PlatformEvent::WindowResized, PlatformEvent::Quit],
    );
    assert_eq!(
        d.commands,
        vec![Command::ClearAndPresent(Color::white()), Command::ClearAndPresent(Color::white())]
    );
    assert!(matches!(d.next, Next::Finish(Ok(()))));
    assert!(session.is_finished());
}

#[test]
fn no_stop_keeps_polling() {
    let mut session = running_session("A");
    for _ in 0..5 {
        let d = poll(
            &mut session,
            vec![
                PlatformEvent::Other,
                PlatformEvent::WindowOther,
                PlatformEvent::KeyDown(Key::Other),
            ],
        );
        assert!(d.commands.is_empty());
        assert!(matches!(d.next, Next::PollEvents));
    }
    let d = poll(&mut session, vec![]);
    assert!(matches!(d.next, Next::PollEvents));
    assert!(!session.is_finished());
}

#[test]
fn quit_mid_tick_drops_later_events() {
    let mut session = running_session("A");
    let d = poll(
        &mut session,
        vec![
            PlatformEvent::WindowResized,
            PlatformEvent::Quit,
            PlatformEvent::KeyDown(Key::F11),
            PlatformEvent::WindowResized,
        ],
    );
    assert_eq!(d.commands, vec![Command::ClearAndPresent(Color::white())]);
    assert!(matches!(d.next, Next::Finish(Ok(()))));
    assert_eq!(session.mode(), FullscreenMode::FullscreenDesktop);
}

#[test]
fn resize_keeps_mode() {
    let mut session = running_session("A");
    let d = poll(&mut session, vec![PlatformEvent::KeyDown(Key::F11), PlatformEvent::WindowResized]);
    assert_eq!(
        d.commands,
        vec![
            Command::SetFullscreen(FullscreenMode::Windowed),
            Command::ClearAndPresent(Color::white()),
        ]
    );
    assert_eq!(session.mode(), FullscreenMode::Windowed);
    assert!(matches!(d.next, Next::PollEvents));
}

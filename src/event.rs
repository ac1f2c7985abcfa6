use vstd::prelude::*;

verus! {

/// The keys the shell reacts to; every other key is `Other`.
#[derive(Clone, Copy, Debug, PartialEq, Eq, Structural)]
pub enum Key {
    Escape,
    F11,
    Other,
}

/// One event pulled from the platform's queue.
#[derive(Clone, Copy, Debug, PartialEq, Eq, Structural)]
pub enum PlatformEvent {
    /// The window-close request.
    Quit,
    KeyDown(Key),
    WindowResized,
    /// Any other window sub-event.
    WindowOther,
    Other,
}

/// What the loop does in answer to one event.
#[derive(Clone, Copy, Debug, PartialEq, Eq, Structural)]
pub enum Action {
    Stop,
    ToggleFullscreen,
    Repaint,
    Ignore,
}

/// The keyboard and window contract: close or Escape stops, F11 toggles the
/// display mode, a resize repaints, everything else is ignored.
pub open spec fn action_of(e: PlatformEvent) -> Action {
    match e {
        PlatformEvent::Quit => Action::Stop,
        PlatformEvent::KeyDown(Key::Escape) => Action::Stop,
        PlatformEvent::KeyDown(Key::F11) => Action::ToggleFullscreen,
        PlatformEvent::WindowResized => Action::Repaint,
        _ => Action::Ignore,
    }
}

pub open spec fn is_stop(e: PlatformEvent) -> bool {
    action_of(e) == Action::Stop
}

pub fn classify(e: PlatformEvent) -> (a: Action)
    ensures
        a == action_of(e),
{
    match e {
        PlatformEvent::Quit => Action::Stop,
        PlatformEvent::KeyDown(Key::Escape) => Action::Stop,
        PlatformEvent::KeyDown(Key::F11) => Action::ToggleFullscreen,
        PlatformEvent::WindowResized => Action::Repaint,
        _ => Action::Ignore,
    }
}

} // verus!

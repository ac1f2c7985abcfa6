use vstd::prelude::*;

use crate::display::{background, is_window_for, Color, Command, FullscreenMode, WindowConfig};
use crate::event::PlatformEvent;
use crate::event_loop::{run_events, EventLoop};

verus! {

/// A fatal failure while setting up; each carries the platform's message.
#[derive(Debug)]
pub enum EngineError {
    SubsystemUnavailable(String),
    WindowCreationFailed(String),
    SurfaceCreationFailed(String),
}

/// A copy of `o`, field for field.
fn copy_outcome(o: &Result<(), EngineError>) -> (r: Result<(), EngineError>)
    ensures
        r == *o,
{
    match o {
        Ok(u) => Ok(*u),
        Err(EngineError::SubsystemUnavailable(m)) => Err(EngineError::SubsystemUnavailable(m.clone())),
        Err(EngineError::WindowCreationFailed(m)) => Err(EngineError::WindowCreationFailed(m.clone())),
        Err(EngineError::SurfaceCreationFailed(m)) => Err(EngineError::SurfaceCreationFailed(m.clone())),
    }
}

/// What the platform answers to the step a session asked for.
#[derive(Debug)]
pub enum Report {
    /// The windowing subsystem and its event queue are up.
    PlatformReady,
    PlatformFailed(String),
    /// The window and its drawable surface exist.
    WindowReady,
    WindowFailed(String),
    SurfaceFailed(String),
    /// Everything that was queued, in arrival order.
    Polled(Vec<PlatformEvent>),
}

/// The next blocking or fallible step that the platform is to take.
#[derive(Debug)]
pub enum Next {
    InitPlatform,
    CreateWindow(WindowConfig),
    PollEvents,
    /// The run is over: tear the window and the platform down and return this.
    Finish(Result<(), EngineError>),
}

/// Commands to carry out first, in order, then the next step.
#[derive(Debug)]
pub struct Directive {
    pub commands: Vec<Command>,
    pub next: Next,
}

#[derive(Clone, Copy, Debug, PartialEq, Eq, Structural)]
pub enum Stage {
    AwaitingPlatform,
    AwaitingWindow,
    Running,
    Finished,
}

/// One run of the engine, from platform start-up to the end of the loop.
#[derive(Debug)]
pub struct Session {
    pub title: String,
    pub stage: Stage,
    pub events: EventLoop,
    /// What the run returns once it is finished.
    pub outcome: Result<(), EngineError>,
}

/// Whether `r` is an answer to the step that a session in `stage` waits on.
pub open spec fn answers(stage: Stage, r: Report) -> bool {
    match stage {
        Stage::AwaitingPlatform => r is PlatformReady || r is PlatformFailed,
        Stage::AwaitingWindow => r is WindowReady || r is WindowFailed || r is SurfaceFailed,
        Stage::Running => r is Polled,
        Stage::Finished => false,
    }
}

/// Whether `n` is the step that session `s` waits on.
pub open spec fn is_pending(s: Session, n: Next) -> bool {
    match s.stage {
        Stage::AwaitingPlatform => n is InitPlatform,
        Stage::AwaitingWindow => n matches Next::CreateWindow(c) && is_window_for(c, s.title@),
        Stage::Running => n is PollEvents,
        Stage::Finished => n == Next::Finish(s.outcome),
    }
}

/// The session that a report moves `s` to, and the commands it issues, for a
/// report that answers the pending step.
pub open spec fn after_report(s: Session, r: Report) -> (Session, Seq<Command>) {
    match r {
        Report::PlatformReady => (Session { stage: Stage::AwaitingWindow, ..s }, seq![]),
        Report::PlatformFailed(m) => (
            Session { stage: Stage::Finished, outcome: Err(EngineError::SubsystemUnavailable(m)), ..s },
            seq![],
        ),
        Report::WindowReady => (
            Session { stage: Stage::Running, ..s },
            seq![Command::ClearAndPresent(background())],
        ),
        Report::WindowFailed(m) => (
            Session { stage: Stage::Finished, outcome: Err(EngineError::WindowCreationFailed(m)), ..s },
            seq![],
        ),
        Report::SurfaceFailed(m) => (
            Session { stage: Stage::Finished, outcome: Err(EngineError::SurfaceCreationFailed(m)), ..s },
            seq![],
        ),
        Report::Polled(evs) => {
            let (next, cs) = run_events(s.events, evs@);
            if next.running {
                (Session { events: next, ..s }, cs)
            } else {
                (Session { stage: Stage::Finished, events: next, outcome: Ok(()), ..s }, cs)
            }
        },
    }
}

impl Session {
    /// The window this session asks for.
    pub fn window_config(&self) -> (c: WindowConfig)
        ensures
            is_window_for(c, self.title@),
    {
        WindowConfig::for_title(self.title.as_str())
    }

    /// The tracked display mode of the window.
    pub fn mode(&self) -> (m: FullscreenMode)
        ensures
            m == self.events.mode,
    {
        self.events.mode
    }

    pub fn is_finished(&self) -> (b: bool)
        ensures
            b == (self.stage == Stage::Finished),
    {
        self.stage == Stage::Finished
    }

    /// The step this session waits on.
    fn pending(&self) -> (n: Next)
        ensures
            is_pending(*self, n),
    {
        match self.stage {
            Stage::AwaitingPlatform => Next::InitPlatform,
            Stage::AwaitingWindow => Next::CreateWindow(self.window_config()),
            Stage::Running => Next::PollEvents,
            Stage::Finished => Next::Finish(copy_outcome(&self.outcome)),
        }
    }

    /// Takes the platform's answer to the pending step and says what to do
    /// next. A report that answers nothing pending changes nothing and the
    /// pending step is asked for again.
    pub fn advance(&mut self, report: Report) -> (d: Directive)
        ensures
            !answers(old(self).stage, report) ==> {
                &&& *final(self) == *old(self)
                &&& d.commands@ == Seq::<Command>::empty()
                &&& is_pending(*old(self), d.next)
            },
            answers(old(self).stage, report) ==> {
                &&& (*final(self), d.commands@) == after_report(*old(self), report)
                &&& is_pending(*final(self), d.next)
            },
    {
        let ghost start = *self;
        let mut commands: Vec<Command> = Vec::new();
        match (self.stage, report) {
            (Stage::AwaitingPlatform, Report::PlatformReady) => {
                self.stage = Stage::AwaitingWindow;
            },
            (Stage::AwaitingPlatform, Report::PlatformFailed(m)) => {
                self.stage = Stage::Finished;
                self.outcome = Err(EngineError::SubsystemUnavailable(m));
            },
            (Stage::AwaitingWindow, Report::WindowReady) => {
                self.stage = Stage::Running;
                commands.push(Command::ClearAndPresent(Color::white()));
            },
            (Stage::AwaitingWindow, Report::WindowFailed(m)) => {
                self.stage = Stage::Finished;
                self.outcome = Err(EngineError::WindowCreationFailed(m));
            },
            (Stage::AwaitingWindow, Report::SurfaceFailed(m)) => {
                self.stage = Stage::Finished;
                self.outcome = Err(EngineError::SurfaceCreationFailed(m));
            },
            (Stage::Running, Report::Polled(evs)) => {
                commands = self.events.tick(&evs);
                if !self.events.running {
                    self.stage = Stage::Finished;
                    self.outcome = Ok(());
                }
            },
            _ => {},
        }
        proof {
            if commands@.len() == 0 {
                assert(commands@ =~= Seq::<Command>::empty());
            }
        }
        Directive { commands, next: self.pending() }
    }
}

/// The application shell: one window, one event loop, until the user quits.
#[derive(Debug)]
pub struct Engine {
    name: String,
}

impl View for Engine {
    type V = Seq<char>;

    /// The application's name.
    closed spec fn view(&self) -> Seq<char> {
        self.name@
    }
}

impl Engine {
    pub fn new(name: &str) -> (r: Engine)
        ensures
            r@ == name@,
    {
        Engine { name: name.to_string() }
    }

    pub fn name(&self) -> (r: &str)
        ensures
            r@ == self@,
    {
        self.name.as_str()
    }

    /// The window a run of this engine creates.
    pub fn window_config(&self) -> (c: WindowConfig)
        ensures
            is_window_for(c, self@),
    {
        WindowConfig::for_title(self.name.as_str())
    }

    /// Starts a run: the session waits for the platform to come up, and the
    /// first step asks for exactly that.
    pub fn start(&self) -> (r: (Session, Directive))
        ensures
            r.0.title@ == self@,
            r.0.stage == Stage::AwaitingPlatform,
            r.0.events == (EventLoop { mode: FullscreenMode::FullscreenDesktop, running: true }),
            r.0.outcome is Ok,
            r.1.commands@ == Seq::<Command>::empty(),
            r.1.next is InitPlatform,
    {
        let session = Session {
            title: self.name.clone(),
            stage: Stage::AwaitingPlatform,
            events: EventLoop::new(FullscreenMode::FullscreenDesktop),
            outcome: Ok(()),
        };
        (session, Directive { commands: Vec::new(), next: Next::InitPlatform })
    }
}

} // verus!

use vstd::prelude::*;

use crate::display::{background, Color, Command, FullscreenMode};
use crate::event::{action_of, classify, is_stop, Action, Key, PlatformEvent};

verus! {

/// State of the event loop between events: the tracked display mode and
/// whether the loop still runs.
#[derive(Clone, Copy, Debug, PartialEq, Eq, Structural)]
pub struct EventLoop {
    pub mode: FullscreenMode,
    pub running: bool,
}

/// The effect of one event on a running loop, and the commands it issues.
pub open spec fn step(st: EventLoop, e: PlatformEvent) -> (EventLoop, Seq<Command>) {
    match action_of(e) {
        Action::Stop => (EventLoop { running: false, ..st }, seq![]),
        Action::ToggleFullscreen => (
            EventLoop { mode: st.mode.flipped(), ..st },
            seq![Command::SetFullscreen(st.mode.flipped())],
        ),
        Action::Repaint => (st, seq![Command::ClearAndPresent(background())]),
        Action::Ignore => (st, seq![]),
    }
}

/// Events handled in arrival order; once the loop has stopped, the rest of
/// the tick is not looked at.
pub open spec fn run_events(st: EventLoop, s: Seq<PlatformEvent>) -> (EventLoop, Seq<Command>)
    decreases s.len(),
{
    if s.len() == 0 {
        (st, seq![])
    } else {
        let (mid, cs) = run_events(st, s.drop_last());
        if mid.running {
            let (next, c) = step(mid, s.last());
            (next, cs + c)
        } else {
            (mid, cs)
        }
    }
}

/// Ticks one after the other, each a drain of the queue.
pub open spec fn run_ticks(st: EventLoop, ticks: Seq<Seq<PlatformEvent>>) -> EventLoop
    decreases ticks.len(),
{
    if ticks.len() == 0 {
        st
    } else {
        run_events(run_ticks(st, ticks.drop_last()), ticks.last()).0
    }
}

pub open spec fn has_stop(s: Seq<PlatformEvent>) -> bool {
    exists|i: int| 0 <= i < s.len() && is_stop(#[trigger] s[i])
}

/// How many events of `s` call for action `a`.
pub open spec fn count_events(s: Seq<PlatformEvent>, a: Action) -> nat
    decreases s.len(),
{
    if s.len() == 0 {
        0
    } else {
        count_events(s.drop_last(), a) + if action_of(s.last()) == a { 1nat } else { 0nat }
    }
}

/// How many fullscreen requests `cs` holds.
pub open spec fn count_toggles(cs: Seq<Command>) -> nat
    decreases cs.len(),
{
    if cs.len() == 0 {
        0
    } else {
        count_toggles(cs.drop_last()) + if cs.last() is SetFullscreen { 1nat } else { 0nat }
    }
}

/// How many clear-and-present pairs `cs` holds.
pub open spec fn count_repaints(cs: Seq<Command>) -> nat
    decreases cs.len(),
{
    if cs.len() == 0 {
        0
    } else {
        count_repaints(cs.drop_last()) + if cs.last() is ClearAndPresent { 1nat } else { 0nat }
    }
}

/// `m` after `n` toggles.
pub open spec fn toggled_times(m: FullscreenMode, n: nat) -> FullscreenMode {
    if n % 2 == 0 { m } else { m.flipped() }
}

impl EventLoop {
    /// A running loop over a window that starts in `mode`.
    pub fn new(mode: FullscreenMode) -> (r: EventLoop)
        ensures
            r == (EventLoop { mode, running: true }),
    {
        EventLoop { mode, running: true }
    }

    /// Handles one drained batch of events and returns the commands for the
    /// window, in the order the events came.
    pub fn tick(&mut self, events: &Vec<PlatformEvent>) -> (cmds: Vec<Command>)
        ensures
            (*final(self), cmds@) == run_events(*old(self), events@),
    {
        let ghost start = *self;
        let mut cmds: Vec<Command> = Vec::new();
        let mut i: usize = 0;
        while i < events.len()
            invariant
                i <= events@.len(),
                start == *old(self),
                (*self, cmds@) == run_events(start, events@.take(i as int)),
            decreases events@.len() - i,
        {
            if !self.running {
                proof {
                    lemma_stopped_stays(start, events@, i as int);
                }
                return cmds;
            }
            let e = events[i];
            proof {
                assert(events@.take(i as int + 1).drop_last() =~= events@.take(i as int));
            }
            match classify(e) {
                Action::Stop => {
                    self.running = false;
                },
                Action::ToggleFullscreen => {
                    let target = self.mode.toggled();
                    self.mode = target;
                    cmds.push(Command::SetFullscreen(target));
                },
                Action::Repaint => {
                    cmds.push(Command::ClearAndPresent(Color::white()));
                },
                Action::Ignore => {},
            }
            i = i + 1;
        }
        proof {
            assert(events@.take(i as int) =~= events@);
        }
        cmds
    }
}

/// Once the loop has stopped inside a tick, later events change nothing.
pub proof fn lemma_stopped_stays(st: EventLoop, s: Seq<PlatformEvent>, j: int)
    requires
        0 <= j <= s.len(),
        !run_events(st, s.take(j)).0.running,
    ensures
        run_events(st, s) == run_events(st, s.take(j)),
    decreases s.len() - j,
{
    if j < s.len() {
        assert(s.take(j + 1).drop_last() =~= s.take(j));
        lemma_stopped_stays(st, s, j + 1);
    } else {
        assert(s.take(j) =~= s);
    }
}

/// Without a close request or Escape in it, a tick leaves a running loop
/// running, issues exactly one fullscreen request per F11 press and one
/// clear-and-present per resize, and leaves the mode toggled once per F11.
pub proof fn lemma_tick_without_stop(st: EventLoop, s: Seq<PlatformEvent>)
    requires
        st.running,
        !has_stop(s),
    ensures
        run_events(st, s).0.running,
        count_toggles(run_events(st, s).1) == count_events(s, Action::ToggleFullscreen),
        count_repaints(run_events(st, s).1) == count_events(s, Action::Repaint),
        run_events(st, s).0.mode == toggled_times(st.mode, count_events(s, Action::ToggleFullscreen)),
    decreases s.len(),
{
    if s.len() > 0 {
        let prefix = s.drop_last();
        assert forall|i: int| 0 <= i < prefix.len() implies !is_stop(#[trigger] prefix[i]) by {
            assert(prefix[i] == s[i]);
        }
        lemma_tick_without_stop(st, prefix);
        let (mid, cs) = run_events(st, prefix);
        let (next, c) = step(mid, s.last());
        assert(!is_stop(s[s.len() - 1]));
        assert(run_events(st, s) == (next, cs + c));
        if c.len() == 0 {
            assert(cs + c =~= cs);
        } else {
            assert((cs + c).drop_last() =~= cs);
        }
    }
}

/// A loop that meets no close request and no Escape in any tick never stops.
pub proof fn lemma_runs_until_stopped(st: EventLoop, ticks: Seq<Seq<PlatformEvent>>)
    requires
        st.running,
        forall|k: int| 0 <= k < ticks.len() ==> !has_stop(#[trigger] ticks[k]),
    ensures
        run_ticks(st, ticks).running,
    decreases ticks.len(),
{
    if ticks.len() > 0 {
        let prefix = ticks.drop_last();
        assert forall|k: int| 0 <= k < prefix.len() implies !has_stop(#[trigger] prefix[k]) by {
            assert(prefix[k] == ticks[k]);
        }
        lemma_runs_until_stopped(st, prefix);
        assert(!has_stop(ticks[ticks.len() - 1]));
        lemma_tick_without_stop(run_ticks(st, prefix), ticks.last());
    }
}

/// A close request or Escape anywhere in a tick stops the loop after that
/// tick; the events before it are handled as usual and the events after it
/// are not handled at all.
pub proof fn lemma_stop_ends_tick(
    st: EventLoop,
    pre: Seq<PlatformEvent>,
    e: PlatformEvent,
    post: Seq<PlatformEvent>,
)
    requires
        is_stop(e),
    ensures
        !run_events(st, pre + seq![e] + post).0.running,
        run_events(st, pre + seq![e] + post).0.mode == run_events(st, pre).0.mode,
        run_events(st, pre + seq![e] + post).1 == run_events(st, pre).1,
{
    let s = pre + seq![e] + post;
    let j = pre.len() as int + 1;
    assert(s.take(j).drop_last() =~= pre);
    assert(s.take(j).last() == e);
    let (mid, cs) = run_events(st, pre);
    if mid.running {
        assert(cs + seq![] =~= cs);
    }
    lemma_stopped_stays(st, s, j);
}

/// An F11 press on a running loop issues exactly one fullscreen request, for
/// the flipped mode, and flips the tracked mode.
pub proof fn lemma_f11_toggles_once(st: EventLoop, s: Seq<PlatformEvent>)
    requires
        run_events(st, s).0.running,
    ensures
        run_events(st, s.push(PlatformEvent::KeyDown(Key::F11))) == (
            EventLoop { mode: run_events(st, s).0.mode.flipped(), running: true },
            run_events(st, s).1.push(Command::SetFullscreen(run_events(st, s).0.mode.flipped())),
        ),
{
    assert(s.push(PlatformEvent::KeyDown(Key::F11)).drop_last() =~= s);
}

/// Two F11 presses in a row bring the tracked mode back where it was,
/// whatever became of the two requests at the platform.
pub proof fn lemma_toggle_round_trip(st: EventLoop)
    requires
        st.running,
    ensures
        run_events(st, seq![PlatformEvent::KeyDown(Key::F11), PlatformEvent::KeyDown(Key::F11)])
            == (st, seq![Command::SetFullscreen(st.mode.flipped()), Command::SetFullscreen(st.mode)]),
{
    let f = PlatformEvent::KeyDown(Key::F11);
    let one: Seq<PlatformEvent> = seq![];
    assert(one.push(f) =~= seq![f]);
    assert(seq![f].push(f) =~= seq![f, f]);
    assert(run_events(st, one) == (st, Seq::<Command>::empty()));
    lemma_f11_toggles_once(st, one);
    lemma_f11_toggles_once(st, seq![f]);
    assert(Seq::<Command>::empty().push(Command::SetFullscreen(st.mode.flipped())).push(
        Command::SetFullscreen(st.mode),
    ) =~= seq![Command::SetFullscreen(st.mode.flipped()), Command::SetFullscreen(st.mode)]);
}

/// A resize on a running loop issues exactly one clear-and-present of the
/// background and leaves the state, display mode included, as it was.
pub proof fn lemma_resize_repaints_once(st: EventLoop, s: Seq<PlatformEvent>)
    requires
        run_events(st, s).0.running,
    ensures
        run_events(st, s.push(PlatformEvent::WindowResized)) == (
            run_events(st, s).0,
            run_events(st, s).1.push(Command::ClearAndPresent(background())),
        ),
{
    assert(s.push(PlatformEvent::WindowResized).drop_last() =~= s);
}

} // verus!

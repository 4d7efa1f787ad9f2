//! What the simulation does in answer to the events of its window: whether
//! it stops, reseeds, pauses, changes pace, or shows a frame and moves on.

use vstd::prelude::*;
use crate::generation::{Generation, Grid};
use crate::seed::{is_seeded, seed};
use crate::tick::{next_grid, tick};

verus! {

/// The keys that mean something to the simulation.
#[derive(Copy, Clone, Debug, PartialEq, Eq, Structural)]
pub enum Key {
    Escape,
    R,
    P,
    PadPlus,
    PadMinus,
    Other,
}

/// What can come out of the event queue.
#[derive(Copy, Clone, Debug, PartialEq, Eq, Structural)]
pub enum Event {
    DisplayClose,
    KeyDown(Key),
    TimerTick,
    Other,
}

/// What the caller has to do to the world outside after an event.
#[derive(Copy, Clone, Debug, PartialEq, Eq, Structural)]
pub enum Action {
    /// Nothing: wait for the next event.
    Continue,
    /// Leave the event loop.
    Quit,
    /// Halve the interval of the timer, so that generations follow faster.
    HalveInterval,
    /// Double the interval of the timer, so that generations follow slower.
    DoubleInterval,
}

/// The answer to one event.
#[derive(Debug)]
pub struct Outcome {
    pub action: Action,
    /// The generation to put on the screen now, if a frame is due.
    pub frame: Option<Generation>,
}

/// The running simulation: the generation it holds, whether a timer tick
/// has asked for a frame that was not shown yet, and whether it is paused.
#[derive(Debug)]
pub struct Simulation {
    pub generation: Generation,
    pub redraw: bool,
    pub paused: bool,
}

/// Whether `event` ends the run: the window was closed or Escape pressed.
pub open spec fn quits(event: Event) -> bool {
    event == Event::DisplayClose || event == Event::KeyDown(Key::Escape)
}

/// What `event` asks of the caller.
pub open spec fn action_for(event: Event) -> Action {
    match event {
        Event::DisplayClose => Action::Quit,
        Event::KeyDown(Key::Escape) => Action::Quit,
        Event::KeyDown(Key::PadPlus) => Action::HalveInterval,
        Event::KeyDown(Key::PadMinus) => Action::DoubleInterval,
        _ => Action::Continue,
    }
}

/// Whether a frame is asked for once `event` is taken in: a timer tick
/// asks for one unless the simulation is paused, in which case it is
/// ignored; a request once made stands until a frame is shown.
pub open spec fn redraw_after(redraw: bool, paused: bool, event: Event) -> bool {
    redraw || (event == Event::TimerTick && !paused)
}

/// Whether the simulation is paused once `event` is taken in: P switches
/// between paused and running.
pub open spec fn paused_after(paused: bool, event: Event) -> bool {
    if event == Event::KeyDown(Key::P) {
        !paused
    } else {
        paused
    }
}

/// Whether `event` leads to a frame: the run goes on, a frame is asked for,
/// the simulation is not paused, and no further event is waiting.
pub open spec fn frame_due(redraw: bool, paused: bool, event: Event, queue_empty: bool) -> bool {
    !quits(event) && redraw_after(redraw, paused, event) && !paused_after(paused, event)
        && queue_empty
}

impl Simulation {
    /// A simulation that starts from a freshly seeded generation, running,
    /// with its first frame asked for.
    pub fn new() -> (simulation: Self)
        ensures
            is_seeded(simulation.generation@),
            simulation.redraw,
            !simulation.paused,
    {
        Simulation { generation: seed(), redraw: true, paused: false }
    }

    /// Takes in one event. `queue_empty` says whether no further event is
    /// waiting behind it.
    ///
    /// R replaces the generation by a freshly seeded one, paused or not.
    /// A timer tick that comes while the simulation is paused is ignored.
    /// When a frame is due, the generation held at that moment is handed
    /// out to be shown, and the simulation moves on to the one after it.
    pub fn handle(&mut self, event: Event, queue_empty: bool) -> (outcome: Outcome)
        ensures
            outcome.action == action_for(event),
            final(self).paused == paused_after(old(self).paused, event),
            final(self).redraw == (redraw_after(old(self).redraw, old(self).paused, event)
                && !frame_due(old(self).redraw, old(self).paused, event, queue_empty)),
            outcome.frame is Some == frame_due(
                old(self).redraw,
                old(self).paused,
                event,
                queue_empty,
            ),
            outcome.frame matches Some(shown) ==> {
                &&& final(self).generation@ == next_grid(shown@)
                &&& event == Event::KeyDown(Key::R) ==> is_seeded(shown@)
                &&& event != Event::KeyDown(Key::R) ==> shown@ == old(self).generation@
            },
            outcome.frame is None ==> {
                &&& event == Event::KeyDown(Key::R) ==> is_seeded(final(self).generation@)
                &&& event != Event::KeyDown(Key::R) ==> final(self).generation@ == old(
                    self,
                ).generation@
            },
    {
        let action = match event {
            Event::DisplayClose => Action::Quit,
            Event::KeyDown(key) => match key {
                Key::Escape => Action::Quit,
                Key::R => {
                    self.generation = seed();
                    Action::Continue
                },
                Key::P => {
                    self.paused = !self.paused;
                    Action::Continue
                },
                Key::PadPlus => Action::HalveInterval,
                Key::PadMinus => Action::DoubleInterval,
                Key::Other => Action::Continue,
            },
            Event::TimerTick => {
                if !self.paused {
                    self.redraw = true;
                }
                Action::Continue
            },
            Event::Other => Action::Continue,
        };
        if action == Action::Quit {
            return Outcome { action, frame: None };
        }
        if self.redraw && !self.paused && queue_empty {
            let mut shown = tick(self.generation.clone());
            std::mem::swap(&mut shown, &mut self.generation);
            self.redraw = false;
            Outcome { action, frame: Some(shown) }
        } else {
            Outcome { action, frame: None }
        }
    }
}

} // verus!

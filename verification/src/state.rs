//! The tracker's state and its transitions, one per kind of raw input.
//!
//! A transition is a function of the state before and the event alone: it
//! gives the state after and the gesture to report. Nothing here calls a
//! delegate.

use crate::event::{MouseButton, MouseEvent, Point};
use crate::gesture::Gesture;
use vstd::prelude::*;

verus! {

/// Where the tracker is in a gesture.
#[derive(Clone, Copy, Debug, PartialEq, Eq, Structural)]
pub enum MouseState {
    /// No button is active. Holds the most recent event.
    Up(MouseEvent),
    /// A button is down and the pointer has stayed within the drag
    /// threshold. Holds the event of the press.
    Down(MouseEvent),
    /// A button is down and the pointer has left the drag threshold.
    /// `start` is the event of the press and stays as it is until the
    /// gesture ends; `current` is the most recent event.
    Drag { start: MouseEvent, current: MouseEvent },
}

/// The outcome of one transition.
#[derive(Clone, Copy, Debug, PartialEq, Eq, Structural)]
pub struct Step {
    /// The state after the input.
    pub state: MouseState,
    /// What to report to the delegate.
    pub gesture: Gesture,
}

impl MouseState {
    /// The state of a fresh tracker.
    pub open spec fn spec_initial() -> MouseState {
        MouseState::Up(MouseEvent::spec_initial())
    }

    /// The state of a fresh tracker: no button active, pointer at the origin.
    #[verifier::when_used_as_spec(spec_initial)]
    pub fn initial() -> (state: MouseState)
        ensures
            state == MouseState::spec_initial(),
    {
        MouseState::Up(MouseEvent::initial())
    }

    /// The event that is current in this state.
    pub open spec fn spec_current(&self) -> MouseEvent {
        match *self {
            MouseState::Up(event) => event,
            MouseState::Down(event) => event,
            MouseState::Drag { current, .. } => current,
        }
    }

    /// The event that is current in this state: the last one seen with no
    /// button active, the press while a button is down, the latest one
    /// during a drag.
    #[verifier::when_used_as_spec(spec_current)]
    pub fn current(&self) -> (event: MouseEvent)
        ensures
            event == self.spec_current(),
    {
        match self {
            MouseState::Up(event) => *event,
            MouseState::Down(event) => *event,
            MouseState::Drag { current, .. } => *current,
        }
    }

    /// The position of the current event.
    pub open spec fn spec_pos(&self) -> Point {
        self.spec_current().pos
    }

    /// The position of the current event.
    #[verifier::when_used_as_spec(spec_pos)]
    pub fn pos(&self) -> (pos: Point)
        ensures
            pos == self.spec_pos(),
    {
        self.current().pos
    }

    /// The button of the gesture in progress.
    pub open spec fn spec_active_button(&self) -> Option<MouseButton> {
        match *self {
            MouseState::Up(_) => None,
            MouseState::Down(event) => Some(event.button),
            MouseState::Drag { start, .. } => Some(start.button),
        }
    }

    /// The button of the gesture in progress: the one that was pressed, or
    /// none while no button is active. At most one button is active at a
    /// time.
    #[verifier::when_used_as_spec(spec_active_button)]
    pub fn active_button(&self) -> (button: Option<MouseButton>)
        ensures
            button == self.spec_active_button(),
    {
        match self {
            MouseState::Up(_) => None,
            MouseState::Down(event) => Some(event.button),
            MouseState::Drag { start, .. } => Some(start.button),
        }
    }

    /// What a move to `event` leads to, with drag threshold `limit`.
    pub open spec fn on_moved(self, event: MouseEvent, limit: u64) -> Step {
        match self {
            MouseState::Up(_) => Step {
                state: MouseState::Up(event),
                gesture: Gesture::Moved { event },
            },
            MouseState::Down(press) => if press.pos.farther_than(event.pos, limit) {
                Step {
                    state: MouseState::Drag { start: press, current: event },
                    gesture: Gesture::DragBegan { start: press, current: event },
                }
            } else {
                Step { state: self, gesture: Gesture::Ignored }
            },
            MouseState::Drag { start, current } => Step {
                state: MouseState::Drag { start, current: event },
                gesture: Gesture::DragChanged { start, prev: current, current: event },
            },
        }
    }

    /// The pointer moved to `event`.
    ///
    /// With no button active the move is reported and becomes the current
    /// event. While a button is down, a move that stays within `limit` of
    /// the press changes nothing and is not reported; the first move
    /// strictly farther than `limit` begins the drag. During a drag every
    /// move is reported, with the event before it.
    pub fn moved(self, event: MouseEvent, limit: u64) -> (step: Step)
        ensures
            step == self.on_moved(event, limit),
    {
        match self {
            MouseState::Up(_) => Step {
                state: MouseState::Up(event),
                gesture: Gesture::Moved { event },
            },
            MouseState::Down(press) => {
                if press.pos.farther_than(event.pos, limit) {
                    Step {
                        state: MouseState::Drag { start: press, current: event },
                        gesture: Gesture::DragBegan { start: press, current: event },
                    }
                } else {
                    Step { state: self, gesture: Gesture::Ignored }
                }
            },
            MouseState::Drag { start, current } => Step {
                state: MouseState::Drag { start, current: event },
                gesture: Gesture::DragChanged { start, prev: current, current: event },
            },
        }
    }

    /// Whether a press of `event`'s button may be reported in this state:
    /// the button is not the one already active.
    pub open spec fn spec_accepts_down(&self, event: MouseEvent) -> bool {
        self.spec_active_button() != Some(event.button)
    }

    /// Whether a press of `event`'s button may be reported in this state.
    /// The input layer never reports the active button as going down again
    /// before it came up.
    #[verifier::when_used_as_spec(spec_accepts_down)]
    pub fn accepts_down(&self, event: MouseEvent) -> (accepted: bool)
        ensures
            accepted == self.spec_accepts_down(event),
    {
        match self.active_button() {
            None => true,
            Some(button) => button != event.button,
        }
    }

    /// What a press `event` leads to.
    pub open spec fn on_down(self, event: MouseEvent) -> Step
        recommends
            self.spec_accepts_down(event),
    {
        match self {
            MouseState::Up(_) => Step {
                state: MouseState::Down(event),
                gesture: Gesture::Down { event },
            },
            MouseState::Down(_) => Step { state: self, gesture: Gesture::Ignored },
            MouseState::Drag { start, .. } => Step {
                state: MouseState::Drag { start, current: event },
                gesture: Gesture::Ignored,
            },
        }
    }

    /// A button went down.
    ///
    /// With no button active this starts a gesture and is reported. A
    /// second button that goes down during a gesture is not reported and
    /// does not disturb the gesture; during a drag its event becomes the
    /// current one.
    pub fn down(self, event: MouseEvent) -> (step: Step)
        requires
            self.spec_accepts_down(event),
        ensures
            step == self.on_down(event),
    {
        match self {
            MouseState::Up(_) => Step {
                state: MouseState::Down(event),
                gesture: Gesture::Down { event },
            },
            MouseState::Down(_) => Step { state: self, gesture: Gesture::Ignored },
            MouseState::Drag { start, .. } => Step {
                state: MouseState::Drag { start, current: event },
                gesture: Gesture::Ignored,
            },
        }
    }

    /// What a release `event` leads to.
    pub open spec fn on_up(self, event: MouseEvent) -> Step {
        match self {
            MouseState::Up(_) => Step { state: MouseState::Up(event), gesture: Gesture::Ignored },
            MouseState::Down(press) => if event.button == press.button {
                Step { state: MouseState::Up(event), gesture: Gesture::Click { event } }
            } else {
                Step { state: self, gesture: Gesture::Ignored }
            },
            MouseState::Drag { start, current } => if event.button == start.button {
                Step {
                    state: MouseState::Up(event),
                    gesture: Gesture::DragEnded { start, prev: current, current: event },
                }
            } else {
                Step { state: self, gesture: Gesture::Ignored }
            },
        }
    }

    /// A button came up.
    ///
    /// The release of the active button ends the gesture: as a click if no
    /// drag began, else as the end of the drag. The release of any other
    /// button changes nothing and is not reported. With no button active
    /// the event becomes the current one and nothing is reported.
    pub fn up(self, event: MouseEvent) -> (step: Step)
        ensures
            step == self.on_up(event),
    {
        match self {
            MouseState::Up(_) => Step { state: MouseState::Up(event), gesture: Gesture::Ignored },
            MouseState::Down(press) => {
                if event.button == press.button {
                    Step { state: MouseState::Up(event), gesture: Gesture::Click { event } }
                } else {
                    Step { state: self, gesture: Gesture::Ignored }
                }
            },
            MouseState::Drag { start, current } => {
                if event.button == start.button {
                    Step {
                        state: MouseState::Up(event),
                        gesture: Gesture::DragEnded { start, prev: current, current: event },
                    }
                } else {
                    Step { state: self, gesture: Gesture::Ignored }
                }
            },
        }
    }

    /// What calling off the gesture leads to.
    pub open spec fn on_cancel(self) -> Step {
        Step { state: MouseState::Up(self.spec_current()), gesture: Gesture::Cancel }
    }

    /// The gesture in progress, if any, is called off.
    ///
    /// Whatever the state, the cancellation is reported and no button is
    /// active afterwards; the current event stays the current one.
    pub fn cancel(self) -> (step: Step)
        ensures
            step == self.on_cancel(),
    {
        Step { state: MouseState::Up(self.current()), gesture: Gesture::Cancel }
    }
}

} // verus!

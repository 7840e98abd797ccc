//! What the tracker makes of one raw input: a gesture, and the calls of the
//! delegate's methods that a gesture is reported through.

use crate::event::{ButtonKind, MouseEvent};
use vstd::prelude::*;

verus! {

/// One call of a method of the delegate: which method, by gesture phase and
/// button group, and the events that are handed to it.
///
/// The drag phases are handed a descriptor of three events: the one that
/// started the drag, the one before the current one, and the current one.
#[derive(Clone, Copy, Debug, PartialEq, Eq, Structural)]
pub enum Call {
    /// `mouse_moved` with `event`
    MouseMoved { event: MouseEvent },
    /// `left_down`, `right_down` or `other_down` with `event`
    Down { kind: ButtonKind, event: MouseEvent },
    /// `left_up`, `right_up` or `other_up` with `event`
    Up { kind: ButtonKind, event: MouseEvent },
    /// `left_click`, `right_click` or `other_click` with `event`
    Click { kind: ButtonKind, event: MouseEvent },
    /// `left_drag_began`, `right_drag_began` or `other_drag_began` with the
    /// descriptor of `start`, `prev` and `current`
    DragBegan { kind: ButtonKind, start: MouseEvent, prev: MouseEvent, current: MouseEvent },
    /// `left_drag_changed`, `right_drag_changed` or `other_drag_changed`
    /// with the descriptor of `start`, `prev` and `current`
    DragChanged { kind: ButtonKind, start: MouseEvent, prev: MouseEvent, current: MouseEvent },
    /// `left_drag_ended`, `right_drag_ended` or `other_drag_ended` with the
    /// descriptor of `start`, `prev` and `current`
    DragEnded { kind: ButtonKind, start: MouseEvent, prev: MouseEvent, current: MouseEvent },
    /// `cancel`
    Cancel,
}

/// What one raw input amounts to.
///
/// The button group of a gesture is that of the press that started it: the
/// button of `event` for `Down` and `Click`, the button of `start` for the
/// drag phases. The button carried by a move is never looked at.
#[derive(Clone, Copy, Debug, PartialEq, Eq, Structural)]
pub enum Gesture {
    /// Nothing to report.
    Ignored,
    /// The pointer moved with no button down.
    Moved { event: MouseEvent },
    /// A button went down.
    Down { event: MouseEvent },
    /// The pressed button came up without a drag in between.
    Click { event: MouseEvent },
    /// The pointer left the drag threshold around `start`.
    DragBegan { start: MouseEvent, current: MouseEvent },
    /// The pointer moved on during a drag.
    DragChanged { start: MouseEvent, prev: MouseEvent, current: MouseEvent },
    /// The dragging button came up.
    DragEnded { start: MouseEvent, prev: MouseEvent, current: MouseEvent },
    /// The gesture in progress, if any, was called off.
    Cancel,
}

impl Gesture {
    /// The calls of the delegate's methods that this gesture is reported
    /// through, in the order in which they are made.
    ///
    /// A click is the release and then the click, both with the event of
    /// the release. At the beginning of a drag the event before the current
    /// one is the press itself. The end of a drag is the release, with the
    /// event of the release, and then the end of the drag.
    pub open spec fn calls(self) -> Seq<Call> {
        match self {
            Gesture::Ignored => seq![],
            Gesture::Moved { event } => seq![Call::MouseMoved { event }],
            Gesture::Down { event } => seq![Call::Down { kind: event.button.kind(), event }],
            Gesture::Click { event } => seq![
                Call::Up { kind: event.button.kind(), event },
                Call::Click { kind: event.button.kind(), event },
            ],
            Gesture::DragBegan { start, current } => seq![
                Call::DragBegan { kind: start.button.kind(), start, prev: start, current },
            ],
            Gesture::DragChanged { start, prev, current } => seq![
                Call::DragChanged { kind: start.button.kind(), start, prev, current },
            ],
            Gesture::DragEnded { start, prev, current } => seq![
                Call::Up { kind: start.button.kind(), event: current },
                Call::DragEnded { kind: start.button.kind(), start, prev, current },
            ],
            Gesture::Cancel => seq![Call::Cancel],
        }
    }

    /// The calls of the delegate's methods that this gesture is reported
    /// through, in the order in which they are made: none for a gesture
    /// that is not reported, two for a click and for the end of a drag, one
    /// for every other.
    pub fn calls_in_order(&self) -> (list: Vec<Call>)
        ensures
            list@ == self.calls(),
            list.len() <= 2,
    {
        let mut list: Vec<Call> = Vec::new();
        match *self {
            Gesture::Ignored => {},
            Gesture::Moved { event } => {
                list.push(Call::MouseMoved { event });
            },
            Gesture::Down { event } => {
                list.push(Call::Down { kind: event.button.kind(), event });
            },
            Gesture::Click { event } => {
                list.push(Call::Up { kind: event.button.kind(), event });
                list.push(Call::Click { kind: event.button.kind(), event });
            },
            Gesture::DragBegan { start, current } => {
                list.push(
                    Call::DragBegan { kind: start.button.kind(), start, prev: start, current },
                );
            },
            Gesture::DragChanged { start, prev, current } => {
                list.push(Call::DragChanged { kind: start.button.kind(), start, prev, current });
            },
            Gesture::DragEnded { start, prev, current } => {
                list.push(Call::Up { kind: start.button.kind(), event: current });
                list.push(Call::DragEnded { kind: start.button.kind(), start, prev, current });
            },
            Gesture::Cancel => {
                list.push(Call::Cancel);
            },
        }
        list
    }

    /// Whether this gesture is reported to the delegate at all.
    pub open spec fn spec_is_reported(&self) -> bool {
        *self != Gesture::Ignored
    }

    /// Whether this gesture is reported to the delegate at all.
    #[verifier::when_used_as_spec(spec_is_reported)]
    pub fn is_reported(&self) -> (reported: bool)
        ensures
            reported == self.spec_is_reported(),
            reported == (self.calls().len() > 0),
    {
        match self {
            Gesture::Ignored => false,
            _ => true,
        }
    }

    /// Whether the delegate consumed this gesture, given its answers.
    pub open spec fn spec_consumed(&self, first: bool, second: bool) -> bool {
        match *self {
            Gesture::Ignored | Gesture::Cancel => false,
            Gesture::Click { .. } | Gesture::DragEnded { .. } => first || second,
            _ => first,
        }
    }

    /// Whether the delegate consumed this gesture, given what it answered
    /// to the first and to the second call that the gesture was reported
    /// through.
    ///
    /// A gesture reported through one call is consumed if that call says
    /// so; `second` is not looked at. A click and the end of a drag are
    /// reported through two calls and are consumed if either says so. A
    /// gesture that is not reported is not consumed, and neither is a
    /// cancellation, to which the delegate gives no answer.
    #[verifier::when_used_as_spec(spec_consumed)]
    pub fn consumed(&self, first: bool, second: bool) -> (handled: bool)
        ensures
            handled == self.spec_consumed(first, second),
            self.calls().len() == 2 ==> handled == (first || second),
            self.calls().len() == 1 && *self != Gesture::Cancel ==> handled == first,
            !self.is_reported() ==> !handled,
    {
        match self {
            Gesture::Ignored => false,
            Gesture::Cancel => false,
            Gesture::Click { .. } => first || second,
            Gesture::DragEnded { .. } => first || second,
            _ => first,
        }
    }
}

} // verus!

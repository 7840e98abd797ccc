//! Handles tracking mouse state, identifying discrete events and sending
//! them to a delegate.

use crate::event::{ButtonKind, MouseEvent, Point};
use crate::gesture::{Call, Gesture};
use crate::state::MouseState;
use vstd::prelude::*;

verus! {

/// The drag threshold of a fresh tracker, in the unit of the positions.
pub const DEFAULT_MIN_DRAG_DISTANCE: u64 = 10;

/// Handles raw mouse events, parsing them into gestures that it forwards
/// to a delegate.
#[derive(Debug)]
pub struct Mouse {
    state: MouseState,
    /// The distance the mouse must travel with a button down for it to
    /// be considered a drag gesture: a press becomes a drag on the first
    /// move that ends strictly farther from it than this.
    pub min_drag_distance: u64,
}

/// The state of an in-progress drag gesture.
#[derive(Clone, Copy, Debug)]
pub struct Drag<'a> {
    /// The event that started this drag
    pub start: &'a MouseEvent,
    /// The previous event in this drag
    pub prev: &'a MouseEvent,
    /// The current event in this drag
    pub current: &'a MouseEvent,
}

/// A trait for types that want fine grained information about mouse events.
///
/// Every method but `cancel` answers whether it consumed the event, and by
/// default does nothing and answers that it did not.
pub trait MouseDelegate<T> {
    fn mouse_moved(&mut self, _data: &mut T, _event: &MouseEvent) -> (handled: bool)
        default_ensures
            !handled,
            *final(_data) == *old(_data),
    {
        false
    }

    fn left_down(&mut self, _data: &mut T, _event: &MouseEvent) -> (handled: bool)
        default_ensures
            !handled,
            *final(_data) == *old(_data),
    {
        false
    }

    fn left_up(&mut self, _data: &mut T, _event: &MouseEvent) -> (handled: bool)
        default_ensures
            !handled,
            *final(_data) == *old(_data),
    {
        false
    }

    fn left_click(&mut self, _data: &mut T, _event: &MouseEvent) -> (handled: bool)
        default_ensures
            !handled,
            *final(_data) == *old(_data),
    {
        false
    }

    fn left_drag_began(&mut self, _data: &mut T, _drag: Drag) -> (handled: bool)
        default_ensures
            !handled,
            *final(_data) == *old(_data),
    {
        false
    }

    fn left_drag_changed(&mut self, _data: &mut T, _drag: Drag) -> (handled: bool)
        default_ensures
            !handled,
            *final(_data) == *old(_data),
    {
        false
    }

    fn left_drag_ended(&mut self, _data: &mut T, _drag: Drag) -> (handled: bool)
        default_ensures
            !handled,
            *final(_data) == *old(_data),
    {
        false
    }

    fn right_down(&mut self, _data: &mut T, _event: &MouseEvent) -> (handled: bool)
        default_ensures
            !handled,
            *final(_data) == *old(_data),
    {
        false
    }

    fn right_up(&mut self, _data: &mut T, _event: &MouseEvent) -> (handled: bool)
        default_ensures
            !handled,
            *final(_data) == *old(_data),
    {
        false
    }

    fn right_click(&mut self, _data: &mut T, _event: &MouseEvent) -> (handled: bool)
        default_ensures
            !handled,
            *final(_data) == *old(_data),
    {
        false
    }

    fn right_drag_began(&mut self, _data: &mut T, _drag: Drag) -> (handled: bool)
        default_ensures
            !handled,
            *final(_data) == *old(_data),
    {
        false
    }

    fn right_drag_changed(&mut self, _data: &mut T, _drag: Drag) -> (handled: bool)
        default_ensures
            !handled,
            *final(_data) == *old(_data),
    {
        false
    }

    fn right_drag_ended(&mut self, _data: &mut T, _drag: Drag) -> (handled: bool)
        default_ensures
            !handled,
            *final(_data) == *old(_data),
    {
        false
    }

    fn other_down(&mut self, _data: &mut T, _event: &MouseEvent) -> (handled: bool)
        default_ensures
            !handled,
            *final(_data) == *old(_data),
    {
        false
    }

    fn other_up(&mut self, _data: &mut T, _event: &MouseEvent) -> (handled: bool)
        default_ensures
            !handled,
            *final(_data) == *old(_data),
    {
        false
    }

    fn other_click(&mut self, _data: &mut T, _event: &MouseEvent) -> (handled: bool)
        default_ensures
            !handled,
            *final(_data) == *old(_data),
    {
        false
    }

    fn other_drag_began(&mut self, _data: &mut T, _drag: Drag) -> (handled: bool)
        default_ensures
            !handled,
            *final(_data) == *old(_data),
    {
        false
    }

    fn other_drag_changed(&mut self, _data: &mut T, _drag: Drag) -> (handled: bool)
        default_ensures
            !handled,
            *final(_data) == *old(_data),
    {
        false
    }

    fn other_drag_ended(&mut self, _data: &mut T, _drag: Drag) -> (handled: bool)
        default_ensures
            !handled,
            *final(_data) == *old(_data),
    {
        false
    }

    fn cancel(&mut self, data: &mut T);
}

impl<'a> Drag<'a> {
    /// Describes a drag by the event that started it, the event before the
    /// current one, and the current one.
    pub fn new(
        start: &'a MouseEvent,
        prev: &'a MouseEvent,
        current: &'a MouseEvent,
    ) -> (drag: Drag<'a>)
        ensures
            drag.start == start,
            drag.prev == prev,
            drag.current == current,
    {
        Drag { start, prev, current }
    }
}

impl Call {
    /// Makes this call: the method named, with the events held, and nothing
    /// else. Hands back the delegate's answer; a cancellation has none and
    /// counts as not consumed.
    fn make<T, D: MouseDelegate<T> + ?Sized>(
        &self,
        data: &mut T,
        delegate: &mut D,
    ) -> (answer: bool)
        ensures
            *self == Call::Cancel ==> !answer,
    {
        match self {
            Call::MouseMoved { event } => delegate.mouse_moved(data, event),
            Call::Down { kind: ButtonKind::Left, event } => delegate.left_down(data, event),
            Call::Down { kind: ButtonKind::Right, event } => delegate.right_down(data, event),
            Call::Down { kind: ButtonKind::Other, event } => delegate.other_down(data, event),
            Call::Up { kind: ButtonKind::Left, event } => delegate.left_up(data, event),
            Call::Up { kind: ButtonKind::Right, event } => delegate.right_up(data, event),
            Call::Up { kind: ButtonKind::Other, event } => delegate.other_up(data, event),
            Call::Click { kind: ButtonKind::Left, event } => delegate.left_click(data, event),
            Call::Click { kind: ButtonKind::Right, event } => delegate.right_click(data, event),
            Call::Click { kind: ButtonKind::Other, event } => delegate.other_click(data, event),
            Call::DragBegan { kind: ButtonKind::Left, start, prev, current } => {
                delegate.left_drag_began(data, Drag::new(start, prev, current))
            },
            Call::DragBegan { kind: ButtonKind::Right, start, prev, current } => {
                delegate.right_drag_began(data, Drag::new(start, prev, current))
            },
            Call::DragBegan { kind: ButtonKind::Other, start, prev, current } => {
                delegate.other_drag_began(data, Drag::new(start, prev, current))
            },
            Call::DragChanged { kind: ButtonKind::Left, start, prev, current } => {
                delegate.left_drag_changed(data, Drag::new(start, prev, current))
            },
            Call::DragChanged { kind: ButtonKind::Right, start, prev, current } => {
                delegate.right_drag_changed(data, Drag::new(start, prev, current))
            },
            Call::DragChanged { kind: ButtonKind::Other, start, prev, current } => {
                delegate.other_drag_changed(data, Drag::new(start, prev, current))
            },
            Call::DragEnded { kind: ButtonKind::Left, start, prev, current } => {
                delegate.left_drag_ended(data, Drag::new(start, prev, current))
            },
            Call::DragEnded { kind: ButtonKind::Right, start, prev, current } => {
                delegate.right_drag_ended(data, Drag::new(start, prev, current))
            },
            Call::DragEnded { kind: ButtonKind::Other, start, prev, current } => {
                delegate.other_drag_ended(data, Drag::new(start, prev, current))
            },
            Call::Cancel => {
                delegate.cancel(data);
                false
            },
        }
    }
}

impl Gesture {
    /// Reports this gesture to the delegate and answers whether the delegate
    /// consumed it.
    ///
    /// The calls made are those of [`Gesture::calls_in_order`], one after
    /// the other and each once: which methods, and which events they are
    /// handed, is said there. Both calls of a click or of the end of a drag
    /// are made, whatever the first answers. The result is what
    /// [`Gesture::consumed`] makes of the answers, which are the delegate's
    /// own affair: it is owed only for a gesture that is not reported, which
    /// leaves `data` alone, and for a cancellation, and then it is `false`.
    pub fn deliver<T, D: MouseDelegate<T> + ?Sized>(
        &self,
        data: &mut T,
        delegate: &mut D,
    ) -> (handled: bool)
        ensures
            *self == Gesture::Ignored || *self == Gesture::Cancel ==> !handled,
            !self.is_reported() ==> *final(data) == *old(data),
    {
        let calls = self.calls_in_order();
        let mut first = false;
        let mut second = false;
        let mut made: usize = 0;
        while made < calls.len()
            invariant
                made <= calls.len(),
                calls.len() == 0 ==> *data == *old(data),
            decreases calls.len() - made,
        {
            let answer = calls[made].make(data, delegate);
            if made == 0 {
                first = answer;
            } else {
                second = answer;
            }
            made += 1;
        }
        self.consumed(first, second)
    }
}

impl View for Mouse {
    type V = MouseState;

    /// The state the tracker is in.
    closed spec fn view(&self) -> MouseState {
        self.state
    }
}

impl Clone for Mouse {
    fn clone(&self) -> (copy: Mouse)
        ensures
            copy == *self,
    {
        Mouse { state: self.state, min_drag_distance: self.min_drag_distance }
    }
}

impl Mouse {
    /// The drag threshold in force: the value of `min_drag_distance`.
    pub closed spec fn spec_threshold(&self) -> u64 {
        self.min_drag_distance
    }

    /// The drag threshold in force: the value of `min_drag_distance`.
    #[verifier::when_used_as_spec(spec_threshold)]
    pub fn threshold(&self) -> (distance: u64)
        ensures
            distance == self.spec_threshold(),
    {
        self.min_drag_distance
    }

    /// A tracker with no button active, the pointer at the origin, and the
    /// default drag threshold.
    pub fn new() -> (mouse: Mouse)
        ensures
            mouse@ == MouseState::initial(),
            mouse.threshold() == DEFAULT_MIN_DRAG_DISTANCE,
    {
        Mouse { min_drag_distance: DEFAULT_MIN_DRAG_DISTANCE, state: MouseState::initial() }
    }

    /// Sets the drag threshold; the state stays as it is.
    pub fn set_min_drag_distance(&mut self, min_drag_distance: u64)
        ensures
            final(self).threshold() == min_drag_distance,
            final(self)@ == old(self)@,
    {
        self.min_drag_distance = min_drag_distance;
    }

    /// The current position of the mouse.
    pub fn pos(&self) -> (pos: Point)
        ensures
            pos == self@.pos(),
    {
        self.state.pos()
    }

    /// The state the tracker is in.
    pub fn state(&self) -> (state: MouseState)
        ensures
            state == self@,
    {
        self.state
    }

    /// The pointer moved. Answers whether the delegate consumed the move.
    ///
    /// The transition is that of [`MouseState::moved`] with the threshold in
    /// force; its gesture is handed to [`Gesture::deliver`].
    pub fn mouse_moved<T, D: MouseDelegate<T> + ?Sized>(
        &mut self,
        data: &mut T,
        event: MouseEvent,
        delegate: &mut D,
    ) -> (handled: bool)
        ensures
            final(self)@ == old(self)@.on_moved(event, old(self).threshold()).state,
            final(self).threshold() == old(self).threshold(),
            !old(self)@.on_moved(event, old(self).threshold()).gesture.is_reported()
                ==> !handled && *final(data) == *old(data),
    {
        let step = self.state.moved(event, self.min_drag_distance);
        self.state = step.state;
        step.gesture.deliver(data, delegate)
    }

    /// A button went down. Answers whether the delegate consumed the press.
    ///
    /// The button must not be the one that is already active. The
    /// transition is that of [`MouseState::down`]; its gesture is handed to
    /// [`Gesture::deliver`].
    pub fn mouse_down<T, D: MouseDelegate<T> + ?Sized>(
        &mut self,
        data: &mut T,
        event: MouseEvent,
        delegate: &mut D,
    ) -> (handled: bool)
        requires
            old(self)@.accepts_down(event),
        ensures
            final(self)@ == old(self)@.on_down(event).state,
            final(self).threshold() == old(self).threshold(),
            !old(self)@.on_down(event).gesture.is_reported()
                ==> !handled && *final(data) == *old(data),
    {
        let step = self.state.down(event);
        self.state = step.state;
        step.gesture.deliver(data, delegate)
    }

    /// A button came up. Answers whether the delegate consumed the release.
    ///
    /// The transition is that of [`MouseState::up`]; its gesture is handed to
    /// [`Gesture::deliver`].
    pub fn mouse_up<T, D: MouseDelegate<T> + ?Sized>(
        &mut self,
        data: &mut T,
        event: MouseEvent,
        delegate: &mut D,
    ) -> (handled: bool)
        ensures
            final(self)@ == old(self)@.on_up(event).state,
            final(self).threshold() == old(self).threshold(),
            !old(self)@.on_up(event).gesture.is_reported()
                ==> !handled && *final(data) == *old(data),
    {
        let step = self.state.up(event);
        self.state = step.state;
        step.gesture.deliver(data, delegate)
    }

    /// Calls off the gesture in progress, if any, and tells the delegate.
    ///
    /// The transition is that of [`MouseState::cancel`]; its gesture is
    /// handed to [`Gesture::deliver`].
    pub fn cancel<T, D: MouseDelegate<T> + ?Sized>(&mut self, data: &mut T, delegate: &mut D)
        ensures
            final(self)@ == old(self)@.on_cancel().state,
            final(self).threshold() == old(self).threshold(),
    {
        let step = self.state.cancel();
        self.state = step.state;
        step.gesture.deliver(data, delegate);
    }
}

} // verus!

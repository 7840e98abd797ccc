//! What the tracker makes of a whole sequence of raw inputs, and the facts
//! that hold of every press, move and release.

use crate::event::MouseEvent;
use crate::gesture::{Call, Gesture};
use crate::state::{MouseState, Step};
use vstd::prelude::*;

verus! {

/// One raw input.
#[derive(Clone, Copy, Debug, PartialEq, Eq, Structural)]
pub enum Input {
    /// The pointer moved.
    Moved(MouseEvent),
    /// A button went down.
    Down(MouseEvent),
    /// A button came up.
    Up(MouseEvent),
    /// The gesture is called off.
    Cancel,
}

impl MouseState {
    /// What one input leads to, with drag threshold `limit`.
    pub open spec fn spec_react(self, input: Input, limit: u64) -> Step {
        match input {
            Input::Moved(event) => self.on_moved(event, limit),
            Input::Down(event) => self.on_down(event),
            Input::Up(event) => self.on_up(event),
            Input::Cancel => self.on_cancel(),
        }
    }

    /// Takes one input of any kind, with drag threshold `limit`: the
    /// transition is that of the input's kind.
    ///
    /// A press must not be of the button that is already active.
    #[verifier::when_used_as_spec(spec_react)]
    pub fn react(self, input: Input, limit: u64) -> (step: Step)
        requires
            input matches Input::Down(event) ==> self.accepts_down(event),
        ensures
            step == self.spec_react(input, limit),
    {
        match input {
            Input::Moved(event) => self.moved(event, limit),
            Input::Down(event) => self.down(event),
            Input::Up(event) => self.up(event),
            Input::Cancel => self.cancel(),
        }
    }
}

/// The state after a sequence of inputs, taken in order from `state`.
pub open spec fn run(state: MouseState, inputs: Seq<Input>, limit: u64) -> MouseState
    decreases inputs.len(),
{
    if inputs.len() == 0 {
        state
    } else {
        run(state.react(inputs[0], limit).state, inputs.drop_first(), limit)
    }
}

/// The gestures that a sequence of inputs amounts to, one for each input.
pub open spec fn gestures(state: MouseState, inputs: Seq<Input>, limit: u64) -> Seq<Gesture>
    decreases inputs.len(),
{
    if inputs.len() == 0 {
        seq![]
    } else {
        seq![state.react(inputs[0], limit).gesture] + gestures(
            state.react(inputs[0], limit).state,
            inputs.drop_first(),
            limit,
        )
    }
}

/// The calls of the delegate's methods that a sequence of gestures is
/// reported through, in the order in which they are made.
pub open spec fn fired(gestures: Seq<Gesture>) -> Seq<Call>
    decreases gestures.len(),
{
    if gestures.len() == 0 {
        seq![]
    } else {
        gestures[0].calls() + fired(gestures.drop_first())
    }
}

/// A sequence of moves, as inputs.
pub open spec fn moves(events: Seq<MouseEvent>) -> Seq<Input> {
    Seq::new(events.len(), |i: int| Input::Moved(events[i]))
}

/// The event before the `i`-th of a run of moves that follows `before`.
pub open spec fn event_before(before: MouseEvent, events: Seq<MouseEvent>, i: int) -> MouseEvent {
    if i == 0 {
        before
    } else {
        events[i - 1]
    }
}

proof fn lemma_run_append(state: MouseState, a: Seq<Input>, b: Seq<Input>, limit: u64)
    ensures
        run(state, a + b, limit) == run(run(state, a, limit), b, limit),
        gestures(state, a + b, limit) == gestures(state, a, limit) + gestures(
            run(state, a, limit),
            b,
            limit,
        ),
    decreases a.len(),
{
    if a.len() == 0 {
        assert(a + b =~= b);
        assert(gestures(state, a, limit) + gestures(state, b, limit) =~= gestures(
            state,
            b,
            limit,
        ));
    } else {
        let next = state.react(a[0], limit).state;
        assert((a + b)[0] == a[0]);
        assert((a + b).drop_first() =~= a.drop_first() + b);
        lemma_run_append(next, a.drop_first(), b, limit);
        assert(gestures(state, a + b, limit) =~= gestures(state, a, limit) + gestures(
            run(state, a, limit),
            b,
            limit,
        ));
    }
}

proof fn lemma_run_one(state: MouseState, input: Input, limit: u64)
    ensures
        run(state, seq![input], limit) == state.react(input, limit).state,
        gestures(state, seq![input], limit) == seq![state.react(input, limit).gesture],
{
    let rest = seq![input].drop_first();
    assert(rest.len() == 0);
    let next = state.react(input, limit).state;
    assert(run(next, rest, limit) == next);
    assert(gestures(next, rest, limit) =~= Seq::<Gesture>::empty());
    assert(gestures(state, seq![input], limit) =~= seq![state.react(input, limit).gesture]);
}

proof fn lemma_fired_append(a: Seq<Gesture>, b: Seq<Gesture>)
    ensures
        fired(a + b) == fired(a) + fired(b),
    decreases a.len(),
{
    if a.len() == 0 {
        assert(a + b =~= b);
        assert(fired(a) + fired(b) =~= fired(b));
    } else {
        assert((a + b)[0] == a[0]);
        assert((a + b).drop_first() =~= a.drop_first() + b);
        lemma_fired_append(a.drop_first(), b);
        assert(fired(a + b) =~= fired(a) + fired(b));
    }
}

proof fn lemma_fired_one(gesture: Gesture)
    ensures
        fired(seq![gesture]) == gesture.calls(),
{
    assert(seq![gesture].drop_first().len() == 0);
    assert(fired(seq![gesture].drop_first()) =~= Seq::<Call>::empty());
    assert(fired(seq![gesture]) =~= gesture.calls());
}

/// Moves that stay within the threshold of the press leave the state as it
/// is and report nothing.
proof fn lemma_quiet_moves(press: MouseEvent, events: Seq<MouseEvent>, limit: u64)
    requires
        forall|i: int|
            0 <= i < events.len() ==> !press.pos.farther_than(#[trigger] events[i].pos, limit),
    ensures
        run(MouseState::Down(press), moves(events), limit) == MouseState::Down(press),
        gestures(MouseState::Down(press), moves(events), limit) == Seq::new(
            events.len(),
            |i: int| Gesture::Ignored,
        ),
        fired(gestures(MouseState::Down(press), moves(events), limit)) == Seq::<Call>::empty(),
    decreases events.len(),
{
    let state = MouseState::Down(press);
    let inputs = moves(events);
    if events.len() == 0 {
        assert(gestures(state, inputs, limit) =~= Seq::new(
            events.len(),
            |i: int| Gesture::Ignored,
        ));
    } else {
        let rest = events.drop_first();
        assert(inputs[0] == Input::Moved(events[0]));
        assert(!press.pos.farther_than(events[0].pos, limit));
        assert(state.react(inputs[0], limit) == Step { state, gesture: Gesture::Ignored });
        assert(inputs.drop_first() =~= moves(rest));
        assert forall|i: int| 0 <= i < rest.len() implies !press.pos.farther_than(
            #[trigger] rest[i].pos,
            limit,
        ) by {
            assert(rest[i] == events[i + 1]);
        }
        lemma_quiet_moves(press, rest, limit);
        let tail = gestures(state, moves(rest), limit);
        assert(gestures(state, inputs, limit) == seq![Gesture::Ignored] + tail);
        assert(gestures(state, inputs, limit) =~= Seq::new(
            events.len(),
            |i: int| Gesture::Ignored,
        ));
        assert((seq![Gesture::Ignored] + tail).drop_first() =~= tail);
        assert(fired(seq![Gesture::Ignored] + tail) =~= Seq::<Call>::empty());
    }
}

/// During a drag every move is reported as a change, with the event
/// before it, and becomes the current event.
proof fn lemma_drag_moves(
    start: MouseEvent,
    current: MouseEvent,
    events: Seq<MouseEvent>,
    limit: u64,
)
    ensures
        run(MouseState::Drag { start, current }, moves(events), limit) == (MouseState::Drag {
            start,
            current: event_before(current, events, events.len() as int),
        }),
        gestures(MouseState::Drag { start, current }, moves(events), limit) == Seq::new(
            events.len(),
            |i: int|
                Gesture::DragChanged {
                    start,
                    prev: event_before(current, events, i),
                    current: events[i],
                },
        ),
        fired(gestures(MouseState::Drag { start, current }, moves(events), limit)) == Seq::new(
            events.len(),
            |i: int|
                Call::DragChanged {
                    kind: start.button.kind(),
                    start,
                    prev: event_before(current, events, i),
                    current: events[i],
                },
        ),
    decreases events.len(),
{
    let state = MouseState::Drag { start, current };
    let inputs = moves(events);
    let expected = Seq::new(
        events.len(),
        |i: int|
            Gesture::DragChanged {
                start,
                prev: event_before(current, events, i),
                current: events[i],
            },
    );
    let calls = Seq::new(
        events.len(),
        |i: int|
            Call::DragChanged {
                kind: start.button.kind(),
                start,
                prev: event_before(current, events, i),
                current: events[i],
            },
    );
    if events.len() == 0 {
        assert(gestures(state, inputs, limit) =~= expected);
        assert(fired(gestures(state, inputs, limit)) =~= calls);
    } else {
        let rest = events.drop_first();
        let first = Gesture::DragChanged { start, prev: current, current: events[0] };
        let next = MouseState::Drag { start, current: events[0] };
        assert(inputs[0] == Input::Moved(events[0]));
        assert(state.react(inputs[0], limit) == Step { state: next, gesture: first });
        assert(inputs.drop_first() =~= moves(rest));
        lemma_drag_moves(start, events[0], rest, limit);
        let tail = gestures(next, moves(rest), limit);
        assert(gestures(state, inputs, limit) == seq![first] + tail);
        assert forall|i: int| 0 <= i < events.len() implies (seq![first] + tail)[i]
            == expected[i] by {
            if i > 0 {
                assert((seq![first] + tail)[i] == tail[i - 1]);
                assert(rest[i - 1] == events[i]);
                if i > 1 {
                    assert(rest[i - 2] == events[i - 1]);
                }
            }
        }
        assert(seq![first] + tail =~= expected);
        assert(event_before(events[0], rest, rest.len() as int) == event_before(
            current,
            events,
            events.len() as int,
        )) by {
            if rest.len() > 0 {
                assert(rest[rest.len() - 1] == events[events.len() - 1]);
            }
        }
        assert((seq![first] + tail).drop_first() =~= tail);
        assert(fired(seq![first] + tail) =~= calls);
    }
}

/// A press, any number of moves that stay within the drag threshold of it,
/// and the release of the same button make a click: the delegate sees the
/// press, then the release, then the click, each once and nothing else, the
/// release and the click both with the event of the release, and no button
/// is active afterwards.
pub proof fn click_gesture(
    idle: MouseState,
    down: MouseEvent,
    quiet: Seq<MouseEvent>,
    up: MouseEvent,
    limit: u64,
)
    requires
        idle is Up,
        forall|i: int|
            0 <= i < quiet.len() ==> !down.pos.farther_than(#[trigger] quiet[i].pos, limit),
        up.button == down.button,
    ensures
        ({
            let inputs = seq![Input::Down(down)] + moves(quiet) + seq![Input::Up(up)];
            let kind = down.button.kind();
            &&& run(idle, inputs, limit) == MouseState::Up(up)
            &&& gestures(idle, inputs, limit) == seq![Gesture::Down { event: down }] + Seq::new(
                quiet.len(),
                |i: int| Gesture::Ignored,
            ) + seq![Gesture::Click { event: up }]
            &&& fired(gestures(idle, inputs, limit)) == seq![
                Call::Down { kind, event: down },
                Call::Up { kind, event: up },
                Call::Click { kind, event: up },
            ]
        }),
{
    let pressed = MouseState::Down(down);
    let a = seq![Input::Down(down)];
    let b = moves(quiet);
    let c = seq![Input::Up(up)];
    let kind = down.button.kind();
    lemma_run_one(idle, Input::Down(down), limit);
    lemma_quiet_moves(down, quiet, limit);
    lemma_run_one(pressed, Input::Up(up), limit);
    lemma_run_append(idle, a, b, limit);
    lemma_run_append(idle, a + b, c, limit);
    let ga = seq![Gesture::Down { event: down }];
    let gb = Seq::new(quiet.len(), |i: int| Gesture::Ignored);
    let gc = seq![Gesture::Click { event: up }];
    assert(gestures(idle, a + b + c, limit) == ga + gb + gc);
    lemma_fired_append(ga + gb, gc);
    lemma_fired_append(ga, gb);
    lemma_fired_one(Gesture::Down { event: down });
    lemma_fired_one(Gesture::Click { event: up });
    assert(fired(ga + gb + gc) =~= seq![
        Call::Down { kind, event: down },
        Call::Up { kind, event: up },
        Call::Click { kind, event: up },
    ]);
}

/// A press, a move that goes strictly farther than the drag threshold, any
/// number of further moves, and the release of the same button make a
/// drag: the delegate sees the press, the beginning of the drag once, one
/// change for each further move, then the release and the end of the drag.
/// It sees no click. The beginning names the press as the event before the
/// move, each change names the event before it, the release is handed the
/// event of the release, and the end names the last move.
pub proof fn drag_gesture(
    idle: MouseState,
    down: MouseEvent,
    first: MouseEvent,
    rest: Seq<MouseEvent>,
    up: MouseEvent,
    limit: u64,
)
    requires
        idle is Up,
        down.pos.farther_than(first.pos, limit),
        up.button == down.button,
    ensures
        ({
            let inputs = seq![Input::Down(down), Input::Moved(first)] + moves(rest) + seq![
                Input::Up(up),
            ];
            let kind = down.button.kind();
            let calls = fired(gestures(idle, inputs, limit));
            &&& run(idle, inputs, limit) == MouseState::Up(up)
            &&& gestures(idle, inputs, limit) == seq![
                Gesture::Down { event: down },
                Gesture::DragBegan { start: down, current: first },
            ] + Seq::new(
                rest.len(),
                |i: int|
                    Gesture::DragChanged {
                        start: down,
                        prev: event_before(first, rest, i),
                        current: rest[i],
                    },
            ) + seq![
                Gesture::DragEnded {
                    start: down,
                    prev: event_before(first, rest, rest.len() as int),
                    current: up,
                },
            ]
            &&& calls == seq![
                Call::Down { kind, event: down },
                Call::DragBegan { kind, start: down, prev: down, current: first },
            ] + Seq::new(
                rest.len(),
                |i: int|
                    Call::DragChanged {
                        kind,
                        start: down,
                        prev: event_before(first, rest, i),
                        current: rest[i],
                    },
            ) + seq![
                Call::Up { kind, event: up },
                Call::DragEnded {
                    kind,
                    start: down,
                    prev: event_before(first, rest, rest.len() as int),
                    current: up,
                },
            ]
            &&& forall|i: int| 0 <= i < calls.len() ==> !(#[trigger] calls[i] is Click)
        }),
{
    let pressed = MouseState::Down(down);
    let dragging = MouseState::Drag { start: down, current: first };
    let last = event_before(first, rest, rest.len() as int);
    let kind = down.button.kind();
    let a = seq![Input::Down(down)];
    let b = seq![Input::Moved(first)];
    let c = moves(rest);
    let d = seq![Input::Up(up)];
    assert(seq![Input::Down(down), Input::Moved(first)] =~= a + b);
    lemma_run_one(idle, Input::Down(down), limit);
    lemma_run_one(pressed, Input::Moved(first), limit);
    lemma_drag_moves(down, first, rest, limit);
    lemma_run_one(MouseState::Drag { start: down, current: last }, Input::Up(up), limit);
    lemma_run_append(idle, a, b, limit);
    lemma_run_append(idle, a + b, c, limit);
    lemma_run_append(idle, a + b + c, d, limit);
    let ga = seq![Gesture::Down { event: down }];
    let gb = seq![Gesture::DragBegan { start: down, current: first }];
    let gc = Seq::new(
        rest.len(),
        |i: int|
            Gesture::DragChanged {
                start: down,
                prev: event_before(first, rest, i),
                current: rest[i],
            },
    );
    let gd = seq![Gesture::DragEnded { start: down, prev: last, current: up }];
    assert(seq![
        Gesture::Down { event: down },
        Gesture::DragBegan { start: down, current: first },
    ] =~= ga + gb);
    assert(gestures(idle, a + b + c + d, limit) == ga + gb + gc + gd);
    lemma_fired_append(ga + gb + gc, gd);
    lemma_fired_append(ga + gb, gc);
    lemma_fired_append(ga, gb);
    lemma_fired_one(Gesture::Down { event: down });
    lemma_fired_one(Gesture::DragBegan { start: down, current: first });
    lemma_fired_one(Gesture::DragEnded { start: down, prev: last, current: up });
    let calls = seq![
        Call::Down { kind, event: down },
        Call::DragBegan { kind, start: down, prev: down, current: first },
    ] + Seq::new(
        rest.len(),
        |i: int|
            Call::DragChanged {
                kind,
                start: down,
                prev: event_before(first, rest, i),
                current: rest[i],
            },
    ) + seq![
        Call::Up { kind, event: up },
        Call::DragEnded { kind, start: down, prev: last, current: up },
    ];
    assert(fired(ga + gb + gc + gd) =~= calls);
    assert forall|i: int| 0 <= i < calls.len() implies !(#[trigger] calls[i] is Click) by {}
}

/// The drag threshold is exclusive. While a button is down, a move to a
/// point whose distance from the press is the threshold or less changes
/// nothing and is not reported; a move to a point strictly farther begins
/// the drag, from the press to that move, and is reported through one call
/// that names the press both as the start and as the event before.
pub proof fn threshold_boundary(press: MouseEvent, event: MouseEvent, limit: u64)
    ensures
        press.pos.distance_squared(event.pos) <= limit * limit ==> MouseState::Down(
            press,
        ).on_moved(event, limit) == (Step {
            state: MouseState::Down(press),
            gesture: Gesture::Ignored,
        }),
        press.pos.distance_squared(event.pos) > limit * limit ==> MouseState::Down(press).on_moved(
            event,
            limit,
        ) == (Step {
            state: MouseState::Drag { start: press, current: event },
            gesture: Gesture::DragBegan { start: press, current: event },
        }),
        press.pos.distance_squared(event.pos) > limit * limit ==> MouseState::Down(press).on_moved(
            event,
            limit,
        ).gesture.calls() == seq![
            Call::DragBegan {
                kind: press.button.kind(),
                start: press,
                prev: press,
                current: event,
            },
        ],
{
}

/// The release of a button that is not the active one changes nothing and
/// is not reported, and the release of the active button after it ends the
/// gesture as it would have without it: a press ends as a click, a drag
/// ends with the event before the release as the previous one. Either way
/// the release is handed to the delegate first, with its own event.
pub proof fn mismatched_release(state: MouseState, wrong: MouseEvent, right: MouseEvent)
    requires
        state.active_button() is Some,
        state.active_button() != Some(wrong.button),
        state.active_button() == Some(right.button),
    ensures
        state.on_up(wrong) == (Step { state, gesture: Gesture::Ignored }),
        state.on_up(wrong).state.on_up(right) == state.on_up(right),
        state.on_up(right).state == MouseState::Up(right),
        state is Down ==> state.on_up(right).gesture == (Gesture::Click { event: right }),
        state matches MouseState::Drag { start, current } ==> state.on_up(right).gesture
            == (Gesture::DragEnded { start, prev: current, current: right }),
        state is Down ==> state.on_up(right).gesture.calls() == seq![
            Call::Up { kind: right.button.kind(), event: right },
            Call::Click { kind: right.button.kind(), event: right },
        ],
        state matches MouseState::Drag { start, current } ==> state.on_up(right).gesture.calls()
            == seq![
            Call::Up { kind: right.button.kind(), event: right },
            Call::DragEnded { kind: right.button.kind(), start, prev: current, current: right },
        ],
{
}

/// Calling off works in every state: the cancellation is reported through
/// the delegate's `cancel` and nothing else, no button is active
/// afterwards, and the position stays what it was.
pub proof fn cancel_from_any_state(state: MouseState)
    ensures
        state.on_cancel().gesture.calls() == seq![Call::Cancel],
        state.on_cancel().state == MouseState::Up(state.current()),
        state.on_cancel().state.pos() == state.pos(),
        state.on_cancel().state.active_button() is None,
{
}

/// A second button that goes down and comes up during a gesture is not
/// reported either time and leaves the gesture to the first button: the
/// press it started stays, the drag keeps its start, and the release of the
/// first button still ends the gesture: a press as a click, a drag with
/// the second button's press as the event before the release.
pub proof fn second_button_is_ignored(
    state: MouseState,
    second_down: MouseEvent,
    second_up: MouseEvent,
    first_up: MouseEvent,
)
    requires
        state.active_button() is Some,
        state.active_button() != Some(second_down.button),
        second_up.button == second_down.button,
        state.active_button() == Some(first_up.button),
    ensures
        state.accepts_down(second_down),
        state.on_down(second_down).gesture == Gesture::Ignored,
        ({
            let during = state.on_down(second_down).state;
            &&& during.active_button() == state.active_button()
            &&& state is Down ==> during == state
            &&& state matches MouseState::Drag { start, .. } ==> during == (MouseState::Drag {
                start,
                current: second_down,
            })
            &&& during.on_up(second_up) == (Step { state: during, gesture: Gesture::Ignored })
            &&& during.on_up(first_up).state == MouseState::Up(first_up)
            &&& state is Down ==> during.on_up(first_up).gesture == (Gesture::Click {
                event: first_up,
            })
            &&& state matches MouseState::Drag { start, .. } ==> during.on_up(first_up).gesture == (
            Gesture::DragEnded { start, prev: second_down, current: first_up })
            &&& during.on_up(first_up).gesture.is_reported()
        }),
{
}

/// A gesture belongs to one button from its press to its end. Whatever the
/// input, the active button stays the active one or the gesture is over; a
/// drag keeps the event that started it; and a gesture is over only after
/// the release of its button or a cancellation.
pub proof fn gesture_keeps_its_button(state: MouseState, input: Input, limit: u64)
    requires
        state.active_button() is Some,
        input matches Input::Down(event) ==> state.accepts_down(event),
    ensures
        ({
            let next = state.react(input, limit).state;
            &&& next.active_button() == state.active_button() || next is Up
            &&& next is Up ==> input == Input::Cancel || (input matches Input::Up(event)
                && state.active_button() == Some(event.button))
            &&& state matches MouseState::Drag { start, .. } ==> next is Up || (next matches MouseState::Drag {
                start: kept,
                ..
            } && kept == start)
            &&& state is Drag ==> !(next is Down)
        }),
{
}

} // verus!

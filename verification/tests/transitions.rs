use mouse_gestures::event::{KeyModifiers, MouseButton, MouseEvent, Point};
use mouse_gestures::gesture::Gesture;
use mouse_gestures::state::{MouseState, Step};
use mouse_gestures::trace::Input;

fn event(x: i64, y: i64, button: MouseButton) -> MouseEvent {
    MouseEvent {
        pos: Point { x, y },
        mods: KeyModifiers::default(),
        count: 1,
        button,
    }
}

fn moved_to(x: i64, y: i64) -> MouseEvent {
    MouseEvent {
        pos: Point { x, y },
        mods: KeyModifiers::default(),
        count: 0,
        button: MouseButton::NoButton,
    }
}

#[test]
fn initial_state_is_up_at_the_origin() {
    let state = MouseState::initial();
    assert_eq!(state, MouseState::Up(MouseEvent::initial()));
    assert_eq!(state.pos(), Point { x: 0, y: 0 });
    assert_eq!(state.active_button(), None);
}

#[test]
fn current_event_of_each_state() {
    let a = event(1, 2, MouseButton::Left);
    let b = moved_to(3, 4);
    assert_eq!(MouseState::Up(a).current(), a);
    assert_eq!(MouseState::Down(a).current(), a);
    assert_eq!(MouseState::Drag { start: a, current: b }.current(), b);
    assert_eq!(MouseState::Up(a).pos(), Point { x: 1, y: 2 });
    assert_eq!(MouseState::Down(a).pos(), Point { x: 1, y: 2 });
    assert_eq!(
        MouseState::Drag { start: a, current: b }.pos(),
        Point { x: 3, y: 4 }
    );
}

#[test]
fn active_button_of_each_state() {
    let a = event(1, 2, MouseButton::Right);
    let b = moved_to(3, 4);
    assert_eq!(MouseState::Up(a).active_button(), None);
    assert_eq!(MouseState::Down(a).active_button(), Some(MouseButton::Right));
    assert_eq!(
        MouseState::Drag { start: a, current: b }.active_button(),
        Some(MouseButton::Right)
    );
}

#[test]
fn move_with_no_button_is_reported() {
    let last = moved_to(0, 0);
    let next = moved_to(40, 50);
    let step = MouseState::Up(last).moved(next, 10);
    assert_eq!(
        step,
        Step {
            state: MouseState::Up(next),
            gesture: Gesture::Moved { event: next }
        }
    );
}

#[test]
fn move_within_the_threshold_changes_nothing() {
    let press = event(0, 0, MouseButton::Left);
    let step = MouseState::Down(press).moved(moved_to(3, 0), 10);
    assert_eq!(
        step,
        Step {
            state: MouseState::Down(press),
            gesture: Gesture::Ignored
        }
    );
}

#[test]
fn move_at_the_threshold_does_not_begin_a_drag() {
    let press = event(0, 0, MouseButton::Left);
    let state = MouseState::Down(press);
    assert_eq!(state.moved(moved_to(10, 0), 10).gesture, Gesture::Ignored);
    assert_eq!(state.moved(moved_to(6, 8), 10).gesture, Gesture::Ignored);
    assert_eq!(state.moved(moved_to(10, 0), 10).state, state);
}

#[test]
fn move_past_the_threshold_begins_a_drag() {
    let press = event(0, 0, MouseButton::Left);
    let to = moved_to(11, 0);
    let step = MouseState::Down(press).moved(to, 10);
    assert_eq!(
        step,
        Step {
            state: MouseState::Drag {
                start: press,
                current: to
            },
            gesture: Gesture::DragBegan {
                start: press,
                current: to
            },
        }
    );
    let diagonal = moved_to(6, 9);
    assert_eq!(
        MouseState::Down(press).moved(diagonal, 10).gesture,
        Gesture::DragBegan {
            start: press,
            current: diagonal
        }
    );
}

#[test]
fn threshold_of_zero_drags_on_any_real_move() {
    let press = event(5, 5, MouseButton::Left);
    let state = MouseState::Down(press);
    assert_eq!(state.moved(moved_to(5, 5), 0).gesture, Gesture::Ignored);
    assert_eq!(
        state.moved(moved_to(5, 6), 0).gesture,
        Gesture::DragBegan {
            start: press,
            current: moved_to(5, 6)
        }
    );
}

#[test]
fn move_during_a_drag_is_a_change() {
    let press = event(0, 0, MouseButton::Right);
    let before = moved_to(20, 0);
    let to = moved_to(1, 0);
    let step = MouseState::Drag {
        start: press,
        current: before,
    }
    .moved(to, 10);
    assert_eq!(
        step,
        Step {
            state: MouseState::Drag {
                start: press,
                current: to
            },
            gesture: Gesture::DragChanged {
                start: press,
                prev: before,
                current: to
            },
        }
    );
}

#[test]
fn button_of_a_move_is_not_looked_at() {
    let press = event(0, 0, MouseButton::Right);
    let mut to = moved_to(30, 0);
    to.button = MouseButton::Left;
    let step = MouseState::Down(press).moved(to, 10);
    assert_eq!(
        step.gesture,
        Gesture::DragBegan {
            start: press,
            current: to
        }
    );
    assert_eq!(step.state.active_button(), Some(MouseButton::Right));
}

#[test]
fn press_with_no_button_active_starts_a_gesture() {
    let last = moved_to(7, 7);
    let press = event(8, 8, MouseButton::Middle);
    assert!(MouseState::Up(last).accepts_down(press));
    let step = MouseState::Up(last).down(press);
    assert_eq!(
        step,
        Step {
            state: MouseState::Down(press),
            gesture: Gesture::Down { event: press }
        }
    );
}

#[test]
fn press_of_the_active_button_is_not_accepted() {
    let press = event(0, 0, MouseButton::Left);
    let again = event(1, 1, MouseButton::Left);
    let other = event(1, 1, MouseButton::Right);
    assert!(!MouseState::Down(press).accepts_down(again));
    assert!(MouseState::Down(press).accepts_down(other));
    let dragging = MouseState::Drag {
        start: press,
        current: moved_to(50, 0),
    };
    assert!(!dragging.accepts_down(again));
    assert!(dragging.accepts_down(other));
    assert!(MouseState::Up(press).accepts_down(again));
}

#[test]
fn second_press_while_pressed_changes_nothing() {
    let press = event(0, 0, MouseButton::Left);
    let second = event(2, 2, MouseButton::Right);
    let step = MouseState::Down(press).down(second);
    assert_eq!(
        step,
        Step {
            state: MouseState::Down(press),
            gesture: Gesture::Ignored
        }
    );
}

#[test]
fn second_press_while_dragging_only_moves_the_current_event() {
    let press = event(0, 0, MouseButton::Left);
    let second = event(32, 2, MouseButton::Right);
    let step = MouseState::Drag {
        start: press,
        current: moved_to(30, 0),
    }
    .down(second);
    assert_eq!(
        step,
        Step {
            state: MouseState::Drag {
                start: press,
                current: second
            },
            gesture: Gesture::Ignored,
        }
    );
}

#[test]
fn release_with_no_button_active_is_not_reported() {
    let release = event(9, 9, MouseButton::Left);
    let step = MouseState::Up(moved_to(0, 0)).up(release);
    assert_eq!(
        step,
        Step {
            state: MouseState::Up(release),
            gesture: Gesture::Ignored
        }
    );
}

#[test]
fn release_of_the_pressed_button_is_a_click() {
    let press = event(0, 0, MouseButton::X1);
    let release = event(1, 0, MouseButton::X1);
    let step = MouseState::Down(press).up(release);
    assert_eq!(
        step,
        Step {
            state: MouseState::Up(release),
            gesture: Gesture::Click { event: release }
        }
    );
}

#[test]
fn release_of_another_button_while_pressed_changes_nothing() {
    let press = event(0, 0, MouseButton::Left);
    let release = event(1, 0, MouseButton::Right);
    let step = MouseState::Down(press).up(release);
    assert_eq!(
        step,
        Step {
            state: MouseState::Down(press),
            gesture: Gesture::Ignored
        }
    );
}

#[test]
fn release_of_the_dragging_button_ends_the_drag() {
    let press = event(0, 0, MouseButton::Left);
    let last = moved_to(30, 0);
    let release = event(31, 0, MouseButton::Left);
    let step = MouseState::Drag {
        start: press,
        current: last,
    }
    .up(release);
    assert_eq!(
        step,
        Step {
            state: MouseState::Up(release),
            gesture: Gesture::DragEnded {
                start: press,
                prev: last,
                current: release
            },
        }
    );
}

#[test]
fn release_of_another_button_while_dragging_changes_nothing() {
    let press = event(0, 0, MouseButton::Left);
    let state = MouseState::Drag {
        start: press,
        current: moved_to(30, 0),
    };
    let step = state.up(event(31, 0, MouseButton::Middle));
    assert_eq!(
        step,
        Step {
            state,
            gesture: Gesture::Ignored
        }
    );
}

#[test]
fn cancel_keeps_the_current_event_in_every_state() {
    let a = event(1, 2, MouseButton::Left);
    let b = moved_to(30, 40);
    let idle = MouseState::Up(a).cancel();
    assert_eq!(
        idle,
        Step {
            state: MouseState::Up(a),
            gesture: Gesture::Cancel
        }
    );
    let pressed = MouseState::Down(a).cancel();
    assert_eq!(
        pressed,
        Step {
            state: MouseState::Up(a),
            gesture: Gesture::Cancel
        }
    );
    let dragging = MouseState::Drag { start: a, current: b }.cancel();
    assert_eq!(
        dragging,
        Step {
            state: MouseState::Up(b),
            gesture: Gesture::Cancel
        }
    );
    assert_eq!(dragging.state.pos(), Point { x: 30, y: 40 });
}

#[test]
fn only_ignored_is_not_reported() {
    let e = event(0, 0, MouseButton::Left);
    assert!(!Gesture::Ignored.is_reported());
    assert!(Gesture::Moved { event: e }.is_reported());
    assert!(Gesture::Down { event: e }.is_reported());
    assert!(Gesture::Click { event: e }.is_reported());
    assert!(Gesture::DragBegan { start: e, current: e }.is_reported());
    assert!(Gesture::DragChanged {
        start: e,
        prev: e,
        current: e
    }
    .is_reported());
    assert!(Gesture::DragEnded {
        start: e,
        prev: e,
        current: e
    }
    .is_reported());
    assert!(Gesture::Cancel.is_reported());
}

#[test]
fn gesture_with_one_method_is_consumed_by_its_answer() {
    let e = event(0, 0, MouseButton::Left);
    let single = [
        Gesture::Moved { event: e },
        Gesture::Down { event: e },
        Gesture::DragBegan { start: e, current: e },
        Gesture::DragChanged {
            start: e,
            prev: e,
            current: e,
        },
    ];
    for gesture in single {
        assert!(gesture.consumed(true, false));
        assert!(gesture.consumed(true, true));
        assert!(!gesture.consumed(false, false));
        assert!(!gesture.consumed(false, true));
    }
}

#[test]
fn gesture_with_two_methods_is_consumed_by_either_answer() {
    let e = event(0, 0, MouseButton::Left);
    let double = [
        Gesture::Click { event: e },
        Gesture::DragEnded {
            start: e,
            prev: e,
            current: e,
        },
    ];
    for gesture in double {
        assert!(gesture.consumed(true, false));
        assert!(gesture.consumed(false, true));
        assert!(gesture.consumed(true, true));
        assert!(!gesture.consumed(false, false));
    }
}

#[test]
fn ignored_and_cancel_are_never_consumed() {
    for gesture in [Gesture::Ignored, Gesture::Cancel] {
        assert!(!gesture.consumed(false, false));
        assert!(!gesture.consumed(true, false));
        assert!(!gesture.consumed(false, true));
        assert!(!gesture.consumed(true, true));
    }
}

#[test]
fn react_takes_the_transition_of_the_input() {
    let press = event(0, 0, MouseButton::Left);
    let to = moved_to(40, 0);
    let lift = event(41, 0, MouseButton::Left);
    let idle = MouseState::Up(moved_to(0, 0));
    let pressed = MouseState::Down(press);
    let dragging = MouseState::Drag {
        start: press,
        current: to,
    };
    for state in [idle, pressed, dragging] {
        assert_eq!(state.react(Input::Moved(to), 10), state.moved(to, 10));
        assert_eq!(state.react(Input::Moved(to), 100), state.moved(to, 100));
        assert_eq!(state.react(Input::Up(lift), 10), state.up(lift));
        assert_eq!(state.react(Input::Cancel, 10), state.cancel());
        let other = event(5, 5, MouseButton::Right);
        assert_eq!(state.react(Input::Down(other), 10), state.down(other));
    }
    assert_eq!(idle.react(Input::Down(press), 10), idle.down(press));
}

#[test]
fn inputs_of_a_drag_in_sequence() {
    let press = event(0, 0, MouseButton::Left);
    let inputs = [
        Input::Down(press),
        Input::Moved(moved_to(3, 0)),
        Input::Moved(moved_to(15, 0)),
        Input::Moved(moved_to(16, 2)),
        Input::Up(event(16, 2, MouseButton::Left)),
    ];
    let mut state = MouseState::initial();
    let mut gestures = Vec::new();
    for input in inputs {
        let step = state.react(input, 10);
        state = step.state;
        gestures.push(step.gesture);
    }
    assert_eq!(state, MouseState::Up(event(16, 2, MouseButton::Left)));
    assert_eq!(
        gestures,
        vec![
            Gesture::Down { event: press },
            Gesture::Ignored,
            Gesture::DragBegan {
                start: press,
                current: moved_to(15, 0)
            },
            Gesture::DragChanged {
                start: press,
                prev: moved_to(15, 0),
                current: moved_to(16, 2)
            },
            Gesture::DragEnded {
                start: press,
                prev: moved_to(16, 2),
                current: event(16, 2, MouseButton::Left)
            },
        ]
    );
}

#[test]
fn inputs_of_a_click_in_sequence() {
    let press = event(7, 7, MouseButton::Right);
    let lift = event(9, 9, MouseButton::Right);
    let inputs = [
        Input::Down(press),
        Input::Moved(moved_to(8, 8)),
        Input::Moved(moved_to(13, 15)),
        Input::Moved(moved_to(9, 9)),
        Input::Up(lift),
    ];
    let mut state = MouseState::initial();
    let mut gestures = Vec::new();
    for input in inputs {
        let step = state.react(input, 10);
        state = step.state;
        gestures.push(step.gesture);
    }
    assert_eq!(state, MouseState::Up(lift));
    assert_eq!(
        gestures,
        vec![
            Gesture::Down { event: press },
            Gesture::Ignored,
            Gesture::Ignored,
            Gesture::Ignored,
            Gesture::Click { event: lift },
        ]
    );
}

use mouse_gestures::event::{ButtonKind, KeyModifiers, MouseButton, MouseEvent, Point};

fn at(x: i64, y: i64) -> Point {
    Point { x, y }
}

#[test]
fn origin_is_zero_zero() {
    assert_eq!(Point::origin(), at(0, 0));
}

#[test]
fn default_modifiers_hold_no_key() {
    let mods = KeyModifiers::default();
    assert_eq!(
        mods,
        KeyModifiers {
            shift: false,
            alt: false,
            ctrl: false,
            meta: false
        }
    );
}

#[test]
fn initial_event_is_a_left_button_at_the_origin() {
    let event = MouseEvent::initial();
    assert_eq!(event.pos, at(0, 0));
    assert_eq!(event.mods, KeyModifiers::default());
    assert_eq!(event.count, 0);
    assert_eq!(event.button, MouseButton::Left);
}

#[test]
fn only_left_is_left() {
    assert!(MouseButton::Left.is_left());
    assert!(!MouseButton::Right.is_left());
    assert!(!MouseButton::Middle.is_left());
    assert!(!MouseButton::X1.is_left());
    assert!(!MouseButton::X2.is_left());
    assert!(!MouseButton::NoButton.is_left());
}

#[test]
fn only_right_is_right() {
    assert!(MouseButton::Right.is_right());
    assert!(!MouseButton::Left.is_right());
    assert!(!MouseButton::Middle.is_right());
    assert!(!MouseButton::X1.is_right());
    assert!(!MouseButton::X2.is_right());
    assert!(!MouseButton::NoButton.is_right());
}

#[test]
fn every_button_has_one_kind() {
    assert_eq!(MouseButton::Left.kind(), ButtonKind::Left);
    assert_eq!(MouseButton::Right.kind(), ButtonKind::Right);
    assert_eq!(MouseButton::Middle.kind(), ButtonKind::Other);
    assert_eq!(MouseButton::X1.kind(), ButtonKind::Other);
    assert_eq!(MouseButton::X2.kind(), ButtonKind::Other);
    assert_eq!(MouseButton::NoButton.kind(), ButtonKind::Other);
}

#[test]
fn a_point_is_not_farther_than_it_is_from_itself() {
    assert!(!at(5, -7).farther_than(at(5, -7), 0));
    assert!(!at(5, -7).farther_than(at(5, -7), 10));
}

#[test]
fn any_other_point_is_farther_than_zero() {
    assert!(at(0, 0).farther_than(at(1, 0), 0));
    assert!(at(0, 0).farther_than(at(0, -1), 0));
}

#[test]
fn distance_along_one_axis() {
    assert!(!at(0, 0).farther_than(at(9, 0), 10));
    assert!(!at(0, 0).farther_than(at(10, 0), 10));
    assert!(at(0, 0).farther_than(at(11, 0), 10));
    assert!(!at(0, 0).farther_than(at(0, -10), 10));
    assert!(at(0, 0).farther_than(at(0, -11), 10));
}

#[test]
fn distance_is_euclidean() {
    // 6, 8, 10 is a right triangle: exactly at the limit.
    assert!(!at(0, 0).farther_than(at(6, 8), 10));
    assert!(!at(0, 0).farther_than(at(-8, 6), 10));
    // 36 + 81 = 117 > 100, though neither leg exceeds the limit.
    assert!(at(0, 0).farther_than(at(6, 9), 10));
    // 49 + 49 = 98 < 100.
    assert!(!at(0, 0).farther_than(at(7, 7), 10));
    // 49 + 64 = 113 > 100.
    assert!(at(0, 0).farther_than(at(7, 8), 10));
}

#[test]
fn distance_is_symmetric_and_relative() {
    assert!(at(100, 100).farther_than(at(106, 109), 10));
    assert!(at(106, 109).farther_than(at(100, 100), 10));
    assert!(!at(100, 100).farther_than(at(106, 108), 10));
    assert!(!at(106, 108).farther_than(at(100, 100), 10));
    assert!(!at(-3, -4).farther_than(at(3, 4), 10));
    assert!(at(-3, -4).farther_than(at(3, 5), 10));
}

#[test]
fn distance_at_the_ends_of_the_range() {
    let low = at(i64::MIN, i64::MIN);
    let high = at(i64::MAX, i64::MAX);
    // Each leg is u64::MAX long, so the diagonal is longer than u64::MAX.
    assert!(low.farther_than(high, u64::MAX));
    assert!(high.farther_than(low, u64::MAX));
    // One leg alone is exactly the limit.
    assert!(!at(i64::MIN, 0).farther_than(at(i64::MAX, 0), u64::MAX));
    assert!(at(i64::MIN, 0).farther_than(at(i64::MAX, 1), u64::MAX));
    assert!(at(i64::MIN, 0).farther_than(at(i64::MAX, 0), u64::MAX - 1));
    assert!(!at(0, i64::MAX).farther_than(at(0, i64::MIN), u64::MAX));
}

#[test]
fn distance_with_a_fine_unit() {
    // A unit of one ten-thousandth: the limit stands for 10.0, the points
    // for 10.0 and 10.0001.
    assert!(!at(0, 0).farther_than(at(100_000, 0), 100_000));
    assert!(at(0, 0).farther_than(at(100_001, 0), 100_000));
    assert!(!at(0, 0).farther_than(at(60_000, 80_000), 100_000));
    assert!(at(0, 0).farther_than(at(60_000, 80_001), 100_000));
}

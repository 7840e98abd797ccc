//! Pointer events as the gesture tracker sees them.
//!
//! Everything here is plain data: a position in whole device units, the
//! modifier keys, the click count and the button. The input layer builds one
//! [`MouseEvent`] per raw notification and hands it to the tracker.

use vstd::prelude::*;

verus! {

/// A position on the input surface.
///
/// Coordinates are whole numbers of the caller's unit. An input layer that
/// reports fractions of a pixel picks a fixed fraction as its unit and scales
/// the drag threshold by the same factor.
#[derive(Clone, Copy, Debug, PartialEq, Eq, Structural)]
pub struct Point {
    pub x: i64,
    pub y: i64,
}

/// The modifier keys held while an event happened.
#[derive(Clone, Copy, Debug, PartialEq, Eq, Structural)]
pub struct KeyModifiers {
    pub shift: bool,
    pub alt: bool,
    pub ctrl: bool,
    pub meta: bool,
}

/// The button an event is about.
#[derive(Clone, Copy, Debug, PartialEq, Eq, Structural)]
pub enum MouseButton {
    /// No button: what an input layer may put in a move.
    NoButton,
    /// The left, or primary, button.
    Left,
    /// The right, or secondary, button.
    Right,
    /// The middle button.
    Middle,
    /// The first extra button.
    X1,
    /// The second extra button.
    X2,
}

/// The three groups of buttons that gestures are reported for.
#[derive(Clone, Copy, Debug, PartialEq, Eq, Structural)]
pub enum ButtonKind {
    /// The left button.
    Left,
    /// The right button.
    Right,
    /// Every other button.
    Other,
}

/// One raw pointer notification.
#[derive(Clone, Copy, Debug, PartialEq, Eq, Structural)]
pub struct MouseEvent {
    /// Where the pointer is.
    pub pos: Point,
    /// The modifier keys held.
    pub mods: KeyModifiers,
    /// 1 for a single click, 2 for a double click, and so on; 0 where no
    /// button is involved.
    pub count: u32,
    /// The button that went down or up. A move carries whatever the input
    /// layer put here; the tracker does not read it.
    pub button: MouseButton,
}

/// The distance between two coordinates on one axis.
pub open spec fn span(a: i64, b: i64) -> nat {
    if a >= b {
        (a - b) as nat
    } else {
        (b - a) as nat
    }
}

fn axis_span(a: i64, b: i64) -> (d: u64)
    ensures
        d == span(a, b),
{
    if a >= b {
        (a as i128 - b as i128) as u64
    } else {
        (b as i128 - a as i128) as u64
    }
}

proof fn lemma_square_monotonic(a: nat, b: nat)
    requires
        a <= b,
    ensures
        a * a <= b * b,
{
    assert(a * a <= b * b) by (nonlinear_arith)
        requires
            a <= b,
    ;
}

proof fn lemma_square_strictly_monotonic(a: nat, b: nat)
    requires
        a < b,
    ensures
        a * a < b * b,
{
    assert(a * a < b * b) by (nonlinear_arith)
        requires
            a < b,
    ;
}

impl Point {
    /// The origin of the surface.
    pub open spec fn spec_origin() -> Point {
        Point { x: 0, y: 0 }
    }

    /// The origin of the surface.
    #[verifier::when_used_as_spec(spec_origin)]
    pub fn origin() -> (p: Point)
        ensures
            p == Point::spec_origin(),
    {
        Point { x: 0, y: 0 }
    }

    /// The square of the Euclidean distance between two points.
    pub open spec fn distance_squared(self, other: Point) -> nat {
        span(self.x, other.x) * span(self.x, other.x) + span(self.y, other.y) * span(
            self.y,
            other.y,
        )
    }

    /// Whether the Euclidean distance from `self` to `other` is strictly
    /// greater than `limit`. Stated over squares, which order as their
    /// roots do.
    pub open spec fn spec_farther_than(self, other: Point, limit: u64) -> bool {
        self.distance_squared(other) > limit * limit
    }

    /// Whether the Euclidean distance from `self` to `other` is strictly
    /// greater than `limit`. A point exactly `limit` away is not farther.
    #[verifier::when_used_as_spec(spec_farther_than)]
    pub fn farther_than(self, other: Point, limit: u64) -> (farther: bool)
        ensures
            farther == self.spec_farther_than(other, limit),
    {
        let dx = axis_span(self.x, other.x);
        let dy = axis_span(self.y, other.y);
        if dx > limit {
            proof {
                lemma_square_strictly_monotonic(limit as nat, dx as nat);
            }
            true
        } else if dy > limit {
            proof {
                lemma_square_strictly_monotonic(limit as nat, dy as nat);
            }
            true
        } else {
            proof {
                lemma_square_monotonic(dx as nat, 0xffff_ffff_ffff_ffff);
                lemma_square_monotonic(dy as nat, limit as nat);
                lemma_square_monotonic(limit as nat, 0xffff_ffff_ffff_ffff);
            }
            let dx2: u128 = (dx as u128) * (dx as u128);
            let dy2: u128 = (dy as u128) * (dy as u128);
            let limit2: u128 = (limit as u128) * (limit as u128);
            dx2 > limit2 - dy2
        }
    }
}

impl KeyModifiers {
    /// No modifier key held.
    pub open spec fn none() -> KeyModifiers {
        KeyModifiers { shift: false, alt: false, ctrl: false, meta: false }
    }
}

impl Default for KeyModifiers {
    fn default() -> (mods: KeyModifiers)
        ensures
            mods == KeyModifiers::none(),
    {
        KeyModifiers { shift: false, alt: false, ctrl: false, meta: false }
    }
}

impl MouseButton {
    /// Whether this is the left button.
    pub open spec fn spec_is_left(self) -> bool {
        self == MouseButton::Left
    }

    /// Whether this is the left button.
    #[verifier::when_used_as_spec(spec_is_left)]
    pub fn is_left(self) -> (left: bool)
        ensures
            left == self.spec_is_left(),
    {
        self == MouseButton::Left
    }

    /// Whether this is the right button.
    pub open spec fn spec_is_right(self) -> bool {
        self == MouseButton::Right
    }

    /// Whether this is the right button.
    #[verifier::when_used_as_spec(spec_is_right)]
    pub fn is_right(self) -> (right: bool)
        ensures
            right == self.spec_is_right(),
    {
        self == MouseButton::Right
    }

    /// The group this button's gestures are reported under: the left
    /// button, the right button, or any other.
    pub open spec fn spec_kind(self) -> ButtonKind {
        match self {
            MouseButton::Left => ButtonKind::Left,
            MouseButton::Right => ButtonKind::Right,
            _ => ButtonKind::Other,
        }
    }

    /// The group this button's gestures are reported under. Every button
    /// falls in exactly one.
    #[verifier::when_used_as_spec(spec_kind)]
    pub fn kind(self) -> (kind: ButtonKind)
        ensures
            kind == self.spec_kind(),
            (kind == ButtonKind::Left) == self.is_left(),
            (kind == ButtonKind::Right) == self.is_right(),
            (kind == ButtonKind::Other) == (!self.is_left() && !self.is_right()),
    {
        if self.is_left() {
            ButtonKind::Left
        } else if self.is_right() {
            ButtonKind::Right
        } else {
            ButtonKind::Other
        }
    }
}

impl MouseEvent {
    /// The event a fresh tracker starts from: at the origin, no modifier, no
    /// click, left button.
    pub open spec fn spec_initial() -> MouseEvent {
        MouseEvent {
            pos: Point::spec_origin(),
            mods: KeyModifiers::none(),
            count: 0,
            button: MouseButton::Left,
        }
    }

    /// The event a fresh tracker starts from.
    #[verifier::when_used_as_spec(spec_initial)]
    pub fn initial() -> (event: MouseEvent)
        ensures
            event == MouseEvent::spec_initial(),
    {
        MouseEvent {
            pos: Point::origin(),
            mods: KeyModifiers::default(),
            count: 0,
            button: MouseButton::Left,
        }
    }
}

} // verus!

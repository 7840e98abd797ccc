//! Recognition of mouse gestures from raw pointer input.
//!
//! A [`mouse::Mouse`] takes the moves, presses and releases that an input
//! layer reports, keeps track of the gesture in progress, and tells a
//! [`mouse::MouseDelegate`] about clicks and drags, button by button.
//!
//! - [`event`] holds the events as plain data.
//! - [`state`] holds the tracker's state and its transitions: what each
//!   input leads to, as a function of the state and the event alone.
//! - [`gesture`] names what a transition reports and the calls of the
//!   delegate's methods, with their events, that it is reported through.
//! - [`mouse`] holds the tracker itself and the delegate's interface.
//! - [`trace`] follows whole sequences of inputs and proves what holds of
//!   every click, drag and cancellation.

pub mod event;
pub mod gesture;
pub mod mouse;
pub mod state;
pub mod trace;

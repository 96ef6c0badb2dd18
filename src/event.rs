//! The events widgets receive, and how window-system reports become them.

use vstd::prelude::*;

pub use glium::glutin::{ElementState, MouseButton, MouseScrollDelta, Touch, VirtualKeyCode};
pub use std::path::PathBuf;

verus! {

// Input payloads are carried through the toolkit untouched: no decision here
// reads inside them, so they stay opaque.

/// glutin's ElementState (pressed or released), carried in key and button
/// events.
#[verifier::external_type_specification]
#[verifier::external_body]
pub struct ExElementState(glium::glutin::ElementState);

/// glutin's MouseButton, carried in button events.
#[verifier::external_type_specification]
#[verifier::external_body]
pub struct ExMouseButton(glium::glutin::MouseButton);

/// glutin's MouseScrollDelta, carried in wheel events.
#[verifier::external_type_specification]
#[verifier::external_body]
pub struct ExMouseScrollDelta(glium::glutin::MouseScrollDelta);

/// glutin's Touch, carried in touch events.
#[verifier::external_type_specification]
#[verifier::external_body]
pub struct ExTouch(glium::glutin::Touch);

/// glutin's VirtualKeyCode, carried in key events.
#[verifier::external_type_specification]
#[verifier::external_body]
pub struct ExVirtualKeyCode(glium::glutin::VirtualKeyCode);

/// std's PathBuf, carried in file-drop events.
#[verifier::external_type_specification]
#[verifier::external_body]
pub struct ExPathBuf(std::path::PathBuf);

/// A notification delivered to widgets.
///
/// Push variants come from outside the tree (input devices, the window
/// system); pull variants are raised by the toolkit itself when it finds a
/// changed property, and always carry the current value.
#[derive(Debug, PartialEq)]
pub enum Event {
    // push events (external)
    MouseMoved(i32, i32),
    MouseWheel(MouseScrollDelta),
    MouseInput(ElementState, MouseButton),
    ReceivedCharacter(char),
    KeyboardInput(ElementState, u32, Option<VirtualKeyCode>),
    Touch(Touch),
    DroppedFile(PathBuf),
    WindowFocused(bool),
    WindowClosing,
    Suspended(bool),
    // pull events (from property changes)
    LabelChanged(String),
    Resized(u32, u32),
    Moved(i32, i32),
}

impl Event {
    /// Raised by something outside the tree.
    pub open spec fn is_push(self) -> bool {
        !self.is_pull()
    }

    /// Raised by the toolkit from a changed property.
    pub open spec fn is_pull(self) -> bool {
        match self {
            Event::LabelChanged(_) | Event::Resized(_, _) | Event::Moved(_, _) => true,
            _ => false,
        }
    }
}

/// An input event as the window system reports it.
#[derive(Debug, PartialEq)]
pub enum ExtEvent {
    Resized(u32, u32),
    Moved(i32, i32),
    Closed,
    DroppedFile(PathBuf),
    ReceivedCharacter(char),
    Focused(bool),
    KeyboardInput(ElementState, u32, Option<VirtualKeyCode>),
    MouseMoved(i32, i32),
    MouseWheel(MouseScrollDelta),
    MouseInput(ElementState, MouseButton),
    Touch(Touch),
    Awakened,
    Refresh,
    Suspended(bool),
    /// A report the toolkit has no counterpart for.
    Unknown,
}

/// The event that `from` becomes when routed through the tree, if any.
/// Geometry, focus, lifecycle and repaint reports are not routed.
pub open spec fn routed(from: ExtEvent) -> Option<Event> {
    match from {
        ExtEvent::DroppedFile(p) => Some(Event::DroppedFile(p)),
        ExtEvent::ReceivedCharacter(c) => Some(Event::ReceivedCharacter(c)),
        ExtEvent::KeyboardInput(st, sc, kc) => Some(Event::KeyboardInput(st, sc, kc)),
        ExtEvent::MouseMoved(x, y) => Some(Event::MouseMoved(x, y)),
        ExtEvent::MouseWheel(d) => Some(Event::MouseWheel(d)),
        ExtEvent::MouseInput(st, b) => Some(Event::MouseInput(st, b)),
        ExtEvent::Touch(t) => Some(Event::Touch(t)),
        _ => None,
    }
}

/// Translates a window-system event into a push event, or drops it.
pub fn cast(from: ExtEvent) -> (r: Option<Event>)
    ensures
        r == routed(from),
        r matches Some(ev) ==> ev.is_push(),
{
    match from {
        ExtEvent::DroppedFile(p) => Some(Event::DroppedFile(p)),
        ExtEvent::ReceivedCharacter(c) => Some(Event::ReceivedCharacter(c)),
        ExtEvent::KeyboardInput(st, sc, kc) => Some(Event::KeyboardInput(st, sc, kc)),
        ExtEvent::MouseMoved(x, y) => Some(Event::MouseMoved(x, y)),
        ExtEvent::MouseWheel(d) => Some(Event::MouseWheel(d)),
        ExtEvent::MouseInput(st, b) => Some(Event::MouseInput(st, b)),
        ExtEvent::Touch(t) => Some(Event::Touch(t)),
        // not propagated: Resized, Moved, Closed, Focused, Awakened, Refresh, Suspended
        _ => None,
    }
}

} // verus!

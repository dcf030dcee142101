//! Dispatch of remote input events to the input controller, and the input
//! worker's start/stop protocol.
use vstd::prelude::*;

use crate::client_types::{KeyboardEvent, ThreadControlSignal, WebSocketMessage};
use crate::input::{InputController, InputError, KeyboardController, MouseController};
use crate::text::str_eq;

verus! {

/// What became of a pointer event.
#[derive(Debug)]
pub enum MouseOutcome {
    /// The event was performed; the platform's result.
    Performed(Result<(), InputError>),
    /// A scroll event without a scroll amount; nothing was done.
    MissingScrollDelta,
    /// An event type other than "press", "release", "move" or "scroll";
    /// nothing was done.
    UnknownEventType,
}

/// The kind of pointer action an event type names.
pub enum MouseAction {
    Press,
    Release,
    Move,
    Scroll,
    Unknown,
}

pub open spec fn mouse_action_of(event_type: Seq<char>) -> MouseAction {
    if event_type == "press"@ {
        MouseAction::Press
    } else if event_type == "release"@ {
        MouseAction::Release
    } else if event_type == "move"@ {
        MouseAction::Move
    } else if event_type == "scroll"@ {
        MouseAction::Scroll
    } else {
        MouseAction::Unknown
    }
}

/// Performs a pointer event at screen position (`x`, `y`) (the browser's
/// coordinates, truncated to integers): "press" and "release" act on the named
/// button, "move" moves the pointer, and "scroll" moves it and scrolls by
/// `scroll_delta`.
pub fn handle_mouse_event<C: KeyboardController + MouseController>(
    event_type: &str,
    button: &str,
    x: i32,
    y: i32,
    scroll_delta: Option<i32>,
    input_controller: &InputController<C>,
) -> (r: MouseOutcome)
    ensures
        match mouse_action_of(event_type@) {
            MouseAction::Scroll => (scroll_delta is None <==> r is MissingScrollDelta) && (scroll_delta is Some
                <==> r is Performed),
            MouseAction::Unknown => r is UnknownEventType,
            _ => r is Performed,
        },
        r is MissingScrollDelta ==> mouse_action_of(event_type@) is Scroll,
        r matches MouseOutcome::Performed(res) ==> match mouse_action_of(event_type@) {
            MouseAction::Press => input_controller.button_pressed(x, y, button@, res),
            MouseAction::Release => input_controller.button_released(x, y, button@, res),
            MouseAction::Move => input_controller.moved_to(x, y, res),
            MouseAction::Scroll => scroll_delta matches Some(d) && input_controller.scrolled(x, y, d, res),
            MouseAction::Unknown => false,
        },
{
    if str_eq(event_type, "press") {
        MouseOutcome::Performed(input_controller.press_mouse_button(x, y, button))
    } else if str_eq(event_type, "release") {
        MouseOutcome::Performed(input_controller.release_mouse_button(x, y, button))
    } else if str_eq(event_type, "move") {
        MouseOutcome::Performed(input_controller.move_mouse(x, y))
    } else if str_eq(event_type, "scroll") {
        match scroll_delta {
            Some(delta) => MouseOutcome::Performed(input_controller.scroll_mouse(x, y, delta)),
            None => MouseOutcome::MissingScrollDelta,
        }
    } else {
        MouseOutcome::UnknownEventType
    }
}

/// Performs a key event: "press" or "release" of the named key. Returns `None`
/// for any other event type.
pub fn handle_keyboard_event<C: KeyboardController + MouseController>(
    keyboard_event: &KeyboardEvent,
    input_controller: &InputController<C>,
) -> (r: Option<Result<(), InputError>>)
    ensures
        r is Some <==> (keyboard_event.event_type@ == "press"@ || keyboard_event.event_type@
            == "release"@),
        r matches Some(res) ==> if keyboard_event.event_type@ == "press"@ {
            input_controller.key_pressed(keyboard_event.key@, res)
        } else {
            input_controller.key_released(keyboard_event.key@, res)
        },
{
    if str_eq(keyboard_event.event_type.as_str(), "press") {
        Some(input_controller.press_key(keyboard_event.key.as_str()))
    } else if str_eq(keyboard_event.event_type.as_str(), "release") {
        Some(input_controller.release_key(keyboard_event.key.as_str()))
    } else {
        None
    }
}

/// The input worker: it handles input events only after it has been started,
/// and ends on a stop signal.
#[derive(Debug)]
pub struct InputWorker {
    pub active: bool,
}

impl InputWorker {
    /// A worker that has not been started.
    pub fn new() -> (r: Self)
        ensures
            !r.active,
    {
        InputWorker { active: false }
    }

    /// Applies a control signal; returns whether the worker keeps running.
    pub fn on_control(&mut self, signal: ThreadControlSignal) -> (keep_running: bool)
        ensures
            keep_running == (signal == ThreadControlSignal::Start),
            signal == ThreadControlSignal::Start ==> final(self).active,
            signal == ThreadControlSignal::Stop ==> final(self).active == old(self).active,
    {
        match signal {
            ThreadControlSignal::Start => {
                self.active = true;
                true
            },
            ThreadControlSignal::Stop => false,
        }
    }

    /// Whether an incoming message is to be performed: the worker has been
    /// started and the message is a pointer or key event.
    pub fn accepts(&self, msg: &WebSocketMessage) -> (r: bool)
        ensures
            r == (self.active && (msg is MouseEvent || msg is KeyboardEvent)),
    {
        if !self.active {
            return false;
        }
        match msg {
            WebSocketMessage::MouseEvent(_) | WebSocketMessage::KeyboardEvent(_) => true,
            _ => false,
        }
    }
}

} // verus!

//! Window events and what the demo does with each.
use vstd::prelude::*;

use crate::controller::{key_direction, Controller, Direction, KeyCode};

verus! {

/// A logical key with a name, as far as the demo cares about it.
#[derive(Clone, Copy, Debug, PartialEq, Eq, Structural)]
pub enum NamedKey {
    Escape,
    Space,
    /// Any other logical key.
    Other,
}

/// The window events the demo reacts to.
#[derive(Clone, Copy, Debug, PartialEq, Eq, Structural)]
pub enum WindowEvent {
    /// The user asked to close the window.
    CloseRequested,
    /// The window wants a new frame.
    RedrawRequested,
    /// A key went down (`pressed`) or up.
    KeyboardInput { physical_key: KeyCode, logical_key: NamedKey, pressed: bool },
    /// Anything else.
    Other,
}

/// What the application does in answer to an event.
#[derive(Clone, Copy, Debug, PartialEq, Eq, Structural)]
pub enum Action {
    /// Stop the event loop.
    Exit,
    /// Spawn one more cube.
    AddCube,
    /// Advance the scene one frame and draw it.
    Redraw,
    /// Nothing beyond what the controller recorded.
    Nothing,
}

/// Whether the controller takes `e`: a movement key went up or down.
pub open spec fn moves(e: WindowEvent) -> bool {
    e matches WindowEvent::KeyboardInput { physical_key, .. } && key_direction(physical_key).is_some()
}

/// The controller after `e`.
pub open spec fn controller_after(c: Controller, e: WindowEvent) -> Controller {
    match e {
        WindowEvent::KeyboardInput { physical_key, pressed, .. } => c.after_key(physical_key, pressed),
        _ => c,
    }
}

/// The answer to `e`: closing the window or pressing Escape exits, pressing
/// Space adds a cube, a redraw request draws; an event the controller takes
/// asks for nothing more.
pub open spec fn action_of(e: WindowEvent) -> Action {
    if moves(e) {
        Action::Nothing
    } else {
        match e {
            WindowEvent::CloseRequested => Action::Exit,
            WindowEvent::RedrawRequested => Action::Redraw,
            WindowEvent::KeyboardInput { logical_key, pressed, .. } => {
                if pressed && logical_key == NamedKey::Escape {
                    Action::Exit
                } else if pressed && logical_key == NamedKey::Space {
                    Action::AddCube
                } else {
                    Action::Nothing
                }
            },
            WindowEvent::Other => Action::Nothing,
        }
    }
}

impl Controller {
    /// Hands `event` to the controller. Returns whether it was a movement
    /// key; only then does the state change.
    pub fn process_events(&mut self, event: &WindowEvent) -> (taken: bool)
        ensures
            taken == moves(*event),
            *final(self) == controller_after(*old(self), *event),
    {
        match event {
            WindowEvent::KeyboardInput { physical_key, pressed, .. } => self.process_key(
                *physical_key,
                *pressed,
            ),
            _ => false,
        }
    }
}

/// Decides what to do with `event`: the controller sees it first, and what
/// it does not take may exit, add a cube or draw a frame.
pub fn window_event(controller: &mut Controller, event: &WindowEvent) -> (a: Action)
    ensures
        a == action_of(*event),
        *final(controller) == controller_after(*old(controller), *event),
{
    if controller.process_events(event) {
        return Action::Nothing;
    }
    match event {
        WindowEvent::CloseRequested => Action::Exit,
        WindowEvent::RedrawRequested => Action::Redraw,
        WindowEvent::KeyboardInput { logical_key, pressed, .. } => {
            if *pressed && matches!(logical_key, NamedKey::Escape) {
                Action::Exit
            } else if *pressed && matches!(logical_key, NamedKey::Space) {
                Action::AddCube
            } else {
                Action::Nothing
            }
        },
        WindowEvent::Other => Action::Nothing,
    }
}

/// Key state follows the last event: handling the same event twice leaves
/// the controller as handling it once, and asks for the same action.
pub proof fn lemma_event_idempotent(c: Controller, e: WindowEvent)
    ensures
        controller_after(controller_after(c, e), e) == controller_after(c, e),
{
}

/// Releasing a movement key after pressing it leaves that direction
/// released, whatever it was before, and the other directions as they were.
pub proof fn lemma_press_then_release(c: Controller, key: KeyCode, d: Direction)
    requires
        key_direction(key) == Some(d),
    ensures
        !c.after_key(key, true).after_key(key, false).pressed(d),
        c.after_key(key, true).after_key(key, false) == c.with_pressed(d, false),
{
}

} // verus!

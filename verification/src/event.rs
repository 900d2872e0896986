//! Input events: what the window system reports, and what of it reaches the
//! application.
use vstd::prelude::*;
use std::time::Instant;
use vello::kurbo::Point;
use winit::event::{ElementState, ModifiersState, MouseButton, VirtualKeyCode};
use crate::screen::Screen;

verus! {

/// A window event as the window system reported it, reduced to what this
/// crate reads of it.
///
/// The embedding program builds one from each raw event. It converts the
/// floating-point payloads on the way: a cursor position to logical
/// coordinates, a wheel movement to lines.
#[derive(Debug, Clone, Copy, PartialEq)]
pub enum WindowInput {
    /// The user asked for the window to be closed.
    CloseRequested,
    /// The cursor moved to `pos`, in logical coordinates.
    CursorMoved { pos: Point },
    /// A mouse button went down or up.
    MouseInput { state: ElementState, button: MouseButton },
    /// The wheel turned by `delta` lines, given as the bit pattern of a
    /// binary64 number.
    MouseWheel { delta: u64 },
    /// A key went down or up. `keycode` is absent where the window system
    /// could not name the key.
    KeyboardInput { state: ElementState, keycode: Option<VirtualKeyCode> },
    /// The set of held modifier keys changed.
    ModifiersChanged(ModifiersState),
    /// The window now has this size in physical pixels.
    Resized { width: u32, height: u32 },
    /// The scale factor changed, and with it the physical size.
    ScaleFactorChanged { scale_factor: u64, width: u32, height: u32 },
    /// Any other window event.
    Other,
}

/// Events that you can use to update your internal state.
#[non_exhaustive]
#[derive(Debug, Clone, Copy, PartialEq)]
pub enum Event {
    /// The 'x' at the top of the screen was pressed, or a request was made
    /// to close the window in some other way.
    CloseRequested,
    /// The cursor moved to `pos`, in logical coordinates.
    CursorMoved { pos: Point },
    /// A mouse button went down or up.
    MouseInput { state: ElementState, button: MouseButton },
    /// The wheel turned by `delta` lines, given as the bit pattern of a
    /// binary64 number.
    MouseWheel { delta: u64 },
    /// A key that the window system could name went down or up.
    KeyboardInput { state: ElementState, keycode: VirtualKeyCode },
    /// The window was resized or the scale factor changed.
    Resized { screen: Screen },
    /// The set of held modifier keys changed.
    ModifiersChanged(ModifiersState),
}

impl Event {
    /// The event that stands for `evt` on a window whose screen is `screen`,
    /// if there is one.
    ///
    /// Both a new size and a new scale factor become `Resized` with the
    /// screen as it is after the change. A key event without a key code, and
    /// every event this crate has no name for, becomes nothing.
    pub open spec fn normalized(evt: WindowInput, screen: Screen) -> Option<Event> {
        match evt {
            WindowInput::CloseRequested => Some(Event::CloseRequested),
            WindowInput::CursorMoved { pos } => Some(Event::CursorMoved { pos }),
            WindowInput::MouseInput { state, button } => Some(Event::MouseInput { state, button }),
            WindowInput::MouseWheel { delta } => Some(Event::MouseWheel { delta }),
            WindowInput::KeyboardInput { state, keycode: Some(keycode) } => Some(
                Event::KeyboardInput { state, keycode },
            ),
            WindowInput::KeyboardInput { state, keycode: None } => None,
            WindowInput::ModifiersChanged(state) => Some(Event::ModifiersChanged(state)),
            WindowInput::Resized { .. } | WindowInput::ScaleFactorChanged { .. } => Some(
                Event::Resized { screen },
            ),
            WindowInput::Other => None,
        }
    }

    /// The event that the application is handed for a window event, or
    /// nothing where the application is not told.
    pub fn from_winit_window(evt: WindowInput, screen: Screen) -> (r: Option<Event>)
        ensures
            r == Event::normalized(evt, screen),
    {
        match evt {
            WindowInput::CloseRequested => Some(Event::CloseRequested),
            WindowInput::CursorMoved { pos } => Some(Event::CursorMoved { pos }),
            WindowInput::MouseInput { state, button } => Some(Event::MouseInput { state, button }),
            WindowInput::MouseWheel { delta } => Some(Event::MouseWheel { delta }),
            WindowInput::KeyboardInput { state, keycode } => match keycode {
                Some(keycode) => Some(Event::KeyboardInput { state, keycode }),
                None => None,
            },
            WindowInput::ModifiersChanged(state) => Some(Event::ModifiersChanged(state)),
            WindowInput::Resized { .. } => Some(Event::Resized { screen }),
            WindowInput::ScaleFactorChanged { .. } => Some(Event::Resized { screen }),
            WindowInput::Other => None,
        }
    }
}

/// What the event loop does once the current iteration is over.
#[derive(Debug, Clone, Copy, PartialEq, Eq)]
pub enum ControlFlow {
    /// Begin the next iteration at once.
    Poll,
    /// Sleep until an event arrives.
    Wait,
    /// Sleep until an event arrives or the instant is reached.
    WaitUntil(Instant),
    /// Stop the loop and leave the process with this code. Once set it
    /// stays: a loop that has been told to exit handles nothing more.
    ExitWithCode(i32),
}

impl ControlFlow {
    /// Leaving with code zero.
    pub open spec fn spec_exit() -> ControlFlow {
        ControlFlow::ExitWithCode(0)
    }

    /// Whether the loop has been told to stop.
    pub open spec fn spec_is_exit(self) -> bool {
        self is ExitWithCode
    }

    /// Leaving with code zero.
    pub fn exit() -> (r: ControlFlow)
        ensures
            r == ControlFlow::spec_exit(),
    {
        ControlFlow::ExitWithCode(0)
    }

    /// Whether the loop has been told to stop.
    pub fn is_exit(&self) -> (r: bool)
        ensures
            r == self.spec_is_exit(),
    {
        match self {
            ControlFlow::ExitWithCode(_) => true,
            _ => false,
        }
    }
}

/// The control flow that the default event policy leaves behind: a request
/// to close ends the loop with code zero, and nothing else touches it.
pub open spec fn default_policy(event: Event, before: ControlFlow) -> ControlFlow {
    if event is CloseRequested {
        ControlFlow::spec_exit()
    } else {
        before
    }
}

/// The event policy of an application that has none of its own: stop the
/// loop when the window is asked to close, and ignore every other event.
pub fn default_event(event: &Event, cf: &mut ControlFlow)
    ensures
        *final(cf) == default_policy(*event, *old(cf)),
{
    if let Event::CloseRequested = event {
        *cf = ControlFlow::exit();
    }
}

} // verus!

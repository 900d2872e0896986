//! A deliberately small layer over vello and winit: one window, one GPU
//! surface, a redraw loop, and a reduced set of input events.
//!
//! Everything here is the part of that layer that decides: how raw window
//! events become [`Event`]s, when a resize is worth reporting, what the loop
//! owes the window system after each event, and what a frame is drawn with.
//! The part that performs (opening the window, talking to the GPU, blocking
//! on the event loop) belongs to the program that embeds this crate, which
//! feeds [`App::handle`] and [`App::render_frame`] and carries out the
//! [`Action`]s they return.
//!
//! Verified code holds no floating point. The two scalar quantities that the
//! window system reports as binary64 numbers, the scale factor and the wheel
//! delta, are carried as their bit patterns and never computed with.
pub mod app;
pub mod event;
pub mod foreign;
pub mod laws;
pub mod render;
pub mod screen;

pub use app::{Action, App, Frame, LoopEvent, Outcome, Phase};
pub use event::{default_event, ControlFlow, Event, WindowInput};
pub use render::{AppLogic, RenderCtx};
pub use screen::{Screen, ScreenView, UNIT_SCALE};
pub use vello::{kurbo, peniko, Scene};
pub use winit::event::{ElementState, ModifiersState, MouseButton, VirtualKeyCode};

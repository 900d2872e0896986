//! The loop: its state, and what it decides on each event.
//!
//! [`App`] owns the application and everything the loop remembers between
//! events. The embedding program owns the window, the surface and the
//! renderers, reports each event of the window system to [`App::handle`],
//! and carries out the [`Action`] that comes back. A redraw goes through
//! [`App::render_frame`], which hands the application its drawing handle.
use vstd::prelude::*;
use vello::Scene;
use crate::event::{ControlFlow, Event, WindowInput};
use crate::foreign::path_tags;
use crate::render::{render_into, AppLogic, RenderCtx};
use crate::screen::{Screen, ScreenView};

verus! {

/// Where the loop stands.
#[derive(Debug, Clone, Copy, PartialEq, Eq, Structural)]
pub enum Phase {
    /// No window has been opened yet.
    Uninitialized,
    /// A window is open and a surface is bound to it.
    Active,
    /// The surface is gone; the window is kept for the next resume.
    Suspended,
    /// The loop has been told to exit. Nothing is handled any more.
    Terminated,
}

/// What the loop holds of window and surface, told apart from whether it
/// has been asked to exit.
#[derive(Debug, Clone, Copy)]
enum Stage {
    Uninitialized,
    Active,
    Suspended,
}

/// What the embedding program reports to the loop.
#[derive(Debug, Clone, Copy, PartialEq)]
pub enum LoopEvent {
    /// The application was started or brought back.
    Resumed,
    /// The surface asked for by [`Action::CreateSurface`] exists. It lives
    /// on device number `device` of the `device_count` devices now known.
    SurfaceCreated { device: usize, device_count: usize },
    /// The surface asked for by [`Action::CreateSurface`] could not be made.
    SurfaceFailed,
    /// The application was sent to the background.
    Suspended,
    /// All pending events of this iteration have been handled.
    MainEventsCleared,
    /// The window wants to be redrawn.
    RedrawRequested,
    /// An event of a window. `own_window` says whether it is the window
    /// that the surface is bound to.
    WindowEvent { own_window: bool, input: WindowInput },
    /// Anything else.
    Other,
}

/// What the embedding program is to do after an event.
#[derive(Debug, Clone, Copy, PartialEq, Eq, Structural)]
pub enum Action {
    /// Nothing.
    Nothing,
    /// Create a surface as large as the window, and report
    /// [`LoopEvent::SurfaceCreated`] or [`LoopEvent::SurfaceFailed`]. The
    /// window is the one kept since the last suspension if `reuse_window`,
    /// a new one otherwise.
    CreateSurface { reuse_window: bool },
    /// Create the renderer of this device: it is used for the first time.
    CreateRenderer { device: usize },
    /// Release the surface, then keep the window for the next resume.
    ReleaseSurface,
    /// Ask the window for a redraw.
    RequestRedraw,
    /// Draw a frame: call [`App::render_frame`] and present what it gives.
    DrawFrame,
    /// Bring the surface to this physical size, and then ask the window
    /// for a redraw if `redraw`.
    ResizeSurface { width: u32, height: u32, redraw: bool },
}

/// The result of handling one event.
#[derive(Debug, Clone, Copy, PartialEq)]
pub struct Outcome {
    /// What is left to do for the embedding program.
    pub action: Action,
    /// The event that was handed to the application, if one was.
    pub delivered: Option<Event>,
}

/// What one frame was drawn with, and how it is to be composed.
#[derive(Debug, Clone, Copy, PartialEq, Eq)]
pub struct Frame {
    /// The screen that the application drew for.
    pub screen: Screen,
    /// The factor of the uniform scaling under which the fragment goes into
    /// the scene, as the bit pattern of a binary64 number; absent where the
    /// fragment goes in as it is.
    pub scale: Option<u64>,
}

/// What an [`App`] stands for, the application's own data apart.
pub struct AppView {
    /// Where the loop stands.
    pub phase: Phase,
    /// The screen as last reported, if any report has come.
    pub screen: Option<Screen>,
    /// What the loop does after this iteration.
    pub control_flow: ControlFlow,
    /// For each device known at the last resume, whether its renderer has
    /// been asked for.
    pub renderers: Seq<bool>,
}

impl AppView {
    /// The state of a loop that has handled nothing.
    pub open spec fn initial() -> AppView {
        AppView {
            phase: Phase::Uninitialized,
            screen: None,
            control_flow: ControlFlow::Poll,
            renderers: Seq::empty(),
        }
    }

    /// A loop is terminated exactly when it has been told to exit.
    pub open spec fn wf(self) -> bool {
        self.phase is Terminated <==> self.control_flow.spec_is_exit()
    }

    /// Whether a resume has a surface to create.
    pub open spec fn wants_surface(self) -> bool {
        self.phase is Uninitialized || self.phase is Suspended
    }

    /// This state once the application has left `cf` behind: told to exit,
    /// the loop is terminated; otherwise it stands where it stood.
    pub open spec fn settled(self, cf: ControlFlow) -> AppView {
        AppView {
            phase: if cf.spec_is_exit() {
                Phase::Terminated
            } else {
                self.phase
            },
            control_flow: cf,
            ..self
        }
    }
}

/// The renderer slots brought to `len` devices: those of the devices that
/// remain are kept, those of new devices are empty.
pub open spec fn resized_slots(slots: Seq<bool>, len: nat) -> Seq<bool> {
    Seq::new(len, |i: int| i < slots.len() && slots[i])
}

/// Whether `input` reports the physical size that `screen` already has.
/// Such a report changes nothing and is passed over in silence.
pub open spec fn suppressed(screen: Option<Screen>, input: WindowInput) -> bool {
    &&& input matches WindowInput::Resized { width, height }
    &&& screen matches Some(s)
    &&& s.spec_has_size(width, height)
}

/// The screen on record once `input` has been seen. A new size keeps the
/// scale factor on record, or takes one where there is none; a new scale
/// factor replaces the whole screen. A suppressed report leaves the record
/// as it is: it holds that size already.
pub open spec fn screen_after(screen: Option<Screen>, input: WindowInput) -> Option<Screen> {
    match input {
        WindowInput::Resized { width, height } => Some(
            match screen {
                Some(s) => s.spec_resized(width, height),
                None => Screen::spec_unscaled(width, height),
            },
        ),
        WindowInput::ScaleFactorChanged { scale_factor, width, height } => Some(
            Screen::of(ScreenView { width, height, scale: scale_factor }),
        ),
        _ => screen,
    }
}

/// What `input`, seen with `screen` on record, asks of the surface: to
/// follow a new size, and after a mere resize to be drawn again.
pub open spec fn surface_action(screen: Option<Screen>, input: WindowInput) -> Action {
    if suppressed(screen, input) {
        Action::Nothing
    } else {
        match input {
            WindowInput::Resized { width, height } => Action::ResizeSurface {
                width,
                height,
                redraw: true,
            },
            WindowInput::ScaleFactorChanged { width, height, .. } => Action::ResizeSurface {
                width,
                height,
                redraw: false,
            },
            _ => Action::Nothing,
        }
    }
}

/// The screen that `input` is seen with: the one on record once the input
/// has been taken note of. Before the first report of a size none is on
/// record; the inputs of that time do not read the screen, and a screen
/// without pixels at scale one stands in for it.
pub open spec fn seen_screen(screen: Option<Screen>, input: WindowInput) -> Screen {
    match screen_after(screen, input) {
        Some(s) => s,
        None => Screen::spec_unscaled(0, 0),
    }
}

/// The event that the application is handed for `input`, seen with `screen`
/// on record: none for a suppressed report, and otherwise what the input
/// stands for, whether or not a screen has been reported yet.
pub open spec fn emitted(screen: Option<Screen>, input: WindowInput) -> Option<Event> {
    if suppressed(screen, input) {
        None
    } else {
        Event::normalized(input, seen_screen(screen, input))
    }
}

/// The state after an event, before the application has seen what the event
/// delivers to it, with the action and the delivery themselves.
pub struct Step {
    pub next: AppView,
    pub action: Action,
    pub delivered: Option<Event>,
}

/// What the loop in state `s` makes of `e`.
pub open spec fn step(s: AppView, e: LoopEvent) -> Step {
    let idle = Step { next: s, action: Action::Nothing, delivered: None };
    if s.phase is Terminated {
        idle
    } else {
        match e {
            LoopEvent::Resumed => if s.wants_surface() {
                Step {
                    next: s,
                    action: Action::CreateSurface { reuse_window: s.phase is Suspended },
                    delivered: None,
                }
            } else {
                idle
            },
            LoopEvent::SurfaceCreated { device, device_count } => if s.wants_surface() {
                let slots = resized_slots(s.renderers, device_count as nat);
                Step {
                    next: AppView {
                        phase: Phase::Active,
                        control_flow: ControlFlow::Poll,
                        renderers: slots.update(device as int, true),
                        ..s
                    },
                    action: if slots[device as int] {
                        Action::Nothing
                    } else {
                        Action::CreateRenderer { device }
                    },
                    delivered: None,
                }
            } else {
                idle
            },
            LoopEvent::SurfaceFailed => if s.wants_surface() {
                Step {
                    next: AppView {
                        phase: Phase::Terminated,
                        control_flow: ControlFlow::ExitWithCode(1),
                        ..s
                    },
                    action: Action::Nothing,
                    delivered: None,
                }
            } else {
                idle
            },
            LoopEvent::Suspended => Step {
                next: AppView {
                    phase: if s.phase is Active {
                        Phase::Suspended
                    } else {
                        s.phase
                    },
                    control_flow: ControlFlow::Wait,
                    ..s
                },
                action: if s.phase is Active {
                    Action::ReleaseSurface
                } else {
                    Action::Nothing
                },
                delivered: None,
            },
            LoopEvent::MainEventsCleared => if s.phase is Active {
                Step { next: s, action: Action::RequestRedraw, delivered: None }
            } else {
                idle
            },
            LoopEvent::RedrawRequested => if s.phase is Active {
                Step { next: s, action: Action::DrawFrame, delivered: None }
            } else {
                idle
            },
            LoopEvent::WindowEvent { own_window, input } => if s.phase is Active && own_window {
                Step {
                    next: AppView { screen: screen_after(s.screen, input), ..s },
                    action: surface_action(s.screen, input),
                    delivered: emitted(s.screen, input),
                }
            } else {
                idle
            },
            LoopEvent::Other => idle,
        }
    }
}

/// The frame that a redraw in state `s` draws on a surface of the given
/// physical size: none unless the loop is active. The application draws for
/// a screen of the surface's size at the scale factor on record, or at scale
/// one where none is; the fragment is scaled by the factor on record, or not
/// at all.
pub open spec fn frame_of(s: AppView, width: u32, height: u32) -> Option<Frame> {
    if s.phase is Active {
        Some(
            match s.screen {
                Some(recorded) => Frame {
                    screen: recorded.spec_resized(width, height),
                    scale: Some(recorded@.scale),
                },
                None => Frame { screen: Screen::spec_unscaled(width, height), scale: None },
            },
        )
    } else {
        None
    }
}

/// The application together with what the loop remembers between events.
pub struct App<T> {
    logic: T,
    screen: Option<Screen>,
    stage: Stage,
    control_flow: ControlFlow,
    renderers: Vec<bool>,
}

impl<T> View for App<T> {
    type V = AppView;

    closed spec fn view(&self) -> AppView {
        AppView {
            phase: if self.control_flow.spec_is_exit() {
                Phase::Terminated
            } else {
                match self.stage {
                    Stage::Uninitialized => Phase::Uninitialized,
                    Stage::Active => Phase::Active,
                    Stage::Suspended => Phase::Suspended,
                }
            },
            screen: self.screen,
            control_flow: self.control_flow,
            renderers: self.renderers@,
        }
    }
}

impl<T: 'static + Default> App<T> {
    /// A loop around the default value of the application's data.
    pub fn new() -> (r: Self)
        ensures
            r@ == AppView::initial(),
            T::default.ensures((), r.spec_data()),
    {
        Self::new_with_data(T::default())
    }
}

impl<T> App<T> {
    /// The application's own data.
    pub closed spec fn spec_data(&self) -> T {
        self.logic
    }

    /// The state of every loop is well formed.
    pub proof fn lemma_wf(&self)
        ensures
            self@.wf(),
    {
    }

    /// A loop around `user_data` that has handled nothing yet.
    pub fn new_with_data(user_data: T) -> (r: Self)
        ensures
            r@ == AppView::initial(),
            r.spec_data() == user_data,
    {
        Self {
            logic: user_data,
            screen: None,
            stage: Stage::Uninitialized,
            control_flow: ControlFlow::Poll,
            renderers: Vec::new(),
        }
    }

    /// The application's own data.
    pub fn data(&self) -> (r: &T)
        ensures
            *r == self.spec_data(),
    {
        &self.logic
    }

    /// Where the loop stands.
    pub fn phase(&self) -> (r: Phase)
        ensures
            r == self@.phase,
    {
        if self.control_flow.is_exit() {
            Phase::Terminated
        } else {
            match self.stage {
                Stage::Uninitialized => Phase::Uninitialized,
                Stage::Active => Phase::Active,
                Stage::Suspended => Phase::Suspended,
            }
        }
    }

    /// The screen as last reported, if any report has come.
    pub fn screen(&self) -> (r: Option<Screen>)
        ensures
            r == self@.screen,
    {
        self.screen
    }

    /// What the loop does once this iteration is over.
    pub fn control_flow(&self) -> (r: ControlFlow)
        ensures
            r == self@.control_flow,
    {
        self.control_flow
    }

    /// Whether the renderer of `device` has been asked for.
    pub fn has_renderer(&self, device: usize) -> (r: bool)
        ensures
            r == (device < self@.renderers.len() && self@.renderers[device as int]),
    {
        device < self.renderers.len() && self.renderers[device]
    }
}

/// Brings `slots` to `len` entries: cuts what is beyond, fills up with empty
/// slots.
fn resize_slots(slots: &mut Vec<bool>, len: usize)
    ensures
        final(slots)@ == resized_slots(old(slots)@, len as nat),
{
    slots.resize(len, false);
    assert(slots@ =~= resized_slots(old(slots)@, len as nat)) by {
        if len > old(slots)@.len() {
            assert forall|i: int| 0 <= i < len implies slots@[i] == (i < old(slots)@.len()
                && old(slots)@[i]) by {
                if i < old(slots)@.len() {
                    assert(slots@.subrange(0, old(slots)@.len() as int)[i] == slots@[i]);
                }
            }
        }
    }
}

impl<T: AppLogic> App<T> {
    /// Handles one event of the loop: updates what the loop remembers,
    /// hands the application the event that stands for a window event where
    /// there is one, and says what is left to do.
    ///
    /// A surface that the loop has asked for is reported on a device that
    /// is counted among the known ones.
    ///
    /// State, action and delivery are those of [`step`]. Where an event was
    /// delivered, the application's data and the control flow are what one
    /// call of its `event` with that event has made of them, and the loop is
    /// terminated if the control flow is an exit.
    pub fn handle(&mut self, event: LoopEvent) -> (r: Outcome)
        requires
            event matches LoopEvent::SurfaceCreated { device, device_count } ==> device
                < device_count || !old(self)@.wants_surface(),
        ensures
            r.action == step(old(self)@, event).action,
            r.delivered == step(old(self)@, event).delivered,
            r.delivered is None ==> final(self)@ == step(old(self)@, event).next,
            r.delivered is None ==> final(self).spec_data() == old(self).spec_data(),
            r.delivered is Some ==> final(self)@ == step(old(self)@, event).next.settled(
                final(self)@.control_flow,
            ),
            r.delivered matches Some(delivered) ==> exists|logic: &mut T, cf: &mut ControlFlow|
                *logic == old(self).spec_data() && *final(logic) == final(self).spec_data()
                    && *cf == step(old(self)@, event).next.control_flow
                    && *final(cf) == final(self)@.control_flow
                    && #[trigger] call_ensures(T::event, (logic, delivered, cf), ()),
    {
        let idle = Outcome { action: Action::Nothing, delivered: None };
        if self.control_flow.is_exit() {
            return idle;
        }
        match event {
            LoopEvent::Resumed => match self.stage {
                Stage::Uninitialized => Outcome {
                    action: Action::CreateSurface { reuse_window: false },
                    delivered: None,
                },
                Stage::Suspended => Outcome {
                    action: Action::CreateSurface { reuse_window: true },
                    delivered: None,
                },
                Stage::Active => idle,
            },
            LoopEvent::SurfaceCreated { device, device_count } => match self.stage {
                Stage::Active => idle,
                _ => {
                    resize_slots(&mut self.renderers, device_count);
                    let present = self.renderers[device];
                    self.renderers.set(device, true);
                    self.stage = Stage::Active;
                    self.control_flow = ControlFlow::Poll;
                    Outcome {
                        action: if present {
                            Action::Nothing
                        } else {
                            Action::CreateRenderer { device }
                        },
                        delivered: None,
                    }
                },
            },
            LoopEvent::SurfaceFailed => match self.stage {
                Stage::Active => idle,
                _ => {
                    self.control_flow = ControlFlow::ExitWithCode(1);
                    idle
                },
            },
            LoopEvent::Suspended => {
                self.control_flow = ControlFlow::Wait;
                match self.stage {
                    Stage::Active => {
                        self.stage = Stage::Suspended;
                        Outcome { action: Action::ReleaseSurface, delivered: None }
                    },
                    _ => idle,
                }
            },
            LoopEvent::MainEventsCleared => match self.stage {
                Stage::Active => Outcome { action: Action::RequestRedraw, delivered: None },
                _ => idle,
            },
            LoopEvent::RedrawRequested => match self.stage {
                Stage::Active => Outcome { action: Action::DrawFrame, delivered: None },
                _ => idle,
            },
            LoopEvent::WindowEvent { own_window, input } => match self.stage {
                Stage::Active => if own_window {
                    self.window_event(input)
                } else {
                    idle
                },
                _ => idle,
            },
            LoopEvent::Other => idle,
        }
    }

    /// Handles an event of the loop's own window while the loop is active.
    fn window_event(&mut self, input: WindowInput) -> (r: Outcome)
        requires
            old(self)@.phase is Active,
        ensures
            r.action == surface_action(old(self)@.screen, input),
            r.delivered == emitted(old(self)@.screen, input),
            final(self)@ == (AppView {
                screen: screen_after(old(self)@.screen, input),
                ..old(self)@
            }).settled(final(self)@.control_flow),
            r.delivered is None ==> final(self)@.control_flow == old(self)@.control_flow,
            r.delivered is None ==> final(self).spec_data() == old(self).spec_data(),
            r.delivered matches Some(delivered) ==> exists|logic: &mut T, cf: &mut ControlFlow|
                *logic == old(self).spec_data() && *final(logic) == final(self).spec_data() && *cf
                    == old(self)@.control_flow && *final(cf) == final(self)@.control_flow
                    && #[trigger] call_ensures(T::event, (logic, delivered, cf), ()),
    {
        let mut action = Action::Nothing;
        match input {
            WindowInput::Resized { width, height } => {
                match self.screen {
                    Some(s) => {
                        if s.has_size(width, height) {
                            proof {
                                Screen::lemma_view(s@, s);
                            }
                            return Outcome { action: Action::Nothing, delivered: None };
                        }
                        self.screen = Some(s.resized(width, height));
                    },
                    None => {
                        self.screen = Some(Screen::unscaled(width, height));
                    },
                }
                action = Action::ResizeSurface { width, height, redraw: true };
            },
            WindowInput::ScaleFactorChanged { scale_factor, width, height } => {
                self.screen = Some(Screen::new(width, height, scale_factor));
                action = Action::ResizeSurface { width, height, redraw: false };
            },
            _ => {},
        }
        let seen = match self.screen {
            Some(screen) => screen,
            None => Screen::unscaled(0, 0),
        };
        let delivered = Event::from_winit_window(input, seen);
        if let Some(evt) = delivered {
            self.logic.event(evt, &mut self.control_flow);
        }
        Outcome { action, delivered }
    }

    /// Draws one frame into `fragment`, for a surface of the given physical
    /// size, and says how the fragment is to be composed.
    ///
    /// Unless the loop is active nothing happens and the result is `None`.
    /// Otherwise the fragment is emptied, and the application's data and the
    /// fragment are what one call of its `render` has made of them, with a
    /// handle on the empty fragment and the screen of [`frame_of`]. What
    /// the loop remembers stays as it is.
    pub fn render_frame(&mut self, fragment: &mut Scene, width: u32, height: u32) -> (r: Option<
        Frame,
    >)
        ensures
            r == frame_of(old(self)@, width, height),
            final(self)@ == old(self)@,
            r is None ==> final(self).spec_data() == old(self).spec_data(),
            r is None ==> *final(fragment) == *old(fragment),
            r matches Some(frame) ==> exists|logic: &mut T, cx: &mut RenderCtx|
                *logic == old(self).spec_data() && *final(logic) == final(self).spec_data()
                    && cx.spec_screen() == frame.screen && path_tags(cx.spec_scene())
                    == Seq::<u8>::empty() && final(cx).spec_scene() == *final(fragment)
                    && #[trigger] call_ensures(T::render, (logic, cx), ()),
    {
        if self.control_flow.is_exit() {
            return None;
        }
        match self.stage {
            Stage::Active => {},
            _ => {
                return None;
            },
        }
        fragment.reset();
        let frame = match self.screen {
            Some(recorded) => Frame {
                screen: recorded.resized(width, height),
                scale: Some(recorded.scale()),
            },
            None => Frame { screen: Screen::unscaled(width, height), scale: None },
        };
        render_into(&mut self.logic, fragment, frame.screen);
        Some(frame)
    }
}

} // verus!

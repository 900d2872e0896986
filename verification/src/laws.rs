//! What holds of the loop in every state and on every input.
use vstd::prelude::*;
use winit::event::{ElementState, VirtualKeyCode};
use crate::app::{emitted, frame_of, screen_after, step, Action, AppView, LoopEvent, Step};
use crate::event::{default_policy, ControlFlow, Event, WindowInput};
use crate::render::AppLogic;
use crate::screen::{Screen, ScreenView, UNIT_SCALE};

verus! {

/// The events that the application is handed for a run of window events,
/// the first of them seen with `screen` on record.
pub open spec fn emitted_all(screen: Option<Screen>, inputs: Seq<WindowInput>) -> Seq<Event>
    decreases inputs.len(),
{
    if inputs.len() == 0 {
        Seq::empty()
    } else {
        let rest = emitted_all(screen_after(screen, inputs[0]), inputs.drop_first());
        match emitted(screen, inputs[0]) {
            Some(event) => seq![event] + rest,
            None => rest,
        }
    }
}

/// A report of the physical size that is on record already changes nothing:
/// whatever the state of the loop and whichever window it is said of, the
/// loop stays as it is, asks for nothing, and the application is told
/// nothing.
pub proof fn lemma_same_size_is_silent(
    s: AppView,
    screen: Screen,
    own_window: bool,
    width: u32,
    height: u32,
)
    requires
        s.screen == Some(screen),
        screen.spec_has_size(width, height),
    ensures
        step(s, LoopEvent::WindowEvent { own_window, input: WindowInput::Resized { width, height } })
            == (Step { next: s, action: Action::Nothing, delivered: None }),
{
    Screen::lemma_view(screen@, screen);
}

/// Reporting a size twice is reporting it once: whatever the first report
/// did and whatever control flow the application left behind on hearing of
/// it, the second report changes nothing and reaches nobody.
pub proof fn lemma_resize_is_idempotent(s: AppView, cf: ControlFlow, width: u32, height: u32)
    requires
        s.phase is Active,
    ensures
        ({
            let report = LoopEvent::WindowEvent {
                own_window: true,
                input: WindowInput::Resized { width, height },
            };
            let once = step(s, report).next.settled(cf);
            step(once, report) == (Step { next: once, action: Action::Nothing, delivered: None })
        }),
{
    let input = WindowInput::Resized { width, height };
    let recorded = screen_after(s.screen, input)->0;
    let scale = match s.screen {
        Some(before) => before@.scale,
        None => UNIT_SCALE,
    };
    Screen::lemma_view(ScreenView { width, height, scale }, recorded);
    let once = step(s, LoopEvent::WindowEvent { own_window: true, input }).next.settled(cf);
    lemma_same_size_is_silent(once, recorded, true, width, height);
}

/// Under the default event policy a request to close ends the loop: the
/// policy answers it with an exit, and a loop that has been answered with
/// an exit is terminated, wherever it stood before.
pub proof fn lemma_close_request_terminates(s: AppView, cf: ControlFlow)
    ensures
        default_policy(Event::CloseRequested, cf) == ControlFlow::ExitWithCode(0),
        s.settled(default_policy(Event::CloseRequested, cf)).phase is Terminated,
{
}

/// An application that keeps the default event policy answers every event as
/// the policy does and is itself left as it was. So where one call of its
/// `event` led from `before` and `cf_before` to `after` and `cf_after`, a
/// request to close has ended the loop, wherever the loop stood.
pub proof fn lemma_kept_policy_ends_on_close<T: AppLogic>(
    before: T,
    after: T,
    event: Event,
    cf_before: ControlFlow,
    cf_after: ControlFlow,
    s: AppView,
)
    requires
        before.keeps_default_policy(),
        exists|logic: &mut T, cf: &mut ControlFlow|
            *logic == before && *final(logic) == after && *cf == cf_before && *final(cf)
                == cf_after && #[trigger] call_ensures(T::event, (logic, event, cf), ()),
    ensures
        cf_after == default_policy(event, cf_before),
        after == before,
        event is CloseRequested ==> s.settled(cf_after).phase is Terminated,
{
}

/// A request to close the loop's own window reaches the application
/// whenever the loop is active, whether or not a screen has been reported.
pub proof fn lemma_close_request_is_delivered(s: AppView)
    requires
        s.phase is Active,
    ensures
        step(
            s,
            LoopEvent::WindowEvent { own_window: true, input: WindowInput::CloseRequested },
        ).delivered == Some(Event::CloseRequested),
{
}

/// Only a report of a size or of a scale factor reads the screen. Every
/// other input stands for the same event on every screen, or for none on
/// every screen.
pub proof fn lemma_only_reports_read_the_screen(input: WindowInput, a: Screen, b: Screen)
    requires
        !(input is Resized),
        !(input is ScaleFactorChanged),
    ensures
        Event::normalized(input, a) == Event::normalized(input, b),
{
}

/// The screen that stands in while none is on record never reaches the
/// application: an event that carries a screen carries the one on record
/// once its input has been taken note of.
pub proof fn lemma_told_screen_is_on_record(
    screen: Option<Screen>,
    input: WindowInput,
    told: Screen,
)
    requires
        emitted(screen, input) == Some(Event::Resized { screen: told }),
    ensures
        screen_after(screen, input) == Some(told),
{
}

/// Whether a key event reaches the application is decided by its key code
/// alone: with one it stands for an event of its own, on every screen;
/// without one it stands for nothing, and in no state of the loop is the
/// application told of it.
pub proof fn lemma_unnamed_key_is_dropped(
    s: AppView,
    screen: Screen,
    own_window: bool,
    state: ElementState,
    keycode: VirtualKeyCode,
)
    ensures
        Event::normalized(WindowInput::KeyboardInput { state, keycode: Some(keycode) }, screen)
            == Some(Event::KeyboardInput { state, keycode }),
        Event::normalized(WindowInput::KeyboardInput { state, keycode: None }, screen) is None,
        step(
            s,
            LoopEvent::WindowEvent {
                own_window,
                input: WindowInput::KeyboardInput { state, keycode: None },
            },
        ).delivered is None,
{
}

/// In a run of window events, taking the key code out of one key event
/// takes exactly one event away from what the application is handed.
pub proof fn lemma_unnamed_key_costs_one_event(
    screen: Option<Screen>,
    inputs: Seq<WindowInput>,
    i: int,
    state: ElementState,
    keycode: VirtualKeyCode,
)
    requires
        0 <= i < inputs.len(),
        inputs[i] == (WindowInput::KeyboardInput { state, keycode: Some(keycode) }),
    ensures
        emitted_all(
            screen,
            inputs.update(i, WindowInput::KeyboardInput { state, keycode: None }),
        ).len() + 1 == emitted_all(screen, inputs).len(),
    decreases inputs.len(),
{
    let unnamed = WindowInput::KeyboardInput { state, keycode: None };
    let changed = inputs.update(i, unnamed);
    if i == 0 {
        assert(changed.drop_first() =~= inputs.drop_first());
        assert(screen_after(screen, changed[0]) == screen_after(screen, inputs[0]));
        let rest = emitted_all(screen_after(screen, inputs[0]), inputs.drop_first());
        assert(emitted(screen, inputs[0]) is Some);
        assert((seq![emitted(screen, inputs[0])->0] + rest).len() == rest.len() + 1);
    } else {
        let next = screen_after(screen, inputs[0]);
        assert(changed.drop_first() =~= inputs.drop_first().update(i - 1, unnamed));
        assert(changed[0] == inputs[0]);
        lemma_unnamed_key_costs_one_event(next, inputs.drop_first(), i - 1, state, keycode);
        let rest = emitted_all(next, inputs.drop_first());
        let rest_changed = emitted_all(next, changed.drop_first());
        match emitted(screen, inputs[0]) {
            Some(event) => {
                assert((seq![event] + rest).len() == rest.len() + 1);
                assert((seq![event] + rest_changed).len() == rest_changed.len() + 1);
            },
            None => {},
        }
    }
}

/// The renderer of a device is asked for the first time a surface lives on
/// that device, and not again when the loop comes back from a suspension to
/// a surface on the same device.
pub proof fn lemma_renderer_is_asked_for_once(
    s: AppView,
    device: usize,
    device_count: usize,
    later_count: usize,
)
    requires
        s.wants_surface(),
        device < device_count,
        device < later_count,
        !(device < s.renderers.len() && s.renderers[device as int]),
    ensures
        ({
            let first = step(s, LoopEvent::SurfaceCreated { device, device_count });
            let suspended = step(first.next, LoopEvent::Suspended).next;
            let second = step(
                suspended,
                LoopEvent::SurfaceCreated { device, device_count: later_count },
            );
            &&& first.action == Action::CreateRenderer { device }
            &&& second.action == Action::Nothing
            &&& second.next.phase is Active
        }),
{
}

/// A terminated loop handles nothing: every event leaves it as it is.
pub proof fn lemma_terminated_is_final(s: AppView, e: LoopEvent)
    requires
        s.phase is Terminated,
    ensures
        step(s, e) == (Step { next: s, action: Action::Nothing, delivered: None }),
{
}

/// While the loop is not active, a redraw and a window event are no-ops and
/// no frame is drawn.
pub proof fn lemma_inactive_is_idle(
    s: AppView,
    own_window: bool,
    input: WindowInput,
    width: u32,
    height: u32,
)
    requires
        !(s.phase is Active),
    ensures
        step(s, LoopEvent::RedrawRequested) == (Step {
            next: s,
            action: Action::Nothing,
            delivered: None,
        }),
        step(s, LoopEvent::WindowEvent { own_window, input }) == (Step {
            next: s,
            action: Action::Nothing,
            delivered: None,
        }),
        frame_of(s, width, height) is None,
{
}

/// Handling an event keeps the state of the loop well formed, and so does
/// whatever control flow the application leaves behind on a delivery.
pub proof fn lemma_step_keeps_wf(s: AppView, e: LoopEvent, cf: ControlFlow)
    requires
        s.wf(),
    ensures
        step(s, e).next.wf(),
        step(s, e).delivered is Some ==> step(s, e).next.settled(cf).wf(),
{
}

} // verus!

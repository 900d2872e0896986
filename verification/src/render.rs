//! What the application implements, and the handle it draws through.
use vstd::prelude::*;
use std::ops::{Deref, DerefMut};
use vello::Scene;
use crate::event::{default_event, default_policy, ControlFlow, Event};
use crate::screen::Screen;

verus! {

/// The drawing handle of one frame: the scene fragment that the frame's
/// commands go to, and the screen they are drawn for.
///
/// It borrows the fragment for the length of one `render` call and cannot
/// be kept beyond it.
pub struct RenderCtx<'a> {
    scene: &'a mut Scene,
    screen: Screen,
}

impl<'a> RenderCtx<'a> {
    /// The screen held by this handle.
    pub closed spec fn spec_screen(&self) -> Screen {
        self.screen
    }

    /// The fragment held by this handle, as it is now.
    pub closed spec fn spec_scene(&self) -> Scene {
        *self.scene
    }

    /// The borrow of the fragment that this handle holds. What it ends as
    /// is what the fragment is once the handle is gone.
    pub closed spec fn spec_borrow(&self) -> &'a mut Scene {
        self.scene
    }

    /// The screen that this frame is drawn for.
    pub fn screen(&self) -> (r: Screen)
        ensures
            r == self.spec_screen(),
    {
        self.screen
    }
}

impl<'a> Deref for RenderCtx<'a> {
    type Target = Scene;

    fn deref(&self) -> (r: &Scene)
        ensures
            *r == self.spec_scene(),
    {
        &*self.scene
    }
}

impl<'a> DerefMut for RenderCtx<'a> {
    fn deref_mut(&mut self) -> (r: &mut Scene)
        ensures
            *r == old(self).spec_scene(),
            final(self).spec_scene() == *final(r),
            final(self).spec_screen() == old(self).spec_screen(),
            *final(final(self).spec_borrow()) == *final(old(self).spec_borrow()),
    {
        &mut *self.scene
    }
}

/// The application: what it draws, and what it does with events.
pub trait AppLogic {
    /// Draws one frame through `cx`. The handle stays the handle on the
    /// fragment it was given for: nothing but this crate makes one.
    fn render<'a>(&'a mut self, cx: &'a mut RenderCtx<'a>)
        ensures
            *final(final(cx).spec_borrow()) == *final(old(cx).spec_borrow()),
            final(cx).spec_screen() == old(cx).spec_screen(),
    ;

    /// Takes note of `event`, and may change what the loop does next through
    /// `cf`. Unless overridden, a request to close ends the loop.
    fn event(&mut self, event: Event, cf: &mut ControlFlow)
        ensures
            old(self).keeps_default_policy() ==> *final(cf) == default_policy(event, *old(cf)),
            old(self).keeps_default_policy() ==> &*final(self) == &*old(self),
    {
        default_event(&event, cf);
    }

    /// Whether this application leaves its events to the default policy:
    /// a request to close ends the loop with code zero, every other event is
    /// passed over, and the application itself stays as it is. It does
    /// unless it says otherwise, and one that overrides `event` with another
    /// policy has to say otherwise.
    open spec fn keeps_default_policy(&self) -> bool {
        true
    }
}

/// Has `logic` draw one frame into `fragment`, for `screen`: calls its
/// `render` once, with a handle on the fragment as it is and on the screen.
/// The fragment is afterwards what that handle held in the end.
pub(crate) fn render_into<T: AppLogic>(logic: &mut T, fragment: &mut Scene, screen: Screen)
    ensures
        exists|l: &mut T, cx: &mut RenderCtx|
            *l == *old(logic) && *final(l) == *final(logic) && cx.spec_screen() == screen
                && cx.spec_scene() == *old(fragment) && final(cx).spec_scene() == *final(fragment)
                && #[trigger] call_ensures(T::render, (l, cx), ()),
{
    let mut cx = RenderCtx { scene: fragment, screen };
    logic.render(&mut cx);
}

} // verus!

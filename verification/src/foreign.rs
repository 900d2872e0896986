//! The types of other crates that values of this crate carry.
//!
//! Each is declared opaque: verified code moves such a value from an input
//! to an output and never looks inside it. Of a scene one thing is named,
//! its path tags, so that an emptied scene can be told.
use vstd::prelude::*;

verus! {

/// `kurbo::Point`, a position in the plane.
#[verifier::external_type_specification]
#[verifier::external_body]
pub struct ExPoint(vello::kurbo::Point);

/// `vello::Scene`, a buffer of drawing commands.
#[verifier::external_type_specification]
#[verifier::external_body]
pub struct ExScene(vello::Scene);

/// `winit::event::ElementState`, whether a key or button went down or up.
#[verifier::external_type_specification]
#[verifier::external_body]
pub struct ExElementState(winit::event::ElementState);

/// `winit::event::MouseButton`.
#[verifier::external_type_specification]
#[verifier::external_body]
pub struct ExMouseButton(winit::event::MouseButton);

/// `winit::event::VirtualKeyCode`, the symbolic name of a key.
#[verifier::external_type_specification]
#[verifier::external_body]
pub struct ExVirtualKeyCode(winit::event::VirtualKeyCode);

/// `winit::event::ModifiersState`, the set of modifier keys held down.
#[verifier::external_type_specification]
#[verifier::external_body]
pub struct ExModifiersState(winit::event::ModifiersState);

/// `std::time::Instant`, the deadline of a timed wait.
#[verifier::external_type_specification]
#[verifier::external_body]
pub struct ExInstant(std::time::Instant);

/// The path tag stream of a scene's encoding, one byte for each tag, in the
/// order of the stream. A scene whose stream is empty is empty in vello's
/// own sense: that is what `Encoding::is_empty` tests.
pub uninterp spec fn path_tags(scene: vello::Scene) -> Seq<u8>;

/// `vello::Scene::reset` removes all content from the scene: it clears
/// every stream of the scene's encoding. Claimed of it here is that the path
/// tag stream is empty afterwards.
pub assume_specification[ vello::Scene::reset ](scene: &mut vello::Scene)
    ensures
        path_tags(*final(scene)) == Seq::<u8>::empty(),
;

} // verus!

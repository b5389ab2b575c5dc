//! The sketch callback interface.

use vstd::prelude::*;

use crate::renderer::Renderer;

verus! {

/// A Handler is a callback that takes no arguments other than the state and
/// renderer.
///
/// A doodle owns two handlers: one invoked exactly once before the frame
/// loop (`setup`) and one invoked once per frame (`draw`).  A handler gets
/// exclusive access to the state and the surface for the duration of a
/// single invocation; the harness makes no assumption about what it does
/// with them.  The handler itself is called through a shared reference,
/// like a plain function value: anything a sketch wants to remember from
/// frame to frame belongs in the state.
pub trait Handler<T> {
    /// Invoked by the harness with the sketch state and the drawing surface.
    fn handle(&self, state: &mut T, renderer: &mut Renderer);
}

/// The do-nothing callback that a freshly created builder uses for both
/// `setup` and `draw` until the caller replaces them.
#[derive(Clone, Copy, Debug, PartialEq, Eq, Structural, Default)]
pub struct NoopHandler;

impl<T> Handler<T> for NoopHandler {
    /// Leaves the state and the surface exactly as they were.
    fn handle(&self, state: &mut T, renderer: &mut Renderer)
        ensures
            *final(state) == *old(state),
            *final(renderer) == *old(renderer),
    {
    }
}

} // verus!

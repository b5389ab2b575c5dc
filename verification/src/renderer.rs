//! The drawing surface facade handed to the sketch callbacks.

use vstd::prelude::*;

use crate::color::Color;

verus! {

/// One drawing command issued against the surface, in the order issued.
///
/// The surface itself is a pure recorder: the host layer that owns the real
/// window drains the recorded commands and replays them on the backend
/// canvas.  `Present` is the command that makes everything recorded before
/// it visible on screen.
#[derive(Clone, Copy, Debug, PartialEq, Eq, Structural)]
pub enum RenderOp {
    /// The draw color was set to this color.
    SetDrawColor(Color),
    /// The whole surface was filled with the current draw color.
    Clear,
    /// Everything drawn so far was flushed to the visible window.
    Present,
}

/// A Renderer is responsible for drawing to the screen.
///
/// It tracks the current draw color and records every drawing command; the
/// host replays the commands on the backend canvas.  A fresh surface starts
/// with the backend's initial draw color, opaque white.
#[derive(Debug)]
pub struct Renderer {
    color: Color,
    ops: Vec<RenderOp>,
}

impl Renderer {
    /// The current draw color.
    pub closed spec fn spec_draw_color(self) -> Color {
        self.color
    }

    /// The drawing commands recorded and not yet drained by the host.
    pub closed spec fn spec_ops(self) -> Seq<RenderOp> {
        self.ops@
    }

    /// A fresh surface: opaque white draw color, nothing recorded yet.
    pub(crate) fn new() -> (r: Renderer)
        ensures
            r.spec_draw_color() == (Color { r: 255u8, g: 255u8, b: 255u8, a: 255u8 }),
            r.spec_ops() == Seq::<RenderOp>::empty(),
    {
        Renderer { color: Color { r: 255, g: 255, b: 255, a: 255 }, ops: Vec::new() }
    }

    /// Sets the color that the renderer uses for drawing shapes, text,
    /// background, etc.
    pub fn set_draw_color(&mut self, color: Color)
        ensures
            final(self).spec_draw_color() == color,
            final(self).spec_ops() == old(self).spec_ops().push(RenderOp::SetDrawColor(color)),
    {
        self.color = color;
        self.ops.push(RenderOp::SetDrawColor(color));
    }

    /// Returns the current drawing color.
    pub fn draw_color(&self) -> (color: Color)
        ensures
            color == self.spec_draw_color(),
    {
        self.color
    }

    /// Clears the screen with the current drawing color.
    pub fn clear(&mut self)
        ensures
            final(self).spec_draw_color() == old(self).spec_draw_color(),
            final(self).spec_ops() == old(self).spec_ops().push(RenderOp::Clear),
    {
        self.ops.push(RenderOp::Clear);
    }

    /// Calling this function makes all the drawing operations performed
    /// actually appear on the screen.
    pub fn present(&mut self)
        ensures
            final(self).spec_draw_color() == old(self).spec_draw_color(),
            final(self).spec_ops() == old(self).spec_ops().push(RenderOp::Present),
    {
        self.ops.push(RenderOp::Present);
    }

    /// Hands the recorded commands to the caller and leaves the record
    /// empty; the host calls this to replay the commands on the backend.
    pub fn take_ops(&mut self) -> (ops: Vec<RenderOp>)
        ensures
            ops@ == old(self).spec_ops(),
            final(self).spec_ops() == Seq::<RenderOp>::empty(),
            final(self).spec_draw_color() == old(self).spec_draw_color(),
    {
        let mut ops: Vec<RenderOp> = Vec::new();
        core::mem::swap(&mut ops, &mut self.ops);
        ops
    }
}

} // verus!

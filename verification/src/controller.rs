//! The bounce controller: direction state and the per-tick edge-reflection
//! rule that decides the element's next position.

use vstd::prelude::*;

use crate::probe::Dimensions;

verus! {

/// The moving element's bounding box, in viewport coordinates.
pub struct ElementRect {
    pub left: i32,
    pub right: i32,
    pub top: i32,
    pub bottom: i32,
}

impl ElementRect {
    /// A box never has negative extent.
    pub open spec fn wf(self) -> bool {
        self.right >= self.left && self.bottom >= self.top
    }
}

/// Build the element's box from its offset position and size.
pub fn get_element_rect(left: i32, top: i32, width: i32, height: i32) -> (rect: ElementRect)
    requires
        width >= 0,
        height >= 0,
        left + width <= i32::MAX,
        top + height <= i32::MAX,
    ensures
        rect.left == left,
        rect.top == top,
        rect.right == left + width,
        rect.bottom == top + height,
        rect.wf(),
{
    ElementRect { left, right: left + width, top, bottom: top + height }
}

/// Per-element bounce state: the fixed step magnitudes `adx`, `ady` and the
/// current signed per-tick velocities `dx`, `dy`.
pub struct Context {
    pub adx: i32,
    pub ady: i32,
    pub dx: i32,
    pub dy: i32,
}

impl Context {
    /// Direction is always exactly forward or backward at the fixed step
    /// magnitude: never zero, never any other scale.
    pub open spec fn wf(self) -> bool {
        &&& self.adx > 0
        &&& self.ady > 0
        &&& (self.dx == self.adx || self.dx == -self.adx)
        &&& (self.dy == self.ady || self.dy == -self.ady)
    }

    /// Fresh state moving forward (rightward and downward) on both axes.
    pub fn new(adx: i32, ady: i32) -> (c: Context)
        requires
            adx > 0,
            ady > 0,
        ensures
            c == (Context { adx, ady, dx: adx, dy: ady }),
            c.wf(),
    {
        Context { adx, ady, dx: adx, dy: ady }
    }
}

/// The horizontal direction after one tick's reflection checks. Both edges
/// are tested unconditionally, left first: with an element wider than the
/// viewport both can fire, and the right-edge check, coming last, wins.
pub open spec fn reflected_dx(c: Context, rect: ElementRect, dims: Dimensions) -> int {
    let after_left = if rect.left - c.adx < 0 {
        c.adx as int
    } else {
        c.dx as int
    };
    if rect.right + c.adx >= dims.width {
        -(c.adx as int)
    } else {
        after_left
    }
}

/// The vertical direction after one tick's reflection checks; the
/// bottom-edge check is evaluated last and overrides the top-edge check.
pub open spec fn reflected_dy(c: Context, rect: ElementRect, dims: Dimensions) -> int {
    let after_top = if rect.top - c.ady < 0 {
        c.ady as int
    } else {
        c.dy as int
    };
    if rect.bottom + c.ady >= dims.height {
        -(c.ady as int)
    } else {
        after_top
    }
}

/// One tick of the bounce rule. Looks one step ahead on each axis: if the
/// box would cross the left (top) edge, force the direction positive; if it
/// would cross the right (bottom) edge, force it negative, overriding the
/// earlier check. Returns the position the element moves to,
/// `(left + dx, top + dy)` with the updated directions.
pub fn next_step(dims: &Dimensions, rect: &ElementRect, context: &mut Context) -> (pos: (
    i32,
    i32,
))
    requires
        old(context).wf(),
        rect.wf(),
        rect.left - old(context).adx >= i32::MIN,
        rect.right + old(context).adx <= i32::MAX,
        rect.top - old(context).ady >= i32::MIN,
        rect.bottom + old(context).ady <= i32::MAX,
    ensures
        final(context).adx == old(context).adx,
        final(context).ady == old(context).ady,
        final(context).dx == reflected_dx(*old(context), *rect, *dims),
        final(context).dy == reflected_dy(*old(context), *rect, *dims),
        final(context).wf(),
        pos.0 == rect.left + final(context).dx,
        pos.1 == rect.top + final(context).dy,
{
    if rect.left - context.adx < 0 {
        context.dx = context.adx;
    }
    if rect.right + context.adx >= dims.width {
        context.dx = -context.adx;
    }
    if rect.top - context.ady < 0 {
        context.dy = context.ady;
    }
    if rect.bottom + context.ady >= dims.height {
        context.dy = -context.ady;
    }
    (rect.left + context.dx, rect.top + context.dy)
}

} // verus!

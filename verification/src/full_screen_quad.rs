//! The one triangle that covers the whole viewport.

use vstd::prelude::*;
use crate::consts;
use crate::context::{Command, Context, ContextView};

verus! {

/// Number of vertices of the covering triangle.
pub const VERTICES: u32 = 3;

/// `context` after the covering triangle has been drawn.
pub open spec fn rendered(context: ContextView) -> ContextView {
    context.recorded(Command::DrawArrays { mode: consts::TRIANGLES, first: 0, count: VERTICES })
}

/// Draws the covering triangle with the program and the vertex data that
/// are bound.
pub fn render(context: &mut Context)
    ensures
        final(context)@ == rendered(old(context)@),
{
    context.record(Command::DrawArrays { mode: consts::TRIANGLES, first: 0, count: VERTICES });
}

} // verus!

//! Regions, clear values and write masks of transfer and render operations.

use vstd::prelude::*;

verus! {

/// Bit pattern of the 32-bit float `0.0`.
pub const ZERO: u32 = 0x0000_0000;

/// Bit pattern of the 32-bit float `1.0`.
pub const ONE: u32 = 0x3F80_0000;

/// A rectangle of texels: `width` x `height` with its lower left corner at `(x, y)`.
#[derive(Clone, Copy, Debug, PartialEq, Eq, Structural)]
pub struct Viewport {
    pub x: i32,
    pub y: i32,
    pub width: u32,
    pub height: u32,
}

impl Viewport {
    /// Whether the rectangle lies within a `width` x `height` grid of texels.
    pub open spec fn fits(self, width: u32, height: u32) -> bool {
        &&& self.x >= 0
        &&& self.y >= 0
        &&& self.x + self.width <= width
        &&& self.y + self.height <= height
    }

    pub open spec fn texel_count(self) -> nat {
        (self.width * self.height) as nat
    }

    /// The rectangle of the given size whose corner is the origin.
    pub fn new_at_origo(width: u32, height: u32) -> (viewport: Viewport)
        ensures
            viewport == (Viewport { x: 0, y: 0, width, height }),
            viewport.fits(width, height),
    {
        Viewport { x: 0, y: 0, width, height }
    }

    pub fn fits_within(&self, width: u32, height: u32) -> (inside: bool)
        ensures
            inside == self.fits(width, height),
    {
        self.x >= 0 && self.y >= 0 && self.x as i64 + self.width as i64 <= width as i64
            && self.y as i64 + self.height as i64 <= height as i64
    }
}

/// The values a render target is cleared to before it is drawn into. A
/// component that is `None` is left as it is. Colour and depth values are
/// bit patterns of 32-bit floats.
#[derive(Clone, Copy, Debug, PartialEq, Eq, Structural)]
pub struct ClearState {
    pub red: Option<u32>,
    pub green: Option<u32>,
    pub blue: Option<u32>,
    pub alpha: Option<u32>,
    pub depth: Option<u32>,
    pub stencil: Option<i32>,
}

impl ClearState {
    pub open spec fn clears_color(self) -> bool {
        self.red is Some || self.green is Some || self.blue is Some || self.alpha is Some
    }

    pub open spec fn nothing() -> ClearState {
        ClearState { red: None, green: None, blue: None, alpha: None, depth: None, stencil: None }
    }

    /// Clears nothing.
    pub fn none() -> (state: ClearState)
        ensures
            state == ClearState::nothing(),
    {
        ClearState { red: None, green: None, blue: None, alpha: None, depth: None, stencil: None }
    }

    /// Clears the four colour channels and nothing else.
    pub fn color(red: u32, green: u32, blue: u32, alpha: u32) -> (state: ClearState)
        ensures
            state == (ClearState {
                red: Some(red),
                green: Some(green),
                blue: Some(blue),
                alpha: Some(alpha),
                depth: None,
                stencil: None,
            }),
    {
        ClearState {
            red: Some(red),
            green: Some(green),
            blue: Some(blue),
            alpha: Some(alpha),
            depth: None,
            stencil: None,
        }
    }

    /// Clears depth and nothing else.
    pub fn depth(depth: u32) -> (state: ClearState)
        ensures
            state == (ClearState { depth: Some(depth), ..ClearState::nothing() }),
    {
        ClearState {
            red: None,
            green: None,
            blue: None,
            alpha: None,
            depth: Some(depth),
            stencil: None,
        }
    }

    /// The part of this state that applies to colour attachments.
    pub open spec fn color_part(self) -> ClearState {
        ClearState { depth: None, stencil: None, ..self }
    }

    pub fn only_color(&self) -> (state: ClearState)
        ensures
            state == self.color_part(),
    {
        ClearState {
            red: self.red,
            green: self.green,
            blue: self.blue,
            alpha: self.alpha,
            depth: None,
            stencil: None,
        }
    }
}

/// The channels an operation may change.
#[derive(Clone, Copy, Debug, PartialEq, Eq, Structural)]
pub struct WriteMask {
    pub red: bool,
    pub green: bool,
    pub blue: bool,
    pub alpha: bool,
    pub depth: bool,
    pub stencil: bool,
}

impl WriteMask {
    pub open spec fn depth_only() -> WriteMask {
        WriteMask {
            red: false,
            green: false,
            blue: false,
            alpha: false,
            depth: true,
            stencil: false,
        }
    }

    /// All four colour channels and depth.
    pub fn color_and_depth() -> (mask: WriteMask)
        ensures
            mask == (WriteMask {
                red: true,
                green: true,
                blue: true,
                alpha: true,
                depth: true,
                stencil: false,
            }),
    {
        WriteMask { red: true, green: true, blue: true, alpha: true, depth: true, stencil: false }
    }

    /// All four colour channels.
    pub fn color() -> (mask: WriteMask)
        ensures
            mask == (WriteMask {
                red: true,
                green: true,
                blue: true,
                alpha: true,
                depth: false,
                stencil: false,
            }),
    {
        WriteMask { red: true, green: true, blue: true, alpha: true, depth: false, stencil: false }
    }

    /// Depth alone.
    pub fn depth() -> (mask: WriteMask)
        ensures
            mask == WriteMask::depth_only(),
    {
        WriteMask {
            red: false,
            green: false,
            blue: false,
            alpha: false,
            depth: true,
            stencil: false,
        }
    }
}

} // verus!

//! What render targets share: clearing, the window as a target, and the
//! copy from one target into another.

use vstd::prelude::*;
use crate::color_target::ColorTargetTexture2D;
use crate::consts;
use crate::context::{replay, Bindings, Command, Context, ContextView};
use crate::depth_target::DepthTargetTexture2D;
use crate::error::Error;
use crate::format::ElementType;
use crate::states::{ClearState, Viewport, WriteMask, ONE, ZERO};
use crate::texture::{bind_at, bound_at};

verus! {

/// The stencil mask that lets every bit be written.
pub const ALL_BITS: u32 = 0xFFFF_FFFF;

/// The buffers that `clear_state` clears, as the bit set the driver takes.
pub open spec fn clear_bits(clear_state: ClearState) -> u32 {
    ((if clear_state.clears_color() {
        consts::COLOR_BUFFER_BIT
    } else {
        0u32
    }) + (if clear_state.depth is Some {
        consts::DEPTH_BUFFER_BIT
    } else {
        0u32
    }) + (if clear_state.stencil is Some {
        consts::STENCIL_BUFFER_BIT
    } else {
        0u32
    })) as u32
}

pub open spec fn unwrap_or(value: Option<u32>, default: u32) -> u32 {
    match value {
        Some(v) => v,
        None => default,
    }
}

/// `context` after the bound draw framebuffer has been cleared to
/// `clear_state`. Writing is opened for exactly the colour channels that
/// have a value, so the others stay as they are; a colour channel without a
/// value is passed as zero, alpha as one. Depth and stencil are written only
/// where they have a value. Where no component has a value nothing is
/// recorded.
pub open spec fn cleared(context: ContextView, clear_state: ClearState) -> ContextView {
    let color = if clear_state.clears_color() {
        context.recorded(
            Command::ColorMask {
                red: clear_state.red is Some,
                green: clear_state.green is Some,
                blue: clear_state.blue is Some,
                alpha: clear_state.alpha is Some,
            },
        ).recorded(
            Command::ClearColor {
                red: unwrap_or(clear_state.red, ZERO),
                green: unwrap_or(clear_state.green, ZERO),
                blue: unwrap_or(clear_state.blue, ZERO),
                alpha: unwrap_or(clear_state.alpha, ONE),
            },
        )
    } else {
        context
    };
    let depth = match clear_state.depth {
        Some(value) => color.recorded(Command::DepthMask { flag: true }).recorded(
            Command::ClearDepth { depth: value },
        ),
        None => color,
    };
    let stencil = match clear_state.stencil {
        Some(value) => depth.recorded(Command::StencilMask { mask: ALL_BITS }).recorded(
            Command::ClearStencil { value },
        ),
        None => depth,
    };
    if clear_bits(clear_state) != 0 {
        stencil.recorded(Command::Clear { mask: clear_bits(clear_state) })
    } else {
        stencil
    }
}

/// Clears the bound draw framebuffer to `clear_state`.
pub fn clear(context: &mut Context, clear_state: &ClearState)
    ensures
        final(context)@ == cleared(old(context)@, *clear_state),
{
    let mut bits: u32 = 0;
    if clear_state.red.is_some() || clear_state.green.is_some() || clear_state.blue.is_some()
        || clear_state.alpha.is_some() {
        context.record(
            Command::ColorMask {
                red: clear_state.red.is_some(),
                green: clear_state.green.is_some(),
                blue: clear_state.blue.is_some(),
                alpha: clear_state.alpha.is_some(),
            },
        );
        context.record(
            Command::ClearColor {
                red: clear_state.red.unwrap_or(ZERO),
                green: clear_state.green.unwrap_or(ZERO),
                blue: clear_state.blue.unwrap_or(ZERO),
                alpha: clear_state.alpha.unwrap_or(ONE),
            },
        );
        bits = bits + consts::COLOR_BUFFER_BIT;
    }
    if let Some(value) = clear_state.depth {
        context.record(Command::DepthMask { flag: true });
        context.record(Command::ClearDepth { depth: value });
        bits = bits + consts::DEPTH_BUFFER_BIT;
    }
    if let Some(value) = clear_state.stencil {
        context.record(Command::StencilMask { mask: ALL_BITS });
        context.record(Command::ClearStencil { value });
        bits = bits + consts::STENCIL_BUFFER_BIT;
    }
    if bits != 0 {
        context.record(Command::Clear { mask: bits });
    }
}

/// The window's own framebuffer as a render target.
pub struct Screen;

impl Screen {
    /// `context` when drawing into the window may start: the window's
    /// framebuffer is bound for drawing and cleared.
    pub open spec fn begun(context: ContextView, clear_state: ClearState) -> ContextView {
        cleared(
            context.recorded(
                Command::BindFramebuffer {
                    target: consts::DRAW_FRAMEBUFFER,
                    framebuffer: consts::NO_OBJECT,
                },
            ),
            clear_state,
        )
    }

    /// Binds the window's framebuffer for drawing and clears it. Returns the
    /// bindings as they were before.
    pub(crate) fn begin_write(context: &mut Context, clear_state: ClearState) -> (saved: Bindings)
        ensures
            saved == old(context)@.bindings,
            final(context)@ == Self::begun(old(context)@, clear_state),
    {
        let saved = context.bindings();
        context.record(
            Command::BindFramebuffer {
                target: consts::DRAW_FRAMEBUFFER,
                framebuffer: consts::NO_OBJECT,
            },
        );
        clear(context, &clear_state);
        saved
    }

    /// Ends drawing into the window: the bindings `saved` are put back.
    pub(crate) fn end_write(context: &mut Context, saved: Bindings)
        ensures
            final(context)@ == old(context)@.restored(saved),
            final(context)@.bindings == saved,
    {
        context.restore(saved);
    }

    /// Clears the window and draws into it with `render`. Whatever `render`
    /// answers and whatever it has bound, the bindings are afterwards what
    /// they were before the call, and `render`'s answer is handed on.
    pub fn write<F: FnOnce(&mut Context) -> Result<(), Error>>(
        context: &mut Context,
        clear_state: ClearState,
        render: F,
    ) -> (result: Result<(), Error>)
        requires
            forall|c: &mut Context|
                c@ == Self::begun(old(context)@, clear_state) ==> #[trigger] render.requires((c,)),
        ensures
            exists|c: &mut Context|
                {
                    &&& #[trigger] render.ensures((c,), result)
                    &&& c@ == Self::begun(old(context)@, clear_state)
                    &&& final(context)@ == final(c)@.restored(old(context)@.bindings)
                },
            final(context)@.bindings == old(context)@.bindings,
            replay(final(context)@.origin, final(context)@.commands) == old(context)@.bindings,
    {
        let saved = Self::begin_write(context, clear_state);
        let result = render(context);
        Self::end_write(context, saved);
        proof {
            use_type_invariant(&*context);
        }
        result
    }
}

/// What an image holds: colour made of elements of one kind, or depth.
#[derive(Clone, Copy, Debug, PartialEq, Eq, Structural)]
pub enum Content {
    Color(ElementType),
    Depth,
}

/// What a copy reads from: one image of a render target.
#[derive(Clone, Copy, Debug, PartialEq, Eq, Structural)]
pub struct CopySource {
    /// Name of the texture.
    pub texture: u32,
    /// The kind of texture, as the driver's binding target.
    pub target: u32,
    /// The layer to read, for an array texture; zero otherwise.
    pub layer: u32,
    /// What the image holds.
    pub content: Content,
    pub width: u32,
    pub height: u32,
}

/// Where a copy writes to.
pub enum CopyDestination<'a> {
    ColorTexture(&'a ColorTargetTexture2D),
    DepthTexture(&'a DepthTargetTexture2D),
    Screen,
}

impl<'a> CopyDestination<'a> {
    /// Whether an image that holds `content` may be copied here: colour
    /// goes to a colour texture of the same element type, depth to a depth
    /// texture, and the window takes both.
    pub open spec fn takes(self, content: Content) -> bool {
        match self {
            CopyDestination::ColorTexture(texture) => content == Content::Color(texture@.element),
            CopyDestination::DepthTexture(_) => content is Depth,
            CopyDestination::Screen => true,
        }
    }

    /// Whether `viewport` lies within the destination. The window's extent
    /// is not known here, so the window holds every viewport.
    pub open spec fn holds(self, viewport: Viewport) -> bool {
        match self {
            CopyDestination::ColorTexture(texture) => viewport.fits(
                texture@.width,
                texture@.height,
            ),
            CopyDestination::DepthTexture(texture) => viewport.fits(
                texture@.width,
                texture@.height,
            ),
            CopyDestination::Screen => true,
        }
    }

    /// Whether an image that holds `content` may be copied here.
    pub fn accepts(&self, content: Content) -> (accepted: bool)
        ensures
            accepted == self.takes(content),
    {
        match self {
            CopyDestination::ColorTexture(texture) => match content {
                Content::Color(element) => element == texture.element(),
                Content::Depth => false,
            },
            CopyDestination::DepthTexture(_) => match content {
                Content::Color(_) => false,
                Content::Depth => true,
            },
            CopyDestination::Screen => true,
        }
    }

    /// Whether `viewport` lies within the destination.
    pub fn contains(&self, viewport: &Viewport) -> (inside: bool)
        ensures
            inside == self.holds(*viewport),
    {
        match self {
            CopyDestination::ColorTexture(texture) => viewport.fits_within(
                texture.width(),
                texture.height(),
            ),
            CopyDestination::DepthTexture(texture) => viewport.fits_within(
                texture.width(),
                texture.height(),
            ),
            CopyDestination::Screen => true,
        }
    }

    /// `context` when drawing into the destination may start; nothing is cleared.
    pub open spec fn begun(self, context: ContextView) -> ContextView {
        match self {
            CopyDestination::ColorTexture(texture) => texture@.begun(
                context,
                ClearState::nothing(),
            ),
            CopyDestination::DepthTexture(texture) => texture@.begun(context, None),
            CopyDestination::Screen => Screen::begun(context, ClearState::nothing()),
        }
    }

    /// `context` after drawing into the destination has ended with success.
    pub open spec fn ended(self, context: ContextView, saved: Bindings) -> ContextView {
        match self {
            CopyDestination::ColorTexture(texture) => texture@.ended(context, saved, true),
            CopyDestination::DepthTexture(_) => context.restored(saved),
            CopyDestination::Screen => context.restored(saved),
        }
    }
}

/// Why `source` cannot be copied to `destination` over `viewport`, if it
/// cannot: the destination does not take what the source holds, which is
/// reported whatever the viewport is, or the viewport reaches outside the
/// source or outside the destination.
pub open spec fn copy_error(
    source: CopySource,
    destination: CopyDestination,
    viewport: Viewport,
) -> Option<Error> {
    if !destination.takes(source.content) {
        Some(Error::FormatMismatch)
    } else if !viewport.fits(source.width, source.height) || !destination.holds(viewport) {
        Some(Error::OutOfBounds)
    } else {
        None
    }
}

/// Depth is never copied into a colour texture and colour never into a depth
/// texture, whatever the viewport and the extents are.
pub proof fn lemma_kinds_do_not_mix(
    source: CopySource,
    destination: CopyDestination,
    viewport: Viewport,
)
    requires
        (source.content is Depth && destination is ColorTexture) || (source.content is Color
            && destination is DepthTexture),
    ensures
        copy_error(source, destination, viewport) == Some(Error::FormatMismatch),
{
}

/// A copy that succeeds leaves the bindings as they were.
pub proof fn lemma_copy_puts_the_bindings_back(
    context: ContextView,
    source: CopySource,
    destination: CopyDestination,
    viewport: Viewport,
    write_mask: WriteMask,
)
    ensures
        copied(context, source, destination, viewport, write_mask).bindings == context.bindings,
        copied(context, source, destination, viewport, write_mask).uploads == context.uploads,
{
}

/// `context` after the copy: the destination is bound as the draw target,
/// writing is opened for exactly the channels of `write_mask`, the source is
/// bound to sampling unit 0 and drawn over `viewport`, and the bindings are
/// put back to what they were.
pub open spec fn copied(
    context: ContextView,
    source: CopySource,
    destination: CopyDestination,
    viewport: Viewport,
    write_mask: WriteMask,
) -> ContextView {
    destination.ended(
        bound_at(
            destination.begun(context).recorded(
                Command::ColorMask {
                    red: write_mask.red,
                    green: write_mask.green,
                    blue: write_mask.blue,
                    alpha: write_mask.alpha,
                },
            ).recorded(Command::DepthMask { flag: write_mask.depth }).recorded(
                Command::StencilMask {
                    mask: if write_mask.stencil {
                        ALL_BITS
                    } else {
                        0
                    },
                },
            ),
            source.texture,
            source.target,
            0,
        ).recorded(
            Command::CopyEffect {
                texture_target: source.target,
                layer: source.layer,
                depth: source.content is Depth,
                x: viewport.x,
                y: viewport.y,
                width: viewport.width,
                height: viewport.height,
            },
        ),
        context.bindings,
    )
}

/// Copies the part of `source` inside `viewport` to the same place in
/// `destination`, changing only the channels that `write_mask` selects.
pub fn copy(
    context: &mut Context,
    source: CopySource,
    destination: CopyDestination,
    viewport: Viewport,
    write_mask: WriteMask,
) -> (result: Result<(), Error>)
    ensures
        match result {
            Ok(()) => {
                &&& copy_error(source, destination, viewport) is None
                &&& final(context)@ == copied(
                    old(context)@,
                    source,
                    destination,
                    viewport,
                    write_mask,
                )
            },
            Err(error) => {
                &&& copy_error(source, destination, viewport) == Some(error)
                &&& final(context)@ == old(context)@
            },
        },
        final(context)@.bindings == old(context)@.bindings,
{
    if !destination.accepts(source.content) {
        return Err(Error::FormatMismatch);
    }
    if !viewport.fits_within(source.width, source.height) || !destination.contains(&viewport) {
        return Err(Error::OutOfBounds);
    }
    let saved = match destination {
        CopyDestination::ColorTexture(texture) => texture.begin_write(context, ClearState::none()),
        CopyDestination::DepthTexture(texture) => texture.begin_write(context, None),
        CopyDestination::Screen => Screen::begin_write(context, ClearState::none()),
    };
    context.record(
        Command::ColorMask {
            red: write_mask.red,
            green: write_mask.green,
            blue: write_mask.blue,
            alpha: write_mask.alpha,
        },
    );
    context.record(Command::DepthMask { flag: write_mask.depth });
    context.record(
        Command::StencilMask {
            mask: if write_mask.stencil {
                ALL_BITS
            } else {
                0
            },
        },
    );
    bind_at(context, source.texture, source.target, 0);
    context.record(
        Command::CopyEffect {
            texture_target: source.target,
            layer: source.layer,
            depth: match source.content {
                Content::Color(_) => false,
                Content::Depth => true,
            },
            x: viewport.x,
            y: viewport.y,
            width: viewport.width,
            height: viewport.height,
        },
    );
    match destination {
        CopyDestination::ColorTexture(texture) => texture.end_write(context, saved, true),
        CopyDestination::DepthTexture(texture) => texture.end_write(context, saved),
        CopyDestination::Screen => Screen::end_write(context, saved),
    }
    Ok(())
}

} // verus!

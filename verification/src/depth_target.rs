//! 2D depth render targets.

use vstd::prelude::*;
use crate::consts;
use crate::context::{replay, Bindings, Command, Context, ContextView};
use crate::error::Error;
use crate::format::{
    depth_storage_format, internal_format_from_depth, DepthFormat, Interpolation, Wrapping,
};
use crate::states::{ClearState, Viewport, WriteMask};
use crate::target::{
    cleared, clear, copied, copy, copy_error, Content, CopyDestination, CopySource,
};
use crate::texture::{bind_at, bound_at, generate, set_parameters, with_parameters};

verus! {

/// A 2D depth target as contracts see it.
pub struct DepthTargetTexture2DView {
    pub id: u32,
    /// Name of the framebuffer object the texture is rendered through.
    pub framebuffer: u32,
    pub width: u32,
    pub height: u32,
}

impl DepthTargetTexture2DView {
    /// `context` after the texture has been attached to the draw
    /// framebuffer as its depth buffer.
    pub open spec fn attached(self, context: ContextView) -> ContextView {
        context.recorded(
            Command::FramebufferTexture2D {
                target: consts::FRAMEBUFFER,
                attachment: consts::DEPTH_ATTACHMENT,
                texture_target: consts::TEXTURE_2D,
                texture: self.id,
                level: 0,
            },
        )
    }

    /// `context` after the texture's framebuffer has been bound to `target`
    /// with the texture as its depth buffer.
    pub open spec fn bound(self, context: ContextView, target: u32) -> ContextView {
        self.attached(
            context.recorded(Command::BindFramebuffer { target, framebuffer: self.framebuffer }),
        )
    }

    /// `context` when drawing into the texture may start: it is bound as
    /// the draw target and its depth is cleared to `clear_state`, if that is
    /// a value.
    pub open spec fn begun(self, context: ContextView, clear_state: Option<u32>) -> ContextView {
        cleared(
            self.bound(context, consts::DRAW_FRAMEBUFFER),
            ClearState { depth: clear_state, ..ClearState::nothing() },
        )
    }

    /// The texture as the source of a copy.
    pub open spec fn source(self) -> CopySource {
        CopySource {
            texture: self.id,
            target: consts::TEXTURE_2D,
            layer: 0,
            content: Content::Depth,
            width: self.width,
            height: self.height,
        }
    }

    /// `context` after the texture's names have been given back to the driver.
    pub open spec fn released(self, context: ContextView) -> ContextView {
        context.recorded(Command::DeleteFramebuffer { framebuffer: self.framebuffer }).recorded(
            Command::DeleteTexture { texture: self.id },
        )
    }
}

/// A 2D depth texture that can be rendered into.
#[derive(Debug)]
pub struct DepthTargetTexture2D {
    id: u32,
    framebuffer: u32,
    width: u32,
    height: u32,
}

impl View for DepthTargetTexture2D {
    type V = DepthTargetTexture2DView;

    closed spec fn view(&self) -> DepthTargetTexture2DView {
        DepthTargetTexture2DView {
            id: self.id,
            framebuffer: self.framebuffer,
            width: self.width,
            height: self.height,
        }
    }
}

impl DepthTargetTexture2D {
    #[verifier::type_invariant]
    spec fn owns_its_names(self) -> bool {
        self.id != consts::NO_OBJECT && self.framebuffer != consts::NO_OBJECT
    }

    /// `context` after `new` has made `texture`: it is sampled without
    /// interpolation, and storage for its one level is reserved.
    pub open spec fn creating(
        context: ContextView,
        texture: DepthTargetTexture2DView,
        wrap_s: Wrapping,
        wrap_t: Wrapping,
        format: DepthFormat,
    ) -> ContextView {
        with_parameters(
            context,
            texture.id,
            consts::TEXTURE_2D,
            Interpolation::Nearest,
            Interpolation::Nearest,
            None,
            wrap_s,
            wrap_t,
            None,
        ).recorded(
            Command::TexStorage2D {
                target: consts::TEXTURE_2D,
                levels: 1,
                internal_format: depth_storage_format(format),
                width: texture.width,
                height: texture.height,
            },
        )
    }

    /// Makes a depth target under the texture name `handle` and the
    /// framebuffer name `framebuffer`, which the driver has just handed
    /// out. It fails exactly when the driver refused one of the names, and
    /// has then recorded nothing; a name that was granted beside a refused
    /// one stays the caller's.
    ///
    /// The target keeps its framebuffer for its whole life. So `write` and
    /// `copy_to` ask the driver for nothing and cannot fail for want of a
    /// name; the price is the second name here.
    pub fn new(
        context: &mut Context,
        handle: u32,
        framebuffer: u32,
        width: u32,
        height: u32,
        wrap_s: Wrapping,
        wrap_t: Wrapping,
        format: DepthFormat,
    ) -> (result: Result<DepthTargetTexture2D, Error>)
        ensures
            match result {
                Ok(texture) => {
                    &&& handle != consts::NO_OBJECT
                    &&& framebuffer != consts::NO_OBJECT
                    &&& texture@ == (DepthTargetTexture2DView { id: handle, framebuffer, width, height })
                    &&& final(context)@ == Self::creating(
                        old(context)@,
                        texture@,
                        wrap_s,
                        wrap_t,
                        format,
                    )
                },
                Err(error) => {
                    &&& handle == consts::NO_OBJECT || framebuffer == consts::NO_OBJECT
                    &&& error == Error::AllocationError
                    &&& final(context)@ == old(context)@
                },
            },
            final(context)@.bindings == old(context)@.bindings,
    {
        let id = generate(handle)?;
        let framebuffer = generate(framebuffer)?;
        set_parameters(
            context,
            id,
            consts::TEXTURE_2D,
            Interpolation::Nearest,
            Interpolation::Nearest,
            None,
            wrap_s,
            wrap_t,
            None,
        );
        context.record(
            Command::TexStorage2D {
                target: consts::TEXTURE_2D,
                levels: 1,
                internal_format: internal_format_from_depth(format),
                width,
                height,
            },
        );
        Ok(DepthTargetTexture2D { id, framebuffer, width, height })
    }

    /// Binds the texture as the draw target and clears its depth to
    /// `clear_state`, if that is a value. Returns the bindings as they were
    /// before.
    pub(crate) fn begin_write(&self, context: &mut Context, clear_state: Option<u32>) -> (saved:
        Bindings)
        ensures
            saved == old(context)@.bindings,
            final(context)@ == self@.begun(old(context)@, clear_state),
    {
        let saved = context.bindings();
        context.record(
            Command::BindFramebuffer {
                target: consts::DRAW_FRAMEBUFFER,
                framebuffer: self.framebuffer,
            },
        );
        self.bind_as_depth_target(context);
        clear(
            context,
            &ClearState {
                red: None,
                green: None,
                blue: None,
                alpha: None,
                depth: clear_state,
                stencil: None,
            },
        );
        saved
    }

    /// Ends drawing into the texture: the bindings `saved` are put back.
    pub(crate) fn end_write(&self, context: &mut Context, saved: Bindings)
        ensures
            final(context)@ == old(context)@.restored(saved),
            final(context)@.bindings == saved,
    {
        context.restore(saved);
    }

    /// Clears the texture's depth to `clear_state`, if that is a value, and
    /// writes the depth of what `render` draws into it. Whatever `render`
    /// answers and whatever it has bound, the bindings are afterwards what
    /// they were before the call, and `render`'s answer is handed on.
    pub fn write<F: FnOnce(&mut Context) -> Result<(), Error>>(
        &self,
        context: &mut Context,
        clear_state: Option<u32>,
        render: F,
    ) -> (result: Result<(), Error>)
        requires
            forall|c: &mut Context|
                c@ == self@.begun(old(context)@, clear_state) ==> #[trigger] render.requires((c,)),
        ensures
            exists|c: &mut Context|
                {
                    &&& #[trigger] render.ensures((c,), result)
                    &&& c@ == self@.begun(old(context)@, clear_state)
                    &&& final(context)@ == final(c)@.restored(old(context)@.bindings)
                },
            final(context)@.bindings == old(context)@.bindings,
            replay(final(context)@.origin, final(context)@.commands) == old(context)@.bindings,
    {
        let saved = self.begin_write(context, clear_state);
        let result = render(context);
        self.end_write(context, saved);
        proof {
            use_type_invariant(&*context);
        }
        result
    }

    /// Copies the part of the texture inside `viewport` to the same place in
    /// `destination`, changing depth only. A colour destination is refused.
    pub fn copy_to(
        &self,
        context: &mut Context,
        destination: CopyDestination,
        viewport: Viewport,
    ) -> (result: Result<(), Error>)
        ensures
            match result {
                Ok(()) => {
                    &&& copy_error(self@.source(), destination, viewport) is None
                    &&& final(context)@ == copied(
                        old(context)@,
                        self@.source(),
                        destination,
                        viewport,
                        WriteMask::depth_only(),
                    )
                },
                Err(error) => {
                    &&& copy_error(self@.source(), destination, viewport) == Some(error)
                    &&& final(context)@ == old(context)@
                },
            },
            destination is ColorTexture ==> result == Err::<(), Error>(Error::FormatMismatch),
            final(context)@.bindings == old(context)@.bindings,
    {
        let source = CopySource {
            texture: self.id,
            target: consts::TEXTURE_2D,
            layer: 0,
            content: Content::Depth,
            width: self.width,
            height: self.height,
        };
        copy(context, source, destination, viewport, WriteMask::depth())
    }

    /// Attaches the texture to the draw framebuffer as its depth buffer.
    pub fn bind_as_depth_target(&self, context: &mut Context)
        ensures
            final(context)@ == self@.attached(old(context)@),
    {
        context.record(
            Command::FramebufferTexture2D {
                target: consts::FRAMEBUFFER,
                attachment: consts::DEPTH_ATTACHMENT,
                texture_target: consts::TEXTURE_2D,
                texture: self.id,
                level: 0,
            },
        );
    }

    /// Binds the texture to sampling unit `location` for the draws that follow.
    pub fn bind(&self, context: &mut Context, location: u32)
        requires
            consts::TEXTURE0 + location <= u32::MAX,
        ensures
            final(context)@ == bound_at(old(context)@, self@.id, consts::TEXTURE_2D, location),
    {
        bind_at(context, self.id, consts::TEXTURE_2D, location);
    }

    /// The names the target has with the driver, texture first; neither is
    /// the name of no object.
    pub fn names(&self) -> (names: (u32, u32))
        ensures
            names == (self@.id, self@.framebuffer),
            names.0 != consts::NO_OBJECT,
            names.1 != consts::NO_OBJECT,
    {
        proof {
            use_type_invariant(self);
        }
        (self.id, self.framebuffer)
    }

    pub fn width(&self) -> (width: u32)
        ensures
            width == self@.width,
    {
        self.width
    }

    pub fn height(&self) -> (height: u32)
        ensures
            height == self@.height,
    {
        self.height
    }

    /// Ends the target's life: its framebuffer and its texture go back to
    /// the driver.
    pub fn release(self, context: &mut Context)
        ensures
            final(context)@ == self@.released(old(context)@),
    {
        context.record(Command::DeleteFramebuffer { framebuffer: self.framebuffer });
        context.record(Command::DeleteTexture { texture: self.id });
    }
}

} // verus!

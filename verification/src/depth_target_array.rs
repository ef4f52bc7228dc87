//! Arrays of 2D depth render targets.

use vstd::prelude::*;
use crate::consts;
use crate::context::{replay, Bindings, Command, Context, ContextView};
use crate::error::Error;
use crate::format::{
    depth_storage_format, internal_format_from_depth, DepthFormat, Interpolation, Wrapping,
};
use crate::states::{ClearState, Viewport, WriteMask};
use crate::target::{
    cleared, clear, copied, copy, copy_error, Content, CopyDestination, CopySource,
};
use crate::texture::{bind_at, bound_at, generate, set_parameters, with_parameters};

verus! {

/// An array of depth targets as contracts see it.
pub struct DepthTargetTexture2DArrayView {
    pub id: u32,
    /// Name of the framebuffer object the layers are rendered through.
    pub framebuffer: u32,
    pub width: u32,
    pub height: u32,
    /// Number of layers.
    pub depth: u32,
}

impl DepthTargetTexture2DArrayView {
    /// `context` after layer `layer` has been attached to the draw
    /// framebuffer as its depth buffer.
    pub open spec fn attached(self, context: ContextView, layer: u32) -> ContextView {
        context.recorded(
            Command::FramebufferTextureLayer {
                target: consts::DRAW_FRAMEBUFFER,
                attachment: consts::DEPTH_ATTACHMENT,
                texture: self.id,
                level: 0,
                layer,
            },
        )
    }

    /// `context` when drawing into layer `layer` may start: the framebuffer
    /// is bound as the draw target with the layer as its depth buffer, and
    /// the layer's depth is cleared to `clear_state`, if that is a value.
    pub open spec fn begun(
        self,
        context: ContextView,
        layer: u32,
        clear_state: Option<u32>,
    ) -> ContextView {
        cleared(
            self.attached(
                context.recorded(
                    Command::BindFramebuffer {
                        target: consts::DRAW_FRAMEBUFFER,
                        framebuffer: self.framebuffer,
                    },
                ),
                layer,
            ),
            ClearState { depth: clear_state, ..ClearState::nothing() },
        )
    }

    /// Layer `layer` as the source of a copy.
    pub open spec fn source(self, layer: u32) -> CopySource {
        CopySource {
            texture: self.id,
            target: consts::TEXTURE_2D_ARRAY,
            layer,
            content: Content::Depth,
            width: self.width,
            height: self.height,
        }
    }

    /// Why layer `layer` cannot be copied to `destination` over `viewport`,
    /// if it cannot: the destination holds colour, which is reported
    /// whatever else holds, or the layer is not one of the texture's, or
    /// the viewport reaches outside the layer or the destination.
    pub open spec fn copy_error(
        self,
        layer: u32,
        destination: CopyDestination,
        viewport: Viewport,
    ) -> Option<Error> {
        if !destination.takes(Content::Depth) {
            Some(Error::FormatMismatch)
        } else if layer >= self.depth {
            Some(Error::OutOfBounds)
        } else {
            copy_error(self.source(layer), destination, viewport)
        }
    }

    /// `context` after the texture's names have been given back to the driver.
    pub open spec fn released(self, context: ContextView) -> ContextView {
        context.recorded(Command::DeleteFramebuffer { framebuffer: self.framebuffer }).recorded(
            Command::DeleteTexture { texture: self.id },
        )
    }
}

/// An array of 2D depth textures that can be rendered into.
#[derive(Debug)]
pub struct DepthTargetTexture2DArray {
    id: u32,
    framebuffer: u32,
    width: u32,
    height: u32,
    depth: u32,
}

impl View for DepthTargetTexture2DArray {
    type V = DepthTargetTexture2DArrayView;

    closed spec fn view(&self) -> DepthTargetTexture2DArrayView {
        DepthTargetTexture2DArrayView {
            id: self.id,
            framebuffer: self.framebuffer,
            width: self.width,
            height: self.height,
            depth: self.depth,
        }
    }
}

impl DepthTargetTexture2DArray {
    #[verifier::type_invariant]
    spec fn owns_its_names(self) -> bool {
        self.id != consts::NO_OBJECT && self.framebuffer != consts::NO_OBJECT
    }

    /// `context` after `new` has made `texture`: it is sampled without
    /// interpolation, and storage for the one level of every layer is
    /// reserved.
    pub open spec fn creating(
        context: ContextView,
        texture: DepthTargetTexture2DArrayView,
        wrap_s: Wrapping,
        wrap_t: Wrapping,
        format: DepthFormat,
    ) -> ContextView {
        with_parameters(
            context,
            texture.id,
            consts::TEXTURE_2D_ARRAY,
            Interpolation::Nearest,
            Interpolation::Nearest,
            None,
            wrap_s,
            wrap_t,
            None,
        ).recorded(
            Command::BindTexture { target: consts::TEXTURE_2D_ARRAY, texture: texture.id },
        ).recorded(
            Command::TexStorage3D {
                target: consts::TEXTURE_2D_ARRAY,
                levels: 1,
                internal_format: depth_storage_format(format),
                width: texture.width,
                height: texture.height,
                depth: texture.depth,
            },
        )
    }

    /// Makes an array of `depth` depth targets under the texture name
    /// `handle` and the framebuffer name `framebuffer`, which the driver has
    /// just handed out. It fails exactly when the driver refused one of the
    /// names, and has then recorded nothing; a name that was granted beside
    /// a refused one stays the caller's.
    ///
    /// The array keeps its framebuffer for its whole life. So `write` and
    /// `copy_to` ask the driver for nothing and cannot fail for want of a
    /// name; the price is the second name here.
    pub fn new(
        context: &mut Context,
        handle: u32,
        framebuffer: u32,
        width: u32,
        height: u32,
        depth: u32,
        wrap_s: Wrapping,
        wrap_t: Wrapping,
        format: DepthFormat,
    ) -> (result: Result<DepthTargetTexture2DArray, Error>)
        ensures
            match result {
                Ok(texture) => {
                    &&& handle != consts::NO_OBJECT
                    &&& framebuffer != consts::NO_OBJECT
                    &&& texture@ == (DepthTargetTexture2DArrayView {
                        id: handle,
                        framebuffer,
                        width,
                        height,
                        depth,
                    })
                    &&& final(context)@ == Self::creating(
                        old(context)@,
                        texture@,
                        wrap_s,
                        wrap_t,
                        format,
                    )
                },
                Err(error) => {
                    &&& handle == consts::NO_OBJECT || framebuffer == consts::NO_OBJECT
                    &&& error == Error::AllocationError
                    &&& final(context)@ == old(context)@
                },
            },
            final(context)@.bindings == old(context)@.bindings,
    {
        let id = generate(handle)?;
        let framebuffer = generate(framebuffer)?;
        set_parameters(
            context,
            id,
            consts::TEXTURE_2D_ARRAY,
            Interpolation::Nearest,
            Interpolation::Nearest,
            None,
            wrap_s,
            wrap_t,
            None,
        );
        context.record(Command::BindTexture { target: consts::TEXTURE_2D_ARRAY, texture: id });
        context.record(
            Command::TexStorage3D {
                target: consts::TEXTURE_2D_ARRAY,
                levels: 1,
                internal_format: internal_format_from_depth(format),
                width,
                height,
                depth,
            },
        );
        Ok(DepthTargetTexture2DArray { id, framebuffer, width, height, depth })
    }

    /// Binds the framebuffer as the draw target with layer `depth_layer` as
    /// its depth buffer and clears that layer's depth to `clear_state`, if
    /// that is a value. Returns the bindings as they were before.
    pub(crate) fn begin_write(
        &self,
        context: &mut Context,
        depth_layer: u32,
        clear_state: Option<u32>,
    ) -> (saved: Bindings)
        ensures
            saved == old(context)@.bindings,
            final(context)@ == self@.begun(old(context)@, depth_layer, clear_state),
    {
        let saved = context.bindings();
        context.record(
            Command::BindFramebuffer {
                target: consts::DRAW_FRAMEBUFFER,
                framebuffer: self.framebuffer,
            },
        );
        self.bind_as_depth_target(context, depth_layer);
        clear(
            context,
            &ClearState {
                red: None,
                green: None,
                blue: None,
                alpha: None,
                depth: clear_state,
                stencil: None,
            },
        );
        saved
    }

    /// Ends drawing into the texture: the bindings `saved` are put back.
    pub(crate) fn end_write(&self, context: &mut Context, saved: Bindings)
        ensures
            final(context)@ == old(context)@.restored(saved),
            final(context)@.bindings == saved,
    {
        context.restore(saved);
    }

    /// Clears the depth of layer `depth_layer` to `clear_state`, if that is
    /// a value, and writes the depth of what `render` draws into it. A layer
    /// the texture does not have is refused before anything is recorded or
    /// drawn. Otherwise, whatever `render` answers and whatever it has
    /// bound, the bindings are afterwards what they were before the call,
    /// and `render`'s answer is handed on.
    pub fn write<F: FnOnce(&mut Context) -> Result<(), Error>>(
        &self,
        context: &mut Context,
        depth_layer: u32,
        clear_state: Option<u32>,
        render: F,
    ) -> (result: Result<(), Error>)
        requires
            forall|c: &mut Context|
                c@ == self@.begun(old(context)@, depth_layer, clear_state)
                    ==> #[trigger] render.requires((c,)),
        ensures
            if depth_layer >= self@.depth {
                result == Err::<(), Error>(Error::OutOfBounds) && final(context)@ == old(context)@
            } else {
                exists|c: &mut Context|
                    {
                        &&& #[trigger] render.ensures((c,), result)
                        &&& c@ == self@.begun(old(context)@, depth_layer, clear_state)
                        &&& final(context)@ == final(c)@.restored(old(context)@.bindings)
                    }
            },
            final(context)@.bindings == old(context)@.bindings,
            replay(final(context)@.origin, final(context)@.commands) == old(context)@.bindings,
    {
        if depth_layer >= self.depth {
            proof {
                use_type_invariant(&*context);
            }
            return Err(Error::OutOfBounds);
        }
        let saved = self.begin_write(context, depth_layer, clear_state);
        let result = render(context);
        self.end_write(context, saved);
        proof {
            use_type_invariant(&*context);
        }
        result
    }

    /// Copies the part of layer `depth_layer` inside `viewport` to the same
    /// place in `destination`, changing depth only. A colour destination is
    /// refused.
    pub fn copy_to(
        &self,
        context: &mut Context,
        depth_layer: u32,
        destination: CopyDestination,
        viewport: Viewport,
    ) -> (result: Result<(), Error>)
        ensures
            match result {
                Ok(()) => {
                    &&& self@.copy_error(depth_layer, destination, viewport) is None
                    &&& final(context)@ == copied(
                        old(context)@,
                        self@.source(depth_layer),
                        destination,
                        viewport,
                        WriteMask::depth_only(),
                    )
                },
                Err(error) => {
                    &&& self@.copy_error(depth_layer, destination, viewport) == Some(error)
                    &&& final(context)@ == old(context)@
                },
            },
            destination is ColorTexture ==> result == Err::<(), Error>(Error::FormatMismatch),
            final(context)@.bindings == old(context)@.bindings,
    {
        if !destination.accepts(Content::Depth) {
            return Err(Error::FormatMismatch);
        }
        if depth_layer >= self.depth {
            return Err(Error::OutOfBounds);
        }
        let source = CopySource {
            texture: self.id,
            target: consts::TEXTURE_2D_ARRAY,
            layer: depth_layer,
            content: Content::Depth,
            width: self.width,
            height: self.height,
        };
        copy(context, source, destination, viewport, WriteMask::depth())
    }

    /// Attaches layer `layer` to the draw framebuffer as its depth buffer.
    pub fn bind_as_depth_target(&self, context: &mut Context, layer: u32)
        ensures
            final(context)@ == self@.attached(old(context)@, layer),
    {
        context.record(
            Command::FramebufferTextureLayer {
                target: consts::DRAW_FRAMEBUFFER,
                attachment: consts::DEPTH_ATTACHMENT,
                texture: self.id,
                level: 0,
                layer,
            },
        );
    }

    /// Binds the array to sampling unit `location` for the draws that follow.
    pub fn bind(&self, context: &mut Context, location: u32)
        requires
            consts::TEXTURE0 + location <= u32::MAX,
        ensures
            final(context)@ == bound_at(old(context)@, self@.id, consts::TEXTURE_2D_ARRAY, location),
    {
        bind_at(context, self.id, consts::TEXTURE_2D_ARRAY, location);
    }

    /// The names the array has with the driver, texture first; neither is
    /// the name of no object.
    pub fn names(&self) -> (names: (u32, u32))
        ensures
            names == (self@.id, self@.framebuffer),
            names.0 != consts::NO_OBJECT,
            names.1 != consts::NO_OBJECT,
    {
        proof {
            use_type_invariant(self);
        }
        (self.id, self.framebuffer)
    }

    pub fn width(&self) -> (width: u32)
        ensures
            width == self@.width,
    {
        self.width
    }

    pub fn height(&self) -> (height: u32)
        ensures
            height == self@.height,
    {
        self.height
    }

    /// Number of layers.
    pub fn depth(&self) -> (depth: u32)
        ensures
            depth == self@.depth,
    {
        self.depth
    }

    /// Ends the array's life: its framebuffer and its texture go back to
    /// the driver.
    pub fn release(self, context: &mut Context)
        ensures
            final(context)@ == self@.released(old(context)@),
    {
        context.record(Command::DeleteFramebuffer { framebuffer: self.framebuffer });
        context.record(Command::DeleteTexture { texture: self.id });
    }
}

} // verus!

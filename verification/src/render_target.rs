//! Render targets that combine a colour and a depth texture under a
//! framebuffer of their own.

use vstd::prelude::*;
use crate::color_target::{ColorTargetTexture2D, ColorTargetTexture2DView};
use crate::color_target_array::{
    all_layers_within, ColorTargetTexture2DArray, ColorTargetTexture2DArrayView,
};
use crate::consts;
use crate::context::{replay, Bindings, Command, Context, ContextView};
use crate::depth_target::{DepthTargetTexture2D, DepthTargetTexture2DView};
use crate::depth_target_array::{DepthTargetTexture2DArray, DepthTargetTexture2DArrayView};
use crate::error::Error;
use crate::states::ClearState;
use crate::target::{clear, cleared};
use crate::texture::{generate, with_mip_maps};

verus! {

/// The part of `clear_state` that applies to a target with or without a
/// colour and a depth attachment. No target here has a stencil buffer.
pub open spec fn applicable(clear_state: ClearState, color: bool, depth: bool) -> ClearState {
    ClearState {
        red: if color {
            clear_state.red
        } else {
            None
        },
        green: if color {
            clear_state.green
        } else {
            None
        },
        blue: if color {
            clear_state.blue
        } else {
            None
        },
        alpha: if color {
            clear_state.alpha
        } else {
            None
        },
        depth: if depth {
            clear_state.depth
        } else {
            None
        },
        stencil: None,
    }
}

/// The part of `clear_state` that a target with these attachments clears.
pub fn applicable_part(clear_state: &ClearState, color: bool, depth: bool) -> (part: ClearState)
    ensures
        part == applicable(*clear_state, color, depth),
{
    ClearState {
        red: if color {
            clear_state.red
        } else {
            None
        },
        green: if color {
            clear_state.green
        } else {
            None
        },
        blue: if color {
            clear_state.blue
        } else {
            None
        },
        alpha: if color {
            clear_state.alpha
        } else {
            None
        },
        depth: if depth {
            clear_state.depth
        } else {
            None
        },
        stencil: None,
    }
}

/// A render target as contracts see it.
pub struct RenderTargetView {
    pub framebuffer: u32,
    pub color_texture: Option<ColorTargetTexture2DView>,
    pub depth_texture: Option<DepthTargetTexture2DView>,
}

impl RenderTargetView {
    /// `context` after the target's framebuffer has been bound for drawing
    /// with its textures attached: the colour texture, where there is one,
    /// as the one colour output, the depth texture as the depth buffer.
    pub open spec fn bound(self, context: ContextView) -> ContextView {
        let framebuffer = context.recorded(
            Command::BindFramebuffer {
                target: consts::DRAW_FRAMEBUFFER,
                framebuffer: self.framebuffer,
            },
        );
        let color = match self.color_texture {
            Some(texture) => texture.attached(
                framebuffer.recorded(Command::DrawBuffers { count: 1 }),
                0,
            ),
            None => framebuffer,
        };
        match self.depth_texture {
            Some(texture) => texture.attached(color),
            None => color,
        }
    }

    /// `context` when drawing into the target may start: it is bound, and
    /// what it has attached is cleared.
    pub open spec fn begun(self, context: ContextView, clear_state: ClearState) -> ContextView {
        cleared(
            self.bound(context),
            applicable(clear_state, self.color_texture is Some, self.depth_texture is Some),
        )
    }

    /// `context` after drawing into the target has ended: where the drawing
    /// succeeded the colour texture's mip chain is rebuilt, and in either
    /// case the bindings `saved` are put back.
    pub open spec fn ended(self, context: ContextView, saved: Bindings, drawn: bool) -> ContextView {
        (match self.color_texture {
            Some(texture) if drawn => with_mip_maps(
                context,
                texture.id,
                consts::TEXTURE_2D,
                texture.number_of_mip_maps,
            ),
            _ => context,
        }).restored(saved)
    }
}

/// A colour texture, a depth texture or both, rendered into together
/// through a framebuffer that the target owns. The textures are borrowed for
/// as long as the target lives.
pub struct RenderTarget<'a> {
    framebuffer: u32,
    color_texture: Option<&'a ColorTargetTexture2D>,
    depth_texture: Option<&'a DepthTargetTexture2D>,
}

impl<'a> View for RenderTarget<'a> {
    type V = RenderTargetView;

    closed spec fn view(&self) -> RenderTargetView {
        RenderTargetView {
            framebuffer: self.framebuffer,
            color_texture: match self.color_texture {
                Some(texture) => Some(texture@),
                None => None,
            },
            depth_texture: match self.depth_texture {
                Some(texture) => Some(texture@),
                None => None,
            },
        }
    }
}

impl<'a> RenderTarget<'a> {
    #[verifier::type_invariant]
    spec fn owns_a_name(self) -> bool {
        self.framebuffer != consts::NO_OBJECT
    }

    /// A target for colour and depth under the framebuffer name
    /// `framebuffer`, which the driver has just handed out. It fails exactly
    /// when the driver refused the name.
    pub fn new(
        framebuffer: u32,
        color_texture: &'a ColorTargetTexture2D,
        depth_texture: &'a DepthTargetTexture2D,
    ) -> (result: Result<RenderTarget<'a>, Error>)
        ensures
            match result {
                Ok(target) => framebuffer != consts::NO_OBJECT && target@ == (RenderTargetView {
                    framebuffer,
                    color_texture: Some(color_texture@),
                    depth_texture: Some(depth_texture@),
                }),
                Err(error) => framebuffer == consts::NO_OBJECT && error == Error::AllocationError,
            },
    {
        let framebuffer = generate(framebuffer)?;
        Ok(
            RenderTarget {
                framebuffer,
                color_texture: Some(color_texture),
                depth_texture: Some(depth_texture),
            },
        )
    }

    /// A target for colour alone.
    pub fn new_color(framebuffer: u32, color_texture: &'a ColorTargetTexture2D) -> (result: Result<
        RenderTarget<'a>,
        Error,
    >)
        ensures
            match result {
                Ok(target) => framebuffer != consts::NO_OBJECT && target@ == (RenderTargetView {
                    framebuffer,
                    color_texture: Some(color_texture@),
                    depth_texture: None,
                }),
                Err(error) => framebuffer == consts::NO_OBJECT && error == Error::AllocationError,
            },
    {
        let framebuffer = generate(framebuffer)?;
        Ok(RenderTarget { framebuffer, color_texture: Some(color_texture), depth_texture: None })
    }

    /// A target for depth alone.
    pub fn new_depth(framebuffer: u32, depth_texture: &'a DepthTargetTexture2D) -> (result: Result<
        RenderTarget<'a>,
        Error,
    >)
        ensures
            match result {
                Ok(target) => framebuffer != consts::NO_OBJECT && target@ == (RenderTargetView {
                    framebuffer,
                    color_texture: None,
                    depth_texture: Some(depth_texture@),
                }),
                Err(error) => framebuffer == consts::NO_OBJECT && error == Error::AllocationError,
            },
    {
        let framebuffer = generate(framebuffer)?;
        Ok(RenderTarget { framebuffer, color_texture: None, depth_texture: Some(depth_texture) })
    }

    /// Binds the target's framebuffer for drawing and attaches its textures.
    pub fn bind(&self, context: &mut Context)
        ensures
            final(context)@ == self@.bound(old(context)@),
    {
        context.record(
            Command::BindFramebuffer {
                target: consts::DRAW_FRAMEBUFFER,
                framebuffer: self.framebuffer,
            },
        );
        if let Some(texture) = self.color_texture {
            context.record(Command::DrawBuffers { count: 1 });
            texture.bind_as_color_target(context, 0);
        }
        if let Some(texture) = self.depth_texture {
            texture.bind_as_depth_target(context);
        }
    }

    /// Clears what the target has attached as `clear_state` says and draws
    /// into it with `render`. Whatever `render` answers and whatever it has
    /// bound, the bindings are afterwards what they were before the call,
    /// and `render`'s answer is handed on.
    pub fn write<F: FnOnce(&mut Context) -> Result<(), Error>>(
        &self,
        context: &mut Context,
        clear_state: ClearState,
        render: F,
    ) -> (result: Result<(), Error>)
        requires
            forall|c: &mut Context|
                c@ == self@.begun(old(context)@, clear_state) ==> #[trigger] render.requires((c,)),
        ensures
            exists|c: &mut Context|
                {
                    &&& #[trigger] render.ensures((c,), result)
                    &&& c@ == self@.begun(old(context)@, clear_state)
                    &&& final(context)@ == self@.ended(
                        final(c)@,
                        old(context)@.bindings,
                        result is Ok,
                    )
                },
            final(context)@.bindings == old(context)@.bindings,
            replay(final(context)@.origin, final(context)@.commands) == old(context)@.bindings,
    {
        let saved = context.bindings();
        self.bind(context);
        clear(
            context,
            &applicable_part(
                &clear_state,
                self.color_texture.is_some(),
                self.depth_texture.is_some(),
            ),
        );
        let result = render(context);
        if result.is_ok() {
            if let Some(texture) = self.color_texture {
                texture.generate_mip_maps(context);
            }
        }
        context.restore(saved);
        proof {
            use_type_invariant(&*context);
        }
        result
    }

    /// The name the target's framebuffer has with the driver; never the
    /// name of no object.
    pub fn framebuffer(&self) -> (framebuffer: u32)
        ensures
            framebuffer == self@.framebuffer,
            framebuffer != consts::NO_OBJECT,
    {
        proof {
            use_type_invariant(self);
        }
        self.framebuffer
    }

    /// Ends the target's life: its framebuffer goes back to the driver. The
    /// textures live on.
    pub fn release(self, context: &mut Context)
        ensures
            final(context)@ == old(context)@.recorded(
                Command::DeleteFramebuffer { framebuffer: self@.framebuffer },
            ),
    {
        context.record(Command::DeleteFramebuffer { framebuffer: self.framebuffer });
    }
}

/// A render target over array textures as contracts see it.
pub struct RenderTargetArrayView {
    pub framebuffer: u32,
    pub color_texture: Option<ColorTargetTexture2DArrayView>,
    pub depth_texture: Option<DepthTargetTexture2DArrayView>,
}

impl RenderTargetArrayView {
    /// Why the layers cannot be rendered into together, if they cannot:
    /// there are more colour layers than colour outputs, or a layer is
    /// named that its texture does not have. Layers of a texture that the
    /// target lacks are not looked at.
    pub open spec fn write_error(self, color_layers: Seq<u32>, depth_layer: u32) -> Option<Error> {
        if (self.color_texture matches Some(texture) && texture.write_error(color_layers) is Some)
            || (self.depth_texture matches Some(texture) && depth_layer >= texture.depth) {
            Some(Error::OutOfBounds)
        } else {
            None
        }
    }

    /// `context` after the target's framebuffer has been bound for drawing
    /// with the layers attached: colour output `i` goes to `color_layers[i]`
    /// and depth to `depth_layer`, each where the target has the texture.
    pub open spec fn bound(
        self,
        context: ContextView,
        color_layers: Seq<u32>,
        depth_layer: u32,
    ) -> ContextView {
        let framebuffer = context.recorded(
            Command::BindFramebuffer {
                target: consts::DRAW_FRAMEBUFFER,
                framebuffer: self.framebuffer,
            },
        );
        let color = match self.color_texture {
            Some(texture) => texture.layers_attached(
                framebuffer.recorded(Command::DrawBuffers { count: color_layers.len() as u32 }),
                color_layers,
                color_layers.len(),
            ),
            None => framebuffer,
        };
        match self.depth_texture {
            Some(texture) => texture.attached(color, depth_layer),
            None => color,
        }
    }

    /// `context` when drawing into the layers may start: they are bound, and
    /// what the target has attached is cleared.
    pub open spec fn begun(
        self,
        context: ContextView,
        color_layers: Seq<u32>,
        depth_layer: u32,
        clear_state: ClearState,
    ) -> ContextView {
        cleared(
            self.bound(context, color_layers, depth_layer),
            applicable(clear_state, self.color_texture is Some, self.depth_texture is Some),
        )
    }

    /// `context` after drawing into the target has ended: where the drawing
    /// succeeded the colour texture's mip chain is rebuilt, and in either
    /// case the bindings `saved` are put back.
    pub open spec fn ended(self, context: ContextView, saved: Bindings, drawn: bool) -> ContextView {
        (match self.color_texture {
            Some(texture) if drawn => with_mip_maps(
                context,
                texture.id,
                consts::TEXTURE_2D_ARRAY,
                texture.number_of_mip_maps,
            ),
            _ => context,
        }).restored(saved)
    }
}

/// Layers of a colour array, of a depth array or of both, rendered into
/// together through a framebuffer that the target owns.
pub struct RenderTargetArray<'a> {
    framebuffer: u32,
    color_texture: Option<&'a ColorTargetTexture2DArray>,
    depth_texture: Option<&'a DepthTargetTexture2DArray>,
}

impl<'a> View for RenderTargetArray<'a> {
    type V = RenderTargetArrayView;

    closed spec fn view(&self) -> RenderTargetArrayView {
        RenderTargetArrayView {
            framebuffer: self.framebuffer,
            color_texture: match self.color_texture {
                Some(texture) => Some(texture@),
                None => None,
            },
            depth_texture: match self.depth_texture {
                Some(texture) => Some(texture@),
                None => None,
            },
        }
    }
}

impl<'a> RenderTargetArray<'a> {
    #[verifier::type_invariant]
    spec fn owns_a_name(self) -> bool {
        self.framebuffer != consts::NO_OBJECT
    }

    /// A target for colour and depth layers under the framebuffer name
    /// `framebuffer`, which the driver has just handed out. It fails exactly
    /// when the driver refused the name.
    pub fn new(
        framebuffer: u32,
        color_texture: &'a ColorTargetTexture2DArray,
        depth_texture: &'a DepthTargetTexture2DArray,
    ) -> (result: Result<RenderTargetArray<'a>, Error>)
        ensures
            match result {
                Ok(target) => framebuffer != consts::NO_OBJECT && target@
                    == (RenderTargetArrayView {
                    framebuffer,
                    color_texture: Some(color_texture@),
                    depth_texture: Some(depth_texture@),
                }),
                Err(error) => framebuffer == consts::NO_OBJECT && error == Error::AllocationError,
            },
    {
        let framebuffer = generate(framebuffer)?;
        Ok(
            RenderTargetArray {
                framebuffer,
                color_texture: Some(color_texture),
                depth_texture: Some(depth_texture),
            },
        )
    }

    /// A target for colour layers alone.
    pub fn new_color(framebuffer: u32, color_texture: &'a ColorTargetTexture2DArray) -> (result:
        Result<RenderTargetArray<'a>, Error>)
        ensures
            match result {
                Ok(target) => framebuffer != consts::NO_OBJECT && target@
                    == (RenderTargetArrayView {
                    framebuffer,
                    color_texture: Some(color_texture@),
                    depth_texture: None,
                }),
                Err(error) => framebuffer == consts::NO_OBJECT && error == Error::AllocationError,
            },
    {
        let framebuffer = generate(framebuffer)?;
        Ok(RenderTargetArray { framebuffer, color_texture: Some(color_texture), depth_texture: None })
    }

    /// A target for depth layers alone.
    pub fn new_depth(framebuffer: u32, depth_texture: &'a DepthTargetTexture2DArray) -> (result:
        Result<RenderTargetArray<'a>, Error>)
        ensures
            match result {
                Ok(target) => framebuffer != consts::NO_OBJECT && target@
                    == (RenderTargetArrayView {
                    framebuffer,
                    color_texture: None,
                    depth_texture: Some(depth_texture@),
                }),
                Err(error) => framebuffer == consts::NO_OBJECT && error == Error::AllocationError,
            },
    {
        let framebuffer = generate(framebuffer)?;
        Ok(RenderTargetArray { framebuffer, color_texture: None, depth_texture: Some(depth_texture) })
    }

    /// Clears the layers as `clear_state` says and draws into them with
    /// `render`: colour output `i` goes to layer `color_layers[i]`, depth to
    /// layer `depth_layer`. More colour layers than there are colour
    /// outputs, or a layer that its texture does not have, are refused
    /// before anything is recorded or drawn. Otherwise, whatever `render`
    /// answers and whatever it has bound, the bindings are afterwards what
    /// they were before the call, and `render`'s answer is handed on.
    pub fn write<F: FnOnce(&mut Context) -> Result<(), Error>>(
        &self,
        context: &mut Context,
        color_layers: &[u32],
        depth_layer: u32,
        clear_state: ClearState,
        render: F,
    ) -> (result: Result<(), Error>)
        requires
            forall|c: &mut Context|
                c@ == self@.begun(old(context)@, color_layers@, depth_layer, clear_state)
                    ==> #[trigger] render.requires((c,)),
        ensures
            match self@.write_error(color_layers@, depth_layer) {
                Some(error) => result == Err::<(), Error>(error) && final(context)@ == old(context)@,
                None => exists|c: &mut Context|
                    {
                        &&& #[trigger] render.ensures((c,), result)
                        &&& c@ == self@.begun(
                            old(context)@,
                            color_layers@,
                            depth_layer,
                            clear_state,
                        )
                        &&& final(context)@ == self@.ended(
                            final(c)@,
                            old(context)@.bindings,
                            result is Ok,
                        )
                    },
            },
            final(context)@.bindings == old(context)@.bindings,
            replay(final(context)@.origin, final(context)@.commands) == old(context)@.bindings,
    {
        proof {
            use_type_invariant(&*context);
        }
        if let Some(texture) = self.color_texture {
            if color_layers.len() > consts::MAX_COLOR_ATTACHMENTS as usize || !all_layers_within(
                color_layers,
                texture.depth(),
            ) {
                return Err(Error::OutOfBounds);
            }
        }
        if let Some(texture) = self.depth_texture {
            if depth_layer >= texture.depth() {
                return Err(Error::OutOfBounds);
            }
        }
        let saved = context.bindings();
        context.record(
            Command::BindFramebuffer {
                target: consts::DRAW_FRAMEBUFFER,
                framebuffer: self.framebuffer,
            },
        );
        if let Some(texture) = self.color_texture {
            context.record(Command::DrawBuffers { count: color_layers.len() as u32 });
            texture.bind_layers_as_color_targets(context, color_layers);
        }
        if let Some(texture) = self.depth_texture {
            texture.bind_as_depth_target(context, depth_layer);
        }
        clear(
            context,
            &applicable_part(
                &clear_state,
                self.color_texture.is_some(),
                self.depth_texture.is_some(),
            ),
        );
        let result = render(context);
        if result.is_ok() {
            if let Some(texture) = self.color_texture {
                texture.generate_mip_maps(context);
            }
        }
        context.restore(saved);
        proof {
            use_type_invariant(&*context);
        }
        result
    }

    /// The name the target's framebuffer has with the driver; never the
    /// name of no object.
    pub fn framebuffer(&self) -> (framebuffer: u32)
        ensures
            framebuffer == self@.framebuffer,
            framebuffer != consts::NO_OBJECT,
    {
        proof {
            use_type_invariant(self);
        }
        self.framebuffer
    }

    /// Ends the target's life: its framebuffer goes back to the driver. The
    /// textures live on.
    pub fn release(self, context: &mut Context)
        ensures
            final(context)@ == old(context)@.recorded(
                Command::DeleteFramebuffer { framebuffer: self@.framebuffer },
            ),
    {
        context.record(Command::DeleteFramebuffer { framebuffer: self.framebuffer });
    }
}

} // verus!

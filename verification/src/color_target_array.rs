//! Arrays of 2D colour render targets.

use vstd::prelude::*;
use crate::consts;
use crate::context::{replay, Bindings, Command, Context, ContextView};
use crate::error::Error;
use crate::format::{internal_format, native_format, ElementType, Format, Interpolation, Wrapping};
use crate::mip::{calculate_number_of_mip_maps, mip_level_count};
use crate::states::{ClearState, Viewport, WriteMask};
use crate::target::{
    cleared, clear, copied, copy, copy_error, Content, CopyDestination, CopySource,
};
use crate::texture::{
    bind_at, bound_at, effective_mip_filter, generate, regenerate_mip_maps, set_parameters,
    with_mip_maps, with_parameters,
};

verus! {

/// Whether every layer in `layers` is a layer of a texture `depth` layers deep.
pub open spec fn layers_within(layers: Seq<u32>, depth: u32) -> bool {
    forall|i: int| 0 <= i < layers.len() ==> #[trigger] layers[i] < depth
}

/// Tells whether every layer in `layers` is below `depth`.
pub fn all_layers_within(layers: &[u32], depth: u32) -> (within: bool)
    ensures
        within == layers_within(layers@, depth),
{
    let mut i: usize = 0;
    while i < layers.len()
        invariant
            i <= layers@.len(),
            forall|j: int| 0 <= j < i ==> #[trigger] layers@[j] < depth,
        decreases layers@.len() - i,
    {
        if layers[i] >= depth {
            return false;
        }
        i += 1;
    }
    true
}

/// An array of colour targets as contracts see it.
pub struct ColorTargetTexture2DArrayView {
    pub id: u32,
    /// Name of the framebuffer object the layers are rendered through.
    pub framebuffer: u32,
    pub width: u32,
    pub height: u32,
    /// Number of layers.
    pub depth: u32,
    pub number_of_mip_maps: u32,
    /// What one element of the layers is.
    pub element: ElementType,
}

impl ColorTargetTexture2DArrayView {
    /// `context` after layer `layer` has been attached to the draw
    /// framebuffer as colour output `channel`.
    pub open spec fn attached(self, context: ContextView, layer: u32, channel: u32) -> ContextView {
        context.recorded(
            Command::FramebufferTextureLayer {
                target: consts::DRAW_FRAMEBUFFER,
                attachment: (consts::COLOR_ATTACHMENT0 + channel) as u32,
                texture: self.id,
                level: 0,
                layer,
            },
        )
    }

    /// `context` after the first `count` of `layers` have been attached,
    /// each as the colour output of its position in `layers`.
    pub open spec fn layers_attached(
        self,
        context: ContextView,
        layers: Seq<u32>,
        count: nat,
    ) -> ContextView
        decreases count,
    {
        if count == 0 {
            context
        } else {
            self.attached(
                self.layers_attached(context, layers, (count - 1) as nat),
                layers[count - 1],
                (count - 1) as u32,
            )
        }
    }

    /// Why `layers` cannot be rendered into together, if they cannot: there
    /// are more of them than colour outputs, or one is not a layer of the
    /// texture.
    pub open spec fn write_error(self, layers: Seq<u32>) -> Option<Error> {
        if layers.len() > consts::MAX_COLOR_ATTACHMENTS || !layers_within(layers, self.depth) {
            Some(Error::OutOfBounds)
        } else {
            None
        }
    }

    /// `context` when drawing into `layers` may start: the framebuffer is
    /// bound as the draw target, output `i` goes to `layers[i]`, and the
    /// colour of those layers is cleared.
    pub open spec fn begun(
        self,
        context: ContextView,
        layers: Seq<u32>,
        clear_state: ClearState,
    ) -> ContextView {
        cleared(
            self.layers_attached(
                context.recorded(
                    Command::BindFramebuffer {
                        target: consts::DRAW_FRAMEBUFFER,
                        framebuffer: self.framebuffer,
                    },
                ).recorded(Command::DrawBuffers { count: layers.len() as u32 }),
                layers,
                layers.len(),
            ),
            clear_state.color_part(),
        )
    }

    /// `context` after drawing into the texture has ended: where the
    /// drawing succeeded the mip chain is rebuilt, and in either case the
    /// bindings `saved` are put back.
    pub open spec fn ended(self, context: ContextView, saved: Bindings, drawn: bool) -> ContextView {
        (if drawn {
            with_mip_maps(context, self.id, consts::TEXTURE_2D_ARRAY, self.number_of_mip_maps)
        } else {
            context
        }).restored(saved)
    }

    /// Layer `layer` as the source of a copy.
    pub open spec fn source(self, layer: u32) -> CopySource {
        CopySource {
            texture: self.id,
            target: consts::TEXTURE_2D_ARRAY,
            layer,
            content: Content::Color(self.element),
            width: self.width,
            height: self.height,
        }
    }

    /// Why layer `layer` cannot be copied to `destination` over `viewport`,
    /// if it cannot: the destination holds depth or colour of another
    /// element type, which is reported whatever else holds, or the layer is not one of the texture's, or
    /// the viewport reaches outside the layer or the destination.
    pub open spec fn copy_error(
        self,
        layer: u32,
        destination: CopyDestination,
        viewport: Viewport,
    ) -> Option<Error> {
        if !destination.takes(Content::Color(self.element)) {
            Some(Error::FormatMismatch)
        } else if layer >= self.depth {
            Some(Error::OutOfBounds)
        } else {
            copy_error(self.source(layer), destination, viewport)
        }
    }

    /// `context` after the texture's names have been given back to the driver.
    pub open spec fn released(self, context: ContextView) -> ContextView {
        context.recorded(Command::DeleteFramebuffer { framebuffer: self.framebuffer }).recorded(
            Command::DeleteTexture { texture: self.id },
        )
    }
}

/// An array of 2D colour textures that can be rendered into.
#[derive(Debug)]
pub struct ColorTargetTexture2DArray {
    id: u32,
    framebuffer: u32,
    width: u32,
    height: u32,
    depth: u32,
    number_of_mip_maps: u32,
    element: ElementType,
}

impl View for ColorTargetTexture2DArray {
    type V = ColorTargetTexture2DArrayView;

    closed spec fn view(&self) -> ColorTargetTexture2DArrayView {
        ColorTargetTexture2DArrayView {
            id: self.id,
            framebuffer: self.framebuffer,
            width: self.width,
            height: self.height,
            depth: self.depth,
            number_of_mip_maps: self.number_of_mip_maps,
            element: self.element,
        }
    }
}

impl ColorTargetTexture2DArray {
    #[verifier::type_invariant]
    spec fn owns_its_names(self) -> bool {
        &&& self.id != consts::NO_OBJECT
        &&& self.framebuffer != consts::NO_OBJECT
        &&& self.number_of_mip_maps >= 1
    }

    /// Why an array of this format cannot be made under the names `handle`
    /// and `framebuffer`, if it cannot: the driver refused one of the names,
    /// or it has no storage format for the texels.
    pub open spec fn creation_error(
        handle: u32,
        framebuffer: u32,
        format: Format,
        element: ElementType,
    ) -> Option<Error> {
        if handle == consts::NO_OBJECT || framebuffer == consts::NO_OBJECT {
            Some(Error::AllocationError)
        } else if native_format(format, element) is None {
            Some(Error::UnsupportedFormat { format, element })
        } else {
            None
        }
    }

    /// `context` after the sampler parameters of `texture` have been set and
    /// the texture has been bound for the storage call. A mip filter is
    /// passed on only where the texture has more than its base level.
    pub open spec fn configured(
        context: ContextView,
        texture: ColorTargetTexture2DArrayView,
        min_filter: Interpolation,
        mag_filter: Interpolation,
        mip_map_filter: Option<Interpolation>,
        wrap_s: Wrapping,
        wrap_t: Wrapping,
    ) -> ContextView {
        with_parameters(
            context,
            texture.id,
            consts::TEXTURE_2D_ARRAY,
            min_filter,
            mag_filter,
            effective_mip_filter(texture.number_of_mip_maps, mip_map_filter),
            wrap_s,
            wrap_t,
            None,
        ).recorded(Command::BindTexture { target: consts::TEXTURE_2D_ARRAY, texture: texture.id })
    }

    /// `context` after `new` has made `texture`: its sampler parameters are
    /// set and storage for all levels of all layers is reserved.
    pub open spec fn creating(
        context: ContextView,
        texture: ColorTargetTexture2DArrayView,
        min_filter: Interpolation,
        mag_filter: Interpolation,
        mip_map_filter: Option<Interpolation>,
        wrap_s: Wrapping,
        wrap_t: Wrapping,
        format: Format,
    ) -> ContextView {
        Self::configured(
            context,
            texture,
            min_filter,
            mag_filter,
            mip_map_filter,
            wrap_s,
            wrap_t,
        ).recorded(
            Command::TexStorage3D {
                target: consts::TEXTURE_2D_ARRAY,
                levels: texture.number_of_mip_maps,
                internal_format: native_format(format, texture.element)->Some_0,
                width: texture.width,
                height: texture.height,
                depth: texture.depth,
            },
        )
    }

    /// The array that `new` makes, or would have made had it not refused.
    pub open spec fn created(
        handle: u32,
        framebuffer: u32,
        width: u32,
        height: u32,
        depth: u32,
        mip_map_filter: Option<Interpolation>,
        element: ElementType,
    ) -> ColorTargetTexture2DArrayView {
        ColorTargetTexture2DArrayView {
            id: handle,
            framebuffer,
            width,
            height,
            depth,
            number_of_mip_maps: mip_level_count(mip_map_filter, width, height, depth) as u32,
            element,
        }
    }

    /// Makes an array of `depth` colour targets under the texture name
    /// `handle` and the framebuffer name `framebuffer`, which the driver has
    /// just handed out.
    ///
    /// The array keeps its framebuffer for its whole life. So `write` and
    /// `copy_to` ask the driver for nothing and cannot fail for want of a
    /// name; the price is the second name here, and `AllocationError` when
    /// either of the two is refused.
    ///
    /// Where a name is refused nothing is recorded. The sampler parameters
    /// are set and the texture is bound before the storage format is
    /// negotiated, so those calls stay recorded where the driver has no
    /// storage format. The names of an array that was not made stay the
    /// caller's.
    pub fn new(
        context: &mut Context,
        handle: u32,
        framebuffer: u32,
        width: u32,
        height: u32,
        depth: u32,
        min_filter: Interpolation,
        mag_filter: Interpolation,
        mip_map_filter: Option<Interpolation>,
        wrap_s: Wrapping,
        wrap_t: Wrapping,
        format: Format,
        element: ElementType,
    ) -> (result: Result<ColorTargetTexture2DArray, Error>)
        ensures
            match result {
                Ok(texture) => {
                    &&& Self::creation_error(handle, framebuffer, format, element) is None
                    &&& texture@ == Self::created(
                        handle,
                        framebuffer,
                        width,
                        height,
                        depth,
                        mip_map_filter,
                        element,
                    )
                    &&& final(context)@ == Self::creating(
                        old(context)@,
                        texture@,
                        min_filter,
                        mag_filter,
                        mip_map_filter,
                        wrap_s,
                        wrap_t,
                        format,
                    )
                },
                Err(error) => {
                    &&& Self::creation_error(handle, framebuffer, format, element) == Some(error)
                    &&& final(context)@ == if error == Error::AllocationError {
                        old(context)@
                    } else {
                        Self::configured(
                            old(context)@,
                            Self::created(
                                handle,
                                framebuffer,
                                width,
                                height,
                                depth,
                                mip_map_filter,
                                element,
                            ),
                            min_filter,
                            mag_filter,
                            mip_map_filter,
                            wrap_s,
                            wrap_t,
                        )
                    }
                },
            },
            final(context)@.bindings == old(context)@.bindings,
    {
        let id = generate(handle)?;
        let framebuffer = generate(framebuffer)?;
        let number_of_mip_maps = calculate_number_of_mip_maps(mip_map_filter, width, height, depth);
        set_parameters(
            context,
            id,
            consts::TEXTURE_2D_ARRAY,
            min_filter,
            mag_filter,
            if number_of_mip_maps == 1 {
                None
            } else {
                mip_map_filter
            },
            wrap_s,
            wrap_t,
            None,
        );
        context.record(Command::BindTexture { target: consts::TEXTURE_2D_ARRAY, texture: id });
        let storage = internal_format(format, element)?;
        context.record(
            Command::TexStorage3D {
                target: consts::TEXTURE_2D_ARRAY,
                levels: number_of_mip_maps,
                internal_format: storage,
                width,
                height,
                depth,
            },
        );
        Ok(
            ColorTargetTexture2DArray {
                id,
                framebuffer,
                width,
                height,
                depth,
                number_of_mip_maps,
                element,
            },
        )
    }

    /// Binds the framebuffer as the draw target, routes colour output `i`
    /// to layer `color_layers[i]` and clears the colour of those layers.
    /// Returns the bindings as they were before.
    pub(crate) fn begin_write(
        &self,
        context: &mut Context,
        color_layers: &[u32],
        clear_state: ClearState,
    ) -> (saved: Bindings)
        requires
            color_layers@.len() <= consts::MAX_COLOR_ATTACHMENTS,
        ensures
            saved == old(context)@.bindings,
            final(context)@ == self@.begun(old(context)@, color_layers@, clear_state),
    {
        let saved = context.bindings();
        let count = color_layers.len();
        context.record(
            Command::BindFramebuffer {
                target: consts::DRAW_FRAMEBUFFER,
                framebuffer: self.framebuffer,
            },
        );
        context.record(Command::DrawBuffers { count: count as u32 });
        self.bind_layers_as_color_targets(context, color_layers);
        clear(context, &clear_state.only_color());
        saved
    }

    /// Attaches the layers in `color_layers` to the draw framebuffer, each
    /// as the colour output of its position.
    pub fn bind_layers_as_color_targets(&self, context: &mut Context, color_layers: &[u32])
        requires
            color_layers@.len() <= consts::MAX_COLOR_ATTACHMENTS,
        ensures
            final(context)@ == self@.layers_attached(
                old(context)@,
                color_layers@,
                color_layers@.len(),
            ),
    {
        let count = color_layers.len();
        let mut channel: usize = 0;
        while channel < count
            invariant
                channel <= count,
                count == color_layers@.len(),
                count <= consts::MAX_COLOR_ATTACHMENTS,
                context@ == self@.layers_attached(old(context)@, color_layers@, channel as nat),
            decreases count - channel,
        {
            self.bind_as_color_target(context, color_layers[channel], channel as u32);
            channel += 1;
        }
    }

    /// Ends drawing into the texture: after a drawing that succeeded the
    /// mip chain is rebuilt, and in either case the bindings `saved` are put
    /// back.
    pub(crate) fn end_write(&self, context: &mut Context, saved: Bindings, drawn: bool)
        ensures
            final(context)@ == self@.ended(old(context)@, saved, drawn),
            final(context)@.bindings == saved,
    {
        if drawn {
            self.generate_mip_maps(context);
        }
        context.restore(saved);
    }

    /// Clears the colour of the layers in `color_layers` and draws into
    /// them with `render`: colour output `i` of the drawing goes to layer
    /// `color_layers[i]`. More layers than there are colour outputs, or a
    /// layer the texture does not have, are refused before anything is
    /// recorded or drawn. Otherwise, whatever `render` answers and whatever
    /// it has bound, the bindings are afterwards what they were before the
    /// call, and `render`'s answer is handed on.
    pub fn write<F: FnOnce(&mut Context) -> Result<(), Error>>(
        &self,
        context: &mut Context,
        color_layers: &[u32],
        clear_state: ClearState,
        render: F,
    ) -> (result: Result<(), Error>)
        requires
            forall|c: &mut Context|
                c@ == self@.begun(old(context)@, color_layers@, clear_state)
                    ==> #[trigger] render.requires((c,)),
        ensures
            match self@.write_error(color_layers@) {
                Some(error) => result == Err::<(), Error>(error) && final(context)@ == old(context)@,
                None => exists|c: &mut Context|
                    {
                        &&& #[trigger] render.ensures((c,), result)
                        &&& c@ == self@.begun(old(context)@, color_layers@, clear_state)
                        &&& final(context)@ == self@.ended(
                            final(c)@,
                            old(context)@.bindings,
                            result is Ok,
                        )
                    },
            },
            final(context)@.bindings == old(context)@.bindings,
            replay(final(context)@.origin, final(context)@.commands) == old(context)@.bindings,
    {
        if color_layers.len() > consts::MAX_COLOR_ATTACHMENTS as usize || !all_layers_within(
            color_layers,
            self.depth,
        ) {
            proof {
                use_type_invariant(&*context);
            }
            return Err(Error::OutOfBounds);
        }
        let saved = self.begin_write(context, color_layers, clear_state);
        let result = render(context);
        self.end_write(context, saved, result.is_ok());
        proof {
            use_type_invariant(&*context);
        }
        result
    }

    /// Copies the part of layer `color_layer` inside `viewport` to the same
    /// place in `destination`, changing only the channels that `write_mask`
    /// selects. A depth destination is refused, and so is a colour texture
    /// of another element type.
    pub fn copy_to(
        &self,
        context: &mut Context,
        color_layer: u32,
        destination: CopyDestination,
        viewport: Viewport,
        write_mask: WriteMask,
    ) -> (result: Result<(), Error>)
        ensures
            match result {
                Ok(()) => {
                    &&& self@.copy_error(color_layer, destination, viewport) is None
                    &&& final(context)@ == copied(
                        old(context)@,
                        self@.source(color_layer),
                        destination,
                        viewport,
                        write_mask,
                    )
                },
                Err(error) => {
                    &&& self@.copy_error(color_layer, destination, viewport) == Some(error)
                    &&& final(context)@ == old(context)@
                },
            },
            destination is DepthTexture ==> result == Err::<(), Error>(Error::FormatMismatch),
            destination matches CopyDestination::ColorTexture(other) && other@.element
                != self@.element ==> result == Err::<(), Error>(Error::FormatMismatch),
            final(context)@.bindings == old(context)@.bindings,
    {
        if !destination.accepts(Content::Color(self.element)) {
            return Err(Error::FormatMismatch);
        }
        if color_layer >= self.depth {
            return Err(Error::OutOfBounds);
        }
        let source = CopySource {
            texture: self.id,
            target: consts::TEXTURE_2D_ARRAY,
            layer: color_layer,
            content: Content::Color(self.element),
            width: self.width,
            height: self.height,
        };
        copy(context, source, destination, viewport, write_mask)
    }

    /// Rebuilds the mip chain from the base level, if there is a chain.
    pub fn generate_mip_maps(&self, context: &mut Context)
        ensures
            final(context)@ == with_mip_maps(
                old(context)@,
                self@.id,
                consts::TEXTURE_2D_ARRAY,
                self@.number_of_mip_maps,
            ),
    {
        regenerate_mip_maps(context, self.id, consts::TEXTURE_2D_ARRAY, self.number_of_mip_maps);
    }

    /// Attaches layer `layer` to the draw framebuffer as colour output `channel`.
    pub fn bind_as_color_target(&self, context: &mut Context, layer: u32, channel: u32)
        requires
            channel < consts::MAX_COLOR_ATTACHMENTS,
        ensures
            final(context)@ == self@.attached(old(context)@, layer, channel),
    {
        context.record(
            Command::FramebufferTextureLayer {
                target: consts::DRAW_FRAMEBUFFER,
                attachment: consts::COLOR_ATTACHMENT0 + channel,
                texture: self.id,
                level: 0,
                layer,
            },
        );
    }

    /// Binds the array to sampling unit `location` for the draws that follow.
    pub fn bind(&self, context: &mut Context, location: u32)
        requires
            consts::TEXTURE0 + location <= u32::MAX,
        ensures
            final(context)@ == bound_at(old(context)@, self@.id, consts::TEXTURE_2D_ARRAY, location),
    {
        bind_at(context, self.id, consts::TEXTURE_2D_ARRAY, location);
    }

    /// The names the array has with the driver, texture first; neither is
    /// the name of no object.
    pub fn names(&self) -> (names: (u32, u32))
        ensures
            names == (self@.id, self@.framebuffer),
            names.0 != consts::NO_OBJECT,
            names.1 != consts::NO_OBJECT,
    {
        proof {
            use_type_invariant(self);
        }
        (self.id, self.framebuffer)
    }

    pub fn width(&self) -> (width: u32)
        ensures
            width == self@.width,
    {
        self.width
    }

    pub fn height(&self) -> (height: u32)
        ensures
            height == self@.height,
    {
        self.height
    }

    /// What one element of the layers is.
    pub fn element(&self) -> (element: ElementType)
        ensures
            element == self@.element,
    {
        self.element
    }

    /// Number of layers.
    pub fn depth(&self) -> (depth: u32)
        ensures
            depth == self@.depth,
    {
        self.depth
    }

    /// Ends the array's life: its framebuffer and its texture go back to
    /// the driver.
    pub fn release(self, context: &mut Context)
        ensures
            final(context)@ == self@.released(old(context)@),
    {
        context.record(Command::DeleteFramebuffer { framebuffer: self.framebuffer });
        context.record(Command::DeleteTexture { texture: self.id });
    }
}

} // verus!

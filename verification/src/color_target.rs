//! 2D colour render targets.

use vstd::prelude::*;
use crate::consts;
use crate::context::{replay, Bindings, Command, Context, ContextView};
use crate::error::Error;
use crate::format::{
    internal_format, native_format, transfer_format, ElementType, Format, Interpolation, Wrapping,
};
use crate::mip::{calculate_number_of_mip_maps, mip_level_count};
use crate::pixels::{PixelData, PixelSeq};
use crate::states::{ClearState, Viewport, WriteMask};
use crate::target::{
    cleared, clear, copied, copy, copy_error, Content, CopyDestination, CopySource,
};
use crate::texture::{
    bind_at, bound_at, effective_mip_filter, expected_length, generate, regenerate_mip_maps,
    set_parameters, with_mip_maps, with_parameters,
};

verus! {

/// A 2D colour target as contracts see it.
pub struct ColorTargetTexture2DView {
    pub id: u32,
    /// Name of the framebuffer object the texture is rendered through.
    pub framebuffer: u32,
    pub width: u32,
    pub height: u32,
    pub number_of_mip_maps: u32,
    pub format: Format,
    pub element: ElementType,
}

impl ColorTargetTexture2DView {
    /// `context` after the texture has been attached to the draw
    /// framebuffer as colour output `channel`.
    pub open spec fn attached(self, context: ContextView, channel: u32) -> ContextView {
        context.recorded(
            Command::FramebufferTexture2D {
                target: consts::FRAMEBUFFER,
                attachment: (consts::COLOR_ATTACHMENT0 + channel) as u32,
                texture_target: consts::TEXTURE_2D,
                texture: self.id,
                level: 0,
            },
        )
    }

    /// `context` after the texture's framebuffer has been bound to `target`
    /// with the texture as its one colour output.
    pub open spec fn bound(self, context: ContextView, target: u32) -> ContextView {
        self.attached(
            context.recorded(Command::BindFramebuffer { target, framebuffer: self.framebuffer })
                .recorded(Command::DrawBuffers { count: 1 }),
            0,
        )
    }

    /// `context` when drawing into the texture may start: it is bound as
    /// the draw target and its colour is cleared.
    pub open spec fn begun(self, context: ContextView, clear_state: ClearState) -> ContextView {
        cleared(self.bound(context, consts::DRAW_FRAMEBUFFER), clear_state.color_part())
    }

    /// `context` after drawing into the texture has ended: where the
    /// drawing succeeded the mip chain is rebuilt, and in either case the
    /// bindings `saved` are put back.
    pub open spec fn ended(self, context: ContextView, saved: Bindings, drawn: bool) -> ContextView {
        (if drawn {
            with_mip_maps(context, self.id, consts::TEXTURE_2D, self.number_of_mip_maps)
        } else {
            context
        }).restored(saved)
    }

    /// Why the texels inside `viewport` cannot be read, if they cannot: the
    /// format is not RGBA, which is reported whatever the viewport is, or
    /// the viewport reaches outside the texture or holds more elements than
    /// a buffer can.
    pub open spec fn read_error(self, viewport: Viewport) -> Option<Error> {
        if self.format != Format::RGBA {
            Some(Error::UnsupportedReadFormat)
        } else if !viewport.fits(self.width, self.height) || viewport.texel_count() * 4
            > usize::MAX {
            Some(Error::OutOfBounds)
        } else {
            None
        }
    }

    /// `context` after a read of `viewport`: the texture is bound for
    /// drawing and for reading, the read is recorded, and the bindings are
    /// put back to what they were.
    pub open spec fn read_from(self, context: ContextView, viewport: Viewport) -> ContextView {
        self.bound(self.bound(context, consts::DRAW_FRAMEBUFFER), consts::READ_FRAMEBUFFER).recorded(
            Command::ReadPixels {
                x: viewport.x,
                y: viewport.y,
                width: viewport.width,
                height: viewport.height,
                format: transfer_format(self.format),
                data_type: self.element.transfer_type(),
            },
        ).restored(context.bindings)
    }

    /// The texture as the source of a copy.
    pub open spec fn source(self) -> CopySource {
        CopySource {
            texture: self.id,
            target: consts::TEXTURE_2D,
            layer: 0,
            content: Content::Color(self.element),
            width: self.width,
            height: self.height,
        }
    }

    /// `context` after the texture's names have been given back to the driver.
    pub open spec fn released(self, context: ContextView) -> ContextView {
        context.recorded(Command::DeleteFramebuffer { framebuffer: self.framebuffer }).recorded(
            Command::DeleteTexture { texture: self.id },
        )
    }
}

/// A texture of any format but RGBA cannot be read, whatever the viewport is.
pub proof fn lemma_only_rgba_is_read(texture: ColorTargetTexture2DView, viewport: Viewport)
    requires
        texture.format != Format::RGBA,
    ensures
        texture.read_error(viewport) == Some(Error::UnsupportedReadFormat),
{
}

/// However drawing into a colour target ends, with success or without, and
/// whatever the drawing has recorded and bound, the bindings afterwards are
/// the ones that were saved before it began.
pub proof fn lemma_ending_puts_the_bindings_back(
    texture: ColorTargetTexture2DView,
    drawn_on: ContextView,
    saved: Bindings,
    succeeded: bool,
)
    ensures
        texture.ended(drawn_on, saved, succeeded).bindings == saved,
        texture.ended(drawn_on, saved, succeeded).commands.last() == (Command::ActiveTexture {
            unit: saved.active_texture,
        }),
{
}

/// Reading an RGBA target whole asks the driver for exactly as many
/// elements as filling a texture of the same extents gives it, and in the
/// target's own element type; the read is refused only where that many
/// elements do not fit a buffer.
pub proof fn lemma_whole_read_matches_whole_fill(texture: ColorTargetTexture2DView)
    requires
        texture.format == Format::RGBA,
    ensures
        ({
            let whole = Viewport { x: 0, y: 0, width: texture.width, height: texture.height };
            &&& whole.texel_count() * 4 == expected_length(
                texture.width,
                texture.height,
                1,
                Format::RGBA,
            )
            &&& PixelSeq::zeros(texture.element, whole.texel_count() * 4).len()
                == whole.texel_count() * 4
            &&& PixelSeq::zeros(texture.element, whole.texel_count() * 4).element_type()
                == texture.element
            &&& texture.read_error(whole) is None <==> whole.texel_count() * 4 <= usize::MAX
        }),
{
    let whole = Viewport { x: 0, y: 0, width: texture.width, height: texture.height };
    assert(texture.width * texture.height * 1 * 4 == texture.width * texture.height * 4)
        by (nonlinear_arith);
}

/// A 2D colour texture that can be rendered into and read from.
#[derive(Debug)]
pub struct ColorTargetTexture2D {
    id: u32,
    framebuffer: u32,
    width: u32,
    height: u32,
    number_of_mip_maps: u32,
    format: Format,
    element: ElementType,
}

impl View for ColorTargetTexture2D {
    type V = ColorTargetTexture2DView;

    closed spec fn view(&self) -> ColorTargetTexture2DView {
        ColorTargetTexture2DView {
            id: self.id,
            framebuffer: self.framebuffer,
            width: self.width,
            height: self.height,
            number_of_mip_maps: self.number_of_mip_maps,
            format: self.format,
            element: self.element,
        }
    }
}

impl ColorTargetTexture2D {
    #[verifier::type_invariant]
    spec fn owns_its_names(self) -> bool {
        &&& self.id != consts::NO_OBJECT
        &&& self.framebuffer != consts::NO_OBJECT
        &&& self.number_of_mip_maps >= 1
    }

    /// Why a target of this format cannot be made under the names `handle`
    /// and `framebuffer`, if it cannot: the driver refused one of the names,
    /// or it has no storage format for the texels.
    pub open spec fn creation_error(
        handle: u32,
        framebuffer: u32,
        format: Format,
        element: ElementType,
    ) -> Option<Error> {
        if handle == consts::NO_OBJECT || framebuffer == consts::NO_OBJECT {
            Some(Error::AllocationError)
        } else if native_format(format, element) is None {
            Some(Error::UnsupportedFormat { format, element })
        } else {
            None
        }
    }

    /// `context` after the sampler parameters of `texture` have been set. A
    /// mip filter is passed on only where the texture has more than its base
    /// level.
    pub open spec fn configured(
        context: ContextView,
        texture: ColorTargetTexture2DView,
        min_filter: Interpolation,
        mag_filter: Interpolation,
        mip_map_filter: Option<Interpolation>,
        wrap_s: Wrapping,
        wrap_t: Wrapping,
    ) -> ContextView {
        with_parameters(
            context,
            texture.id,
            consts::TEXTURE_2D,
            min_filter,
            mag_filter,
            effective_mip_filter(texture.number_of_mip_maps, mip_map_filter),
            wrap_s,
            wrap_t,
            None,
        )
    }

    /// `context` after `new` has made `texture`: its sampler parameters are
    /// set and storage for all its levels is reserved.
    pub open spec fn creating(
        context: ContextView,
        texture: ColorTargetTexture2DView,
        min_filter: Interpolation,
        mag_filter: Interpolation,
        mip_map_filter: Option<Interpolation>,
        wrap_s: Wrapping,
        wrap_t: Wrapping,
    ) -> ContextView {
        Self::configured(
            context,
            texture,
            min_filter,
            mag_filter,
            mip_map_filter,
            wrap_s,
            wrap_t,
        ).recorded(
            Command::TexStorage2D {
                target: consts::TEXTURE_2D,
                levels: texture.number_of_mip_maps,
                internal_format: native_format(texture.format, texture.element)->Some_0,
                width: texture.width,
                height: texture.height,
            },
        )
    }

    /// The target that `new` makes, or would have made had it not refused.
    pub open spec fn created(
        handle: u32,
        framebuffer: u32,
        width: u32,
        height: u32,
        mip_map_filter: Option<Interpolation>,
        format: Format,
        element: ElementType,
    ) -> ColorTargetTexture2DView {
        ColorTargetTexture2DView {
            id: handle,
            framebuffer,
            width,
            height,
            number_of_mip_maps: mip_level_count(mip_map_filter, width, height, 1) as u32,
            format,
            element,
        }
    }

    /// Makes a colour target under the texture name `handle` and the
    /// framebuffer name `framebuffer`, which the driver has just handed out.
    ///
    /// The target keeps its framebuffer for its whole life. So `write`,
    /// `read` and `copy_to` ask the driver for nothing and cannot fail for
    /// want of a name; the price is the second name here, and
    /// `AllocationError` when either of the two is refused.
    ///
    /// Where a name is refused nothing is recorded. The sampler parameters
    /// are set before the storage format is negotiated, so they stay
    /// recorded where the driver has no storage format. The names of a
    /// target that was not made stay the caller's.
    pub fn new(
        context: &mut Context,
        handle: u32,
        framebuffer: u32,
        width: u32,
        height: u32,
        min_filter: Interpolation,
        mag_filter: Interpolation,
        mip_map_filter: Option<Interpolation>,
        wrap_s: Wrapping,
        wrap_t: Wrapping,
        format: Format,
        element: ElementType,
    ) -> (result: Result<ColorTargetTexture2D, Error>)
        ensures
            match result {
                Ok(texture) => {
                    &&& Self::creation_error(handle, framebuffer, format, element) is None
                    &&& texture@ == Self::created(
                        handle,
                        framebuffer,
                        width,
                        height,
                        mip_map_filter,
                        format,
                        element,
                    )
                    &&& final(context)@ == Self::creating(
                        old(context)@,
                        texture@,
                        min_filter,
                        mag_filter,
                        mip_map_filter,
                        wrap_s,
                        wrap_t,
                    )
                },
                Err(error) => {
                    &&& Self::creation_error(handle, framebuffer, format, element) == Some(error)
                    &&& final(context)@ == if error == Error::AllocationError {
                        old(context)@
                    } else {
                        Self::configured(
                            old(context)@,
                            Self::created(
                                handle,
                                framebuffer,
                                width,
                                height,
                                mip_map_filter,
                                format,
                                element,
                            ),
                            min_filter,
                            mag_filter,
                            mip_map_filter,
                            wrap_s,
                            wrap_t,
                        )
                    }
                },
            },
            final(context)@.bindings == old(context)@.bindings,
    {
        let id = generate(handle)?;
        let framebuffer = generate(framebuffer)?;
        let number_of_mip_maps = calculate_number_of_mip_maps(mip_map_filter, width, height, 1);
        set_parameters(
            context,
            id,
            consts::TEXTURE_2D,
            min_filter,
            mag_filter,
            if number_of_mip_maps == 1 {
                None
            } else {
                mip_map_filter
            },
            wrap_s,
            wrap_t,
            None,
        );
        let storage = internal_format(format, element)?;
        context.record(
            Command::TexStorage2D {
                target: consts::TEXTURE_2D,
                levels: number_of_mip_maps,
                internal_format: storage,
                width,
                height,
            },
        );
        Ok(
            ColorTargetTexture2D {
                id,
                framebuffer,
                width,
                height,
                number_of_mip_maps,
                format,
                element,
            },
        )
    }

    /// Binds the texture's framebuffer to `target` with the texture as its
    /// one colour output.
    pub fn bind_framebuffer(&self, context: &mut Context, target: u32)
        ensures
            final(context)@ == self@.bound(old(context)@, target),
    {
        context.record(Command::BindFramebuffer { target, framebuffer: self.framebuffer });
        context.record(Command::DrawBuffers { count: 1 });
        self.bind_as_color_target(context, 0);
    }

    /// Binds the texture as the draw target and clears its colour. Returns
    /// the bindings as they were before.
    pub(crate) fn begin_write(&self, context: &mut Context, clear_state: ClearState) -> (saved: Bindings)
        ensures
            saved == old(context)@.bindings,
            final(context)@ == self@.begun(old(context)@, clear_state),
    {
        let saved = context.bindings();
        self.bind_framebuffer(context, consts::DRAW_FRAMEBUFFER);
        clear(context, &clear_state.only_color());
        saved
    }

    /// Ends drawing into the texture: after a drawing that succeeded the
    /// mip chain is rebuilt, and in either case the bindings `saved` are put
    /// back.
    pub(crate) fn end_write(&self, context: &mut Context, saved: Bindings, drawn: bool)
        ensures
            final(context)@ == self@.ended(old(context)@, saved, drawn),
            final(context)@.bindings == saved,
    {
        if drawn {
            self.generate_mip_maps(context);
        }
        context.restore(saved);
    }

    /// Clears the texture's colour as `clear_state` says and draws into it
    /// with `render`. Whatever `render` answers and whatever it has bound,
    /// the bindings are afterwards what they were before the call, and
    /// `render`'s answer is handed on.
    pub fn write<F: FnOnce(&mut Context) -> Result<(), Error>>(
        &self,
        context: &mut Context,
        clear_state: ClearState,
        render: F,
    ) -> (result: Result<(), Error>)
        requires
            forall|c: &mut Context|
                c@ == self@.begun(old(context)@, clear_state) ==> #[trigger] render.requires((c,)),
        ensures
            exists|c: &mut Context|
                {
                    &&& #[trigger] render.ensures((c,), result)
                    &&& c@ == self@.begun(old(context)@, clear_state)
                    &&& final(context)@ == self@.ended(
                        final(c)@,
                        old(context)@.bindings,
                        result is Ok,
                    )
                },
            final(context)@.bindings == old(context)@.bindings,
            replay(final(context)@.origin, final(context)@.commands) == old(context)@.bindings,
    {
        let saved = self.begin_write(context, clear_state);
        let result = render(context);
        self.end_write(context, saved, result.is_ok());
        proof {
            use_type_invariant(&*context);
        }
        result
    }

    /// Copies the part of the texture inside `viewport` to the same place in
    /// `destination`, changing only the channels that `write_mask` selects.
    /// A depth destination is refused, and so is a colour texture of
    /// another element type.
    pub fn copy_to(
        &self,
        context: &mut Context,
        destination: CopyDestination,
        viewport: Viewport,
        write_mask: WriteMask,
    ) -> (result: Result<(), Error>)
        ensures
            match result {
                Ok(()) => {
                    &&& copy_error(self@.source(), destination, viewport) is None
                    &&& final(context)@ == copied(
                        old(context)@,
                        self@.source(),
                        destination,
                        viewport,
                        write_mask,
                    )
                },
                Err(error) => {
                    &&& copy_error(self@.source(), destination, viewport) == Some(error)
                    &&& final(context)@ == old(context)@
                },
            },
            destination is DepthTexture ==> result == Err::<(), Error>(Error::FormatMismatch),
            destination matches CopyDestination::ColorTexture(other) && other@.element
                != self@.element ==> result == Err::<(), Error>(Error::FormatMismatch),
            final(context)@.bindings == old(context)@.bindings,
    {
        let source = CopySource {
            texture: self.id,
            target: consts::TEXTURE_2D,
            layer: 0,
            content: Content::Color(self.element),
            width: self.width,
            height: self.height,
        };
        copy(context, source, destination, viewport, write_mask)
    }

    /// Records the read of the texels inside `viewport` and returns the
    /// buffer for them: four elements a texel, all zero until the driver
    /// runs the read and fills it. Only an RGBA texture can be read.
    pub fn read(&self, context: &mut Context, viewport: Viewport) -> (result: Result<
        PixelData,
        Error,
    >)
        ensures
            match result {
                Ok(pixels) => {
                    &&& self@.read_error(viewport) is None
                    &&& pixels@ == PixelSeq::zeros(self@.element, viewport.texel_count() * 4)
                    &&& pixels@.len() == viewport.width * viewport.height * 4
                    &&& final(context)@ == self@.read_from(old(context)@, viewport)
                },
                Err(error) => {
                    &&& self@.read_error(viewport) == Some(error)
                    &&& final(context)@ == old(context)@
                },
            },
            self@.format != Format::RGBA ==> result matches Err(Error::UnsupportedReadFormat),
            final(context)@.bindings == old(context)@.bindings,
    {
        if self.format != Format::RGBA {
            return Err(Error::UnsupportedReadFormat);
        }
        if !viewport.fits_within(self.width, self.height) {
            return Err(Error::OutOfBounds);
        }
        assert(viewport.width * viewport.height <= 0xffff_ffff * 0xffff_ffff) by (nonlinear_arith)
            requires
                0 <= viewport.width <= 0xffff_ffff,
                0 <= viewport.height <= 0xffff_ffff,
        ;
        let count: u128 = viewport.width as u128 * viewport.height as u128
            * self.format.color_channel_count() as u128;
        if count > usize::MAX as u128 {
            return Err(Error::OutOfBounds);
        }
        let pixels = PixelData::zeros(self.element, count as usize);
        let saved = context.bindings();
        self.bind_framebuffer(context, consts::DRAW_FRAMEBUFFER);
        self.bind_framebuffer(context, consts::READ_FRAMEBUFFER);
        context.record(
            Command::ReadPixels {
                x: viewport.x,
                y: viewport.y,
                width: viewport.width,
                height: viewport.height,
                format: crate::format::format_from(self.format),
                data_type: self.element.data_type(),
            },
        );
        context.restore(saved);
        Ok(pixels)
    }

    /// Rebuilds the mip chain from the base level, if there is a chain.
    pub fn generate_mip_maps(&self, context: &mut Context)
        ensures
            final(context)@ == with_mip_maps(
                old(context)@,
                self@.id,
                consts::TEXTURE_2D,
                self@.number_of_mip_maps,
            ),
    {
        regenerate_mip_maps(context, self.id, consts::TEXTURE_2D, self.number_of_mip_maps);
    }

    /// Attaches the texture to the draw framebuffer as colour output `channel`.
    pub fn bind_as_color_target(&self, context: &mut Context, channel: u32)
        requires
            channel < consts::MAX_COLOR_ATTACHMENTS,
        ensures
            final(context)@ == self@.attached(old(context)@, channel),
    {
        context.record(
            Command::FramebufferTexture2D {
                target: consts::FRAMEBUFFER,
                attachment: consts::COLOR_ATTACHMENT0 + channel,
                texture_target: consts::TEXTURE_2D,
                texture: self.id,
                level: 0,
            },
        );
    }

    /// Binds the texture to sampling unit `location` for the draws that follow.
    pub fn bind(&self, context: &mut Context, location: u32)
        requires
            consts::TEXTURE0 + location <= u32::MAX,
        ensures
            final(context)@ == bound_at(old(context)@, self@.id, consts::TEXTURE_2D, location),
    {
        bind_at(context, self.id, consts::TEXTURE_2D, location);
    }

    /// The names the target has with the driver, texture first; neither is
    /// the name of no object.
    pub fn names(&self) -> (names: (u32, u32))
        ensures
            names == (self@.id, self@.framebuffer),
            names.0 != consts::NO_OBJECT,
            names.1 != consts::NO_OBJECT,
    {
        proof {
            use_type_invariant(self);
        }
        (self.id, self.framebuffer)
    }

    /// What one element of the texture is.
    pub fn element(&self) -> (element: ElementType)
        ensures
            element == self@.element,
    {
        self.element
    }

    pub fn format(&self) -> (format: Format)
        ensures
            format == self@.format,
    {
        self.format
    }

    pub fn width(&self) -> (width: u32)
        ensures
            width == self@.width,
    {
        self.width
    }

    pub fn height(&self) -> (height: u32)
        ensures
            height == self@.height,
    {
        self.height
    }

    /// Ends the target's life: its framebuffer and its texture go back to
    /// the driver.
    pub fn release(self, context: &mut Context)
        ensures
            final(context)@ == self@.released(old(context)@),
    {
        context.record(Command::DeleteFramebuffer { framebuffer: self.framebuffer });
        context.record(Command::DeleteTexture { texture: self.id });
    }
}

} // verus!

//! Sampled textures: what every texture shares, 2D textures and cube maps.

use vstd::prelude::*;
use crate::consts;
use crate::context::{Command, Context, ContextView};
use crate::error::Error;
use crate::format::{
    format_from, interpolation_from, interpolation_param, internal_format, minification_from,
    minification_param, native_format, transfer_format, wrapping_from, wrapping_param, Format,
    Interpolation, Wrapping,
};
use crate::mip::{calculate_number_of_mip_maps, mip_level_count};
use crate::pixels::{CPUTexture, PixelData, PixelSeq};

verus! {

/// Adopts the name the driver handed out for a new object. The driver
/// refuses by handing out the name that no object has.
pub fn generate(handle: u32) -> (result: Result<u32, Error>)
    ensures
        result == if handle == consts::NO_OBJECT {
            Err::<u32, Error>(Error::AllocationError)
        } else {
            Ok(handle)
        },
{
    if handle == consts::NO_OBJECT {
        Err(Error::AllocationError)
    } else {
        Ok(handle)
    }
}

/// `context` after texture `id` has been bound to sampling unit `location`.
pub open spec fn bound_at(context: ContextView, id: u32, target: u32, location: u32) -> ContextView {
    context.recorded(Command::ActiveTexture { unit: (consts::TEXTURE0 + location) as u32 }).recorded(
        Command::BindTexture { target, texture: id },
    )
}

/// Binds texture `id` to sampling unit `location`.
pub fn bind_at(context: &mut Context, id: u32, target: u32, location: u32)
    requires
        consts::TEXTURE0 + location <= u32::MAX,
    ensures
        final(context)@ == bound_at(old(context)@, id, target, location),
{
    context.record(Command::ActiveTexture { unit: consts::TEXTURE0 + location });
    context.record(Command::BindTexture { target, texture: id });
}

/// `context` after the sampler parameters of texture `id` have been set:
/// the texture is bound, then minification, magnification and the wrap
/// modes follow, the third wrap axis only where there is one.
pub open spec fn with_parameters(
    context: ContextView,
    id: u32,
    target: u32,
    min_filter: Interpolation,
    mag_filter: Interpolation,
    mip_map_filter: Option<Interpolation>,
    wrap_s: Wrapping,
    wrap_t: Wrapping,
    wrap_r: Option<Wrapping>,
) -> ContextView {
    let common = context.recorded(Command::BindTexture { target, texture: id }).recorded(
        Command::TexParameteri {
            target,
            name: consts::TEXTURE_MIN_FILTER,
            value: minification_param(min_filter, mip_map_filter),
        },
    ).recorded(
        Command::TexParameteri {
            target,
            name: consts::TEXTURE_MAG_FILTER,
            value: interpolation_param(mag_filter),
        },
    ).recorded(
        Command::TexParameteri {
            target,
            name: consts::TEXTURE_WRAP_S,
            value: wrapping_param(wrap_s),
        },
    ).recorded(
        Command::TexParameteri {
            target,
            name: consts::TEXTURE_WRAP_T,
            value: wrapping_param(wrap_t),
        },
    );
    match wrap_r {
        Some(r) => common.recorded(
            Command::TexParameteri {
                target,
                name: consts::TEXTURE_WRAP_R,
                value: wrapping_param(r),
            },
        ),
        None => common,
    }
}

/// Sets the sampler parameters of texture `id`.
pub fn set_parameters(
    context: &mut Context,
    id: u32,
    target: u32,
    min_filter: Interpolation,
    mag_filter: Interpolation,
    mip_map_filter: Option<Interpolation>,
    wrap_s: Wrapping,
    wrap_t: Wrapping,
    wrap_r: Option<Wrapping>,
)
    ensures
        final(context)@ == with_parameters(
            old(context)@,
            id,
            target,
            min_filter,
            mag_filter,
            mip_map_filter,
            wrap_s,
            wrap_t,
            wrap_r,
        ),
{
    context.record(Command::BindTexture { target, texture: id });
    context.record(
        Command::TexParameteri {
            target,
            name: consts::TEXTURE_MIN_FILTER,
            value: minification_from(min_filter, mip_map_filter),
        },
    );
    context.record(
        Command::TexParameteri {
            target,
            name: consts::TEXTURE_MAG_FILTER,
            value: interpolation_from(mag_filter),
        },
    );
    context.record(
        Command::TexParameteri { target, name: consts::TEXTURE_WRAP_S, value: wrapping_from(wrap_s) },
    );
    context.record(
        Command::TexParameteri { target, name: consts::TEXTURE_WRAP_T, value: wrapping_from(wrap_t) },
    );
    if let Some(r) = wrap_r {
        context.record(
            Command::TexParameteri { target, name: consts::TEXTURE_WRAP_R, value: wrapping_from(r) },
        );
    }
}

/// The mip filter that is in effect: none where there is only the base level.
pub open spec fn effective_mip_filter(levels: u32, mip_map_filter: Option<Interpolation>) -> Option<
    Interpolation,
> {
    if levels == 1 {
        None
    } else {
        mip_map_filter
    }
}

/// Number of elements that fill `depth` images of `width` x `height` texels.
pub open spec fn expected_length(width: u32, height: u32, depth: u32, format: Format) -> nat {
    (width * height * depth * format.channel_count()) as nat
}

/// What `check_data_length` answers for data of `length` elements.
pub open spec fn length_check(
    width: u32,
    height: u32,
    depth: u32,
    format: Format,
    length: usize,
) -> Result<(), Error> {
    if length == expected_length(width, height, depth, format) {
        Ok(())
    } else {
        Err(
            Error::DataLengthMismatch {
                expected: expected_length(width, height, depth, format) as u128,
                actual: length,
            },
        )
    }
}

/// Data of any length but the expected one is refused, whatever the format
/// and the extents are, and the refusal names both lengths.
pub proof fn lemma_wrong_length_is_refused(
    width: u32,
    height: u32,
    depth: u32,
    format: Format,
    length: usize,
)
    requires
        length != expected_length(width, height, depth, format),
    ensures
        length_check(width, height, depth, format, length) == Err::<(), Error>(
            Error::DataLengthMismatch {
                expected: expected_length(width, height, depth, format) as u128,
                actual: length,
            },
        ),
{
}

/// Accepts pixel data exactly when it has one element per channel of every
/// texel; the refusal names the length needed and the length given.
pub fn check_data_length(width: u32, height: u32, depth: u32, format: Format, length: usize) -> (result:
    Result<(), Error>)
    ensures
        result == length_check(width, height, depth, format, length),
        expected_length(width, height, depth, format) <= u128::MAX,
{
    let channels = format.color_channel_count();
    assert(width * height * depth * channels <= 0xffff_ffff * 0xffff_ffff * 0xffff_ffff * 4)
        by (nonlinear_arith)
        requires
            0 <= width <= 0xffff_ffff,
            0 <= height <= 0xffff_ffff,
            0 <= depth <= 0xffff_ffff,
            0 <= channels <= 4,
    ;
    assert(width * height <= 0xffff_ffff * 0xffff_ffff) by (nonlinear_arith)
        requires
            0 <= width <= 0xffff_ffff,
            0 <= height <= 0xffff_ffff,
    ;
    assert(width * height * depth <= 0xffff_ffff * 0xffff_ffff * 0xffff_ffff) by (nonlinear_arith)
        requires
            0 <= width * height <= 0xffff_ffff * 0xffff_ffff,
            0 <= depth <= 0xffff_ffff,
    ;
    let expected: u128 = width as u128 * height as u128 * depth as u128 * channels as u128;
    if length as u128 == expected {
        Ok(())
    } else {
        Err(Error::DataLengthMismatch { expected, actual: length })
    }
}

/// `context` after `data` has been uploaded to the whole base level of the
/// `width` x `height` image at `target`: the data is stored, and the upload
/// call refers to it.
pub open spec fn uploaded(
    context: ContextView,
    target: u32,
    width: u32,
    height: u32,
    format: Format,
    data: PixelSeq,
) -> ContextView {
    context.stored(data).recorded(
        Command::TexSubImage2D {
            target,
            level: 0,
            x: 0,
            y: 0,
            width,
            height,
            format: transfer_format(format),
            data_type: data.element_type().transfer_type(),
            upload: context.uploads.len() as usize,
        },
    )
}

/// The call that an upload records is the newest call of the stream, and it
/// refers to exactly the data that was handed in.
pub proof fn lemma_upload_refers_to_its_data(
    context: ContextView,
    target: u32,
    width: u32,
    height: u32,
    format: Format,
    data: PixelSeq,
)
    requires
        context.uploads.len() <= usize::MAX,
    ensures
        ({
            let after = uploaded(context, target, width, height, format, data);
            &&& after.commands.len() == context.commands.len() + 1
            &&& after.commands.last() matches Command::TexSubImage2D { upload, .. }
            &&& upload < after.uploads.len()
            &&& after.uploads[upload as int] == data
            &&& after.bindings == context.bindings
        }),
{
}

/// Uploads `data` to the whole base level of the image at `target`.
pub fn upload(
    context: &mut Context,
    target: u32,
    width: u32,
    height: u32,
    format: Format,
    data: PixelData,
)
    ensures
        final(context)@ == uploaded(old(context)@, target, width, height, format, data@),
{
    let data_type = data.element_type().data_type();
    let upload = context.store(data);
    context.record(
        Command::TexSubImage2D {
            target,
            level: 0,
            x: 0,
            y: 0,
            width,
            height,
            format: format_from(format),
            data_type,
            upload,
        },
    );
}

/// `context` after the mip chain of texture `id` has been rebuilt from its
/// base level. A texture with a single level has no chain, and nothing is
/// recorded for it.
pub open spec fn with_mip_maps(context: ContextView, id: u32, target: u32, levels: u32) -> ContextView {
    if levels > 1 {
        context.recorded(Command::BindTexture { target, texture: id }).recorded(
            Command::GenerateMipmap { target },
        )
    } else {
        context
    }
}

/// Rebuilds the mip chain of texture `id`, if it has one.
pub fn regenerate_mip_maps(context: &mut Context, id: u32, target: u32, levels: u32)
    ensures
        final(context)@ == with_mip_maps(old(context)@, id, target, levels),
{
    if levels > 1 {
        context.record(Command::BindTexture { target, texture: id });
        context.record(Command::GenerateMipmap { target });
    }
}

/// A 2D texture as contracts see it.
pub struct Texture2DView {
    pub id: u32,
    pub width: u32,
    pub height: u32,
    pub format: Format,
    pub number_of_mip_maps: u32,
}

impl Texture2DView {
    /// `context` after the whole texture has been filled with `data`. The
    /// mip chain is rebuilt from the new base level.
    pub open spec fn filled(self, context: ContextView, data: PixelSeq) -> ContextView {
        with_mip_maps(
            uploaded(
                context.recorded(
                    Command::BindTexture { target: consts::TEXTURE_2D, texture: self.id },
                ),
                consts::TEXTURE_2D,
                self.width,
                self.height,
                self.format,
                data,
            ),
            self.id,
            consts::TEXTURE_2D,
            self.number_of_mip_maps,
        )
    }

    /// `context` after the texture's name has been given back to the driver.
    pub open spec fn released(self, context: ContextView) -> ContextView {
        context.recorded(Command::DeleteTexture { texture: self.id })
    }
}

/// What a fill hands to the driver is the data it was given, element for
/// element and as the only new upload, and the upload call is the one call
/// that refers to it.
pub proof fn lemma_fill_uploads_the_data(texture: Texture2DView, context: ContextView, data: PixelSeq)
    ensures
        texture.filled(context, data).uploads == context.uploads.push(data),
        texture.filled(context, data).commands.len() >= context.commands.len() + 2,
        texture.filled(context, data).commands[context.commands.len() as int + 1]
            == (Command::TexSubImage2D {
            target: consts::TEXTURE_2D,
            level: 0,
            x: 0,
            y: 0,
            width: texture.width,
            height: texture.height,
            format: transfer_format(texture.format),
            data_type: data.element_type().transfer_type(),
            upload: context.uploads.len() as usize,
        }),
{
}

/// A 2D texture: an image on the GPU that is sampled, not rendered into.
#[derive(Debug)]
pub struct Texture2D {
    id: u32,
    width: u32,
    height: u32,
    format: Format,
    number_of_mip_maps: u32,
}

impl View for Texture2D {
    type V = Texture2DView;

    closed spec fn view(&self) -> Texture2DView {
        Texture2DView {
            id: self.id,
            width: self.width,
            height: self.height,
            format: self.format,
            number_of_mip_maps: self.number_of_mip_maps,
        }
    }
}

impl Texture2D {
    #[verifier::type_invariant]
    spec fn owns_a_name(self) -> bool {
        self.id != consts::NO_OBJECT && self.number_of_mip_maps >= 1
    }

    /// Why a texture cannot be made from `cpu_texture` under the name
    /// `handle`, if it cannot: the driver refused the name, or it has no
    /// storage format for the image's texels, or the image's data is not of
    /// the length its extents ask for. The first that applies is reported.
    pub open spec fn creation_error(handle: u32, cpu_texture: &CPUTexture) -> Option<Error> {
        if handle == consts::NO_OBJECT {
            Some(Error::AllocationError)
        } else if native_format(cpu_texture.format, cpu_texture.data@.element_type()) is None {
            Some(
                Error::UnsupportedFormat {
                    format: cpu_texture.format,
                    element: cpu_texture.data@.element_type(),
                },
            )
        } else if length_check(
            cpu_texture.width,
            cpu_texture.height,
            1,
            cpu_texture.format,
            cpu_texture.data@.len() as usize,
        ) is Err {
            Some(
                length_check(
                    cpu_texture.width,
                    cpu_texture.height,
                    1,
                    cpu_texture.format,
                    cpu_texture.data@.len() as usize,
                )->Err_0,
            )
        } else {
            None
        }
    }

    /// The texture that `new` makes.
    pub open spec fn created(handle: u32, cpu_texture: &CPUTexture) -> Texture2DView {
        Texture2DView {
            id: handle,
            width: cpu_texture.width,
            height: cpu_texture.height,
            format: cpu_texture.format,
            number_of_mip_maps: mip_level_count(
                cpu_texture.mip_map_filter,
                cpu_texture.width,
                cpu_texture.height,
                1,
            ) as u32,
        }
    }

    /// `context` after the sampler parameters of the texture that `new`
    /// makes have been set. A mip filter is passed on only where the texture
    /// has more than its base level.
    pub open spec fn configured(
        context: ContextView,
        handle: u32,
        cpu_texture: &CPUTexture,
    ) -> ContextView {
        with_parameters(
            context,
            handle,
            consts::TEXTURE_2D,
            cpu_texture.min_filter,
            cpu_texture.mag_filter,
            effective_mip_filter(
                Self::created(handle, cpu_texture).number_of_mip_maps,
                cpu_texture.mip_map_filter,
            ),
            cpu_texture.wrap_s,
            cpu_texture.wrap_t,
            None,
        )
    }

    /// `context` after the parameters have been set and storage for all
    /// levels has been reserved.
    pub open spec fn reserved(
        context: ContextView,
        handle: u32,
        cpu_texture: &CPUTexture,
    ) -> ContextView {
        Self::configured(context, handle, cpu_texture).recorded(
            Command::TexStorage2D {
                target: consts::TEXTURE_2D,
                levels: Self::created(handle, cpu_texture).number_of_mip_maps,
                internal_format: native_format(
                    cpu_texture.format,
                    cpu_texture.data@.element_type(),
                )->Some_0,
                width: cpu_texture.width,
                height: cpu_texture.height,
            },
        )
    }

    /// `context` after `new` has made a texture: its sampler parameters are
    /// set, storage for all its levels is reserved, and it is filled.
    pub open spec fn creating(
        context: ContextView,
        handle: u32,
        cpu_texture: &CPUTexture,
    ) -> ContextView {
        Self::created(handle, cpu_texture).filled(
            Self::reserved(context, handle, cpu_texture),
            cpu_texture.data@,
        )
    }

    /// `context` after `new` has refused with `error`. Nothing is recorded
    /// where the driver refused the name. The sampler parameters are set by
    /// the time the storage format is found missing, and they stay
    /// recorded. Data of the wrong length is found when the texture is
    /// filled, after its storage has been reserved: nothing is uploaded,
    /// and the name goes back to the driver, once.
    pub open spec fn refusing(
        context: ContextView,
        handle: u32,
        cpu_texture: &CPUTexture,
        error: Error,
    ) -> ContextView {
        match error {
            Error::AllocationError => context,
            Error::UnsupportedFormat { .. } => Self::configured(context, handle, cpu_texture),
            _ => Self::created(handle, cpu_texture).released(
                Self::reserved(context, handle, cpu_texture),
            ),
        }
    }

    /// Makes a texture under the name `handle`, which the driver has just
    /// handed out, and fills it with the image. The steps are taken in
    /// order: the name is adopted, the sampler parameters are set, the
    /// storage format is negotiated and storage reserved, the image is
    /// uploaded. A step that fails ends the construction; what was recorded
    /// before it stays recorded, and a texture that cannot be filled is
    /// released again.
    pub fn new(context: &mut Context, handle: u32, cpu_texture: &CPUTexture) -> (result: Result<
        Texture2D,
        Error,
    >)
        ensures
            match result {
                Ok(texture) => {
                    &&& Self::creation_error(handle, cpu_texture) is None
                    &&& texture@ == Self::created(handle, cpu_texture)
                    &&& final(context)@ == Self::creating(old(context)@, handle, cpu_texture)
                },
                Err(error) => {
                    &&& Self::creation_error(handle, cpu_texture) == Some(error)
                    &&& final(context)@ == Self::refusing(
                        old(context)@,
                        handle,
                        cpu_texture,
                        error,
                    )
                },
            },
            final(context)@.bindings == old(context)@.bindings,
            final(context)@.uploads.len() == old(context)@.uploads.len() + (if result is Ok {
                1nat
            } else {
                0nat
            }),
    {
        let id = generate(handle)?;
        let number_of_mip_maps = calculate_number_of_mip_maps(
            cpu_texture.mip_map_filter,
            cpu_texture.width,
            cpu_texture.height,
            1,
        );
        set_parameters(
            context,
            id,
            consts::TEXTURE_2D,
            cpu_texture.min_filter,
            cpu_texture.mag_filter,
            if number_of_mip_maps == 1 {
                None
            } else {
                cpu_texture.mip_map_filter
            },
            cpu_texture.wrap_s,
            cpu_texture.wrap_t,
            None,
        );
        let storage = internal_format(cpu_texture.format, cpu_texture.data.element_type())?;
        context.record(
            Command::TexStorage2D {
                target: consts::TEXTURE_2D,
                levels: number_of_mip_maps,
                internal_format: storage,
                width: cpu_texture.width,
                height: cpu_texture.height,
            },
        );
        let mut texture = Texture2D {
            id,
            width: cpu_texture.width,
            height: cpu_texture.height,
            format: cpu_texture.format,
            number_of_mip_maps,
        };
        match texture.fill(context, &cpu_texture.data) {
            Ok(()) => Ok(texture),
            Err(error) => {
                texture.release(context);
                Err(error)
            },
        }
    }

    /// Replaces the texture's whole content with `data` and rebuilds its mip
    /// chain. Data of any other length than one element per channel of every
    /// texel is refused.
    pub fn fill(&mut self, context: &mut Context, data: &PixelData) -> (result: Result<(), Error>)
        ensures
            final(self)@ == old(self)@,
            result == length_check(
                old(self)@.width,
                old(self)@.height,
                1,
                old(self)@.format,
                data@.len() as usize,
            ),
            final(context)@ == if result is Ok {
                old(self)@.filled(old(context)@, data@)
            } else {
                old(context)@
            },
            final(context)@.bindings == old(context)@.bindings,
    {
        check_data_length(self.width, self.height, 1, self.format, data.len())?;
        context.record(Command::BindTexture { target: consts::TEXTURE_2D, texture: self.id });
        upload(context, consts::TEXTURE_2D, self.width(), self.height(), self.format, data.clone());
        self.generate_mip_maps(context);
        Ok(())
    }

    /// Rebuilds the mip chain from the base level, if there is a chain.
    pub fn generate_mip_maps(&self, context: &mut Context)
        ensures
            final(context)@ == with_mip_maps(
                old(context)@,
                self@.id,
                consts::TEXTURE_2D,
                self@.number_of_mip_maps,
            ),
    {
        regenerate_mip_maps(context, self.id, consts::TEXTURE_2D, self.number_of_mip_maps);
    }

    /// Binds the texture to sampling unit `location` for the draws that follow.
    pub fn bind(&self, context: &mut Context, location: u32)
        requires
            consts::TEXTURE0 + location <= u32::MAX,
        ensures
            final(context)@ == bound_at(old(context)@, self@.id, consts::TEXTURE_2D, location),
    {
        bind_at(context, self.id, consts::TEXTURE_2D, location);
    }

    /// The name the texture has with the driver; never the name of no object.
    pub fn id(&self) -> (id: u32)
        ensures
            id == self@.id,
            id != consts::NO_OBJECT,
    {
        proof {
            use_type_invariant(self);
        }
        self.id
    }

    pub fn width(&self) -> (width: u32)
        ensures
            width == self@.width,
    {
        self.width
    }

    pub fn height(&self) -> (height: u32)
        ensures
            height == self@.height,
    {
        self.height
    }

    pub fn format(&self) -> (format: Format)
        ensures
            format == self@.format,
    {
        self.format
    }

    /// Number of mip levels, base level included; at least one.
    pub fn number_of_mip_maps(&self) -> (levels: u32)
        ensures
            levels == self@.number_of_mip_maps,
            levels >= 1,
    {
        proof {
            use_type_invariant(self);
        }
        self.number_of_mip_maps
    }

    /// Ends the texture's life: its name goes back to the driver, and the
    /// texture is gone.
    pub fn release(self, context: &mut Context)
        ensures
            final(context)@ == self@.released(old(context)@),
    {
        context.record(Command::DeleteTexture { texture: self.id });
    }
}

} // verus!

//! Cube maps: six square-faced images sampled by direction.

use vstd::prelude::*;
use crate::consts;
use crate::context::{Command, Context, ContextView};
use crate::error::Error;
use crate::format::{internal_format, native_format, ElementType, Format};
use crate::mip::{calculate_number_of_mip_maps, mip_level_count};
use crate::pixels::{CPUTexture, PixelData, PixelSeq};
use crate::texture::{
    bind_at, bound_at, check_data_length, effective_mip_filter, expected_length, generate,
    length_check, regenerate_mip_maps, set_parameters, upload, uploaded, with_mip_maps,
    with_parameters,
};

verus! {

/// Number of faces of a cube.
pub const FACES: u32 = 6;

/// A cube map as contracts see it.
pub struct TextureCubeMapView {
    pub id: u32,
    pub width: u32,
    pub height: u32,
    pub format: Format,
    /// What one element of the faces is; the data that fills them is of
    /// this kind.
    pub element: ElementType,
    pub number_of_mip_maps: u32,
}

impl TextureCubeMapView {
    /// The part of `data` that belongs to face `index`: `data` holds the six
    /// faces one after the other, each a sixth of it.
    pub open spec fn face(data: PixelSeq, index: nat) -> PixelSeq {
        let size = data.len() / 6;
        data.subrange((index * size) as int, ((index + 1) * size) as int)
    }

    /// `context` after the first `count` faces have been uploaded from
    /// `data`, in the order right, left, top, bottom, front, back.
    pub open spec fn faces_uploaded(
        self,
        context: ContextView,
        data: PixelSeq,
        count: nat,
    ) -> ContextView
        decreases count,
    {
        if count == 0 {
            context
        } else {
            uploaded(
                self.faces_uploaded(context, data, (count - 1) as nat),
                (consts::TEXTURE_CUBE_MAP_POSITIVE_X + (count - 1)) as u32,
                self.width,
                self.height,
                self.format,
                Self::face(data, (count - 1) as nat),
            )
        }
    }

    /// `context` after all six faces have been filled from `data`. The mip
    /// chain is rebuilt from the new base level.
    pub open spec fn filled(self, context: ContextView, data: PixelSeq) -> ContextView {
        with_mip_maps(
            self.faces_uploaded(
                context.recorded(
                    Command::BindTexture { target: consts::TEXTURE_CUBE_MAP, texture: self.id },
                ),
                data,
                6,
            ),
            self.id,
            consts::TEXTURE_CUBE_MAP,
            self.number_of_mip_maps,
        )
    }

    /// What `fill` answers for `data`: data that is not six faces long is
    /// refused, naming both lengths, whatever its kind; data of the right
    /// length but of another kind than the texture's elements is refused as
    /// a mismatch.
    pub open spec fn fill_check(self, data: PixelSeq) -> Result<(), Error> {
        if length_check(self.width, self.height, FACES, self.format, data.len() as usize) is Err {
            length_check(self.width, self.height, FACES, self.format, data.len() as usize)
        } else if data.element_type() != self.element {
            Err(Error::FormatMismatch)
        } else {
            Ok(())
        }
    }

    /// `context` after the texture's name has been given back to the driver.
    pub open spec fn released(self, context: ContextView) -> ContextView {
        context.recorded(Command::DeleteTexture { texture: self.id })
    }
}

/// A texture that covers the six sides of a cube.
#[derive(Debug)]
pub struct TextureCubeMap {
    id: u32,
    width: u32,
    height: u32,
    format: Format,
    element: ElementType,
    number_of_mip_maps: u32,
}

impl View for TextureCubeMap {
    type V = TextureCubeMapView;

    closed spec fn view(&self) -> TextureCubeMapView {
        TextureCubeMapView {
            id: self.id,
            width: self.width,
            height: self.height,
            format: self.format,
            element: self.element,
            number_of_mip_maps: self.number_of_mip_maps,
        }
    }
}

impl TextureCubeMap {
    #[verifier::type_invariant]
    spec fn owns_a_name(self) -> bool {
        self.id != consts::NO_OBJECT && self.number_of_mip_maps >= 1
    }

    /// Why a cube map cannot be made from `cpu_texture` under the name
    /// `handle`, if it cannot: the driver refused the name, or it has no
    /// storage format for the texels, or the data is not six faces long.
    /// The first that applies is reported.
    pub open spec fn creation_error(handle: u32, cpu_texture: &CPUTexture) -> Option<Error> {
        if handle == consts::NO_OBJECT {
            Some(Error::AllocationError)
        } else if native_format(cpu_texture.format, cpu_texture.data@.element_type()) is None {
            Some(
                Error::UnsupportedFormat {
                    format: cpu_texture.format,
                    element: cpu_texture.data@.element_type(),
                },
            )
        } else if length_check(
            cpu_texture.width,
            cpu_texture.height,
            FACES,
            cpu_texture.format,
            cpu_texture.data@.len() as usize,
        ) is Err {
            Some(
                length_check(
                    cpu_texture.width,
                    cpu_texture.height,
                    FACES,
                    cpu_texture.format,
                    cpu_texture.data@.len() as usize,
                )->Err_0,
            )
        } else {
            None
        }
    }

    /// The cube map that `new` makes.
    pub open spec fn created(handle: u32, cpu_texture: &CPUTexture) -> TextureCubeMapView {
        TextureCubeMapView {
            id: handle,
            width: cpu_texture.width,
            height: cpu_texture.height,
            format: cpu_texture.format,
            element: cpu_texture.data@.element_type(),
            number_of_mip_maps: mip_level_count(
                cpu_texture.mip_map_filter,
                cpu_texture.width,
                cpu_texture.height,
                1,
            ) as u32,
        }
    }

    /// `context` after the sampler parameters of the cube map that `new`
    /// makes have been set, on all three wrap axes, and the cube map has
    /// been bound for the storage call.
    pub open spec fn configured(
        context: ContextView,
        handle: u32,
        cpu_texture: &CPUTexture,
    ) -> ContextView {
        with_parameters(
            context,
            handle,
            consts::TEXTURE_CUBE_MAP,
            cpu_texture.min_filter,
            cpu_texture.mag_filter,
            effective_mip_filter(
                Self::created(handle, cpu_texture).number_of_mip_maps,
                cpu_texture.mip_map_filter,
            ),
            cpu_texture.wrap_s,
            cpu_texture.wrap_t,
            Some(cpu_texture.wrap_r),
        ).recorded(Command::BindTexture { target: consts::TEXTURE_CUBE_MAP, texture: handle })
    }

    /// `context` after the parameters have been set and storage for all
    /// levels has been reserved.
    pub open spec fn reserved(
        context: ContextView,
        handle: u32,
        cpu_texture: &CPUTexture,
    ) -> ContextView {
        Self::configured(context, handle, cpu_texture).recorded(
            Command::TexStorage2D {
                target: consts::TEXTURE_CUBE_MAP,
                levels: Self::created(handle, cpu_texture).number_of_mip_maps,
                internal_format: native_format(
                    cpu_texture.format,
                    cpu_texture.data@.element_type(),
                )->Some_0,
                width: cpu_texture.width,
                height: cpu_texture.height,
            },
        )
    }

    /// `context` after `new` has made a cube map: its sampler parameters are
    /// set, storage for all its levels is reserved, and its faces are filled.
    pub open spec fn creating(
        context: ContextView,
        handle: u32,
        cpu_texture: &CPUTexture,
    ) -> ContextView {
        Self::created(handle, cpu_texture).filled(
            Self::reserved(context, handle, cpu_texture),
            cpu_texture.data@,
        )
    }

    /// `context` after `new` has refused with `error`. Nothing is recorded
    /// where the driver refused the name. The sampler parameters are set
    /// and the cube map is bound by the time the storage format is found
    /// missing, and those calls stay recorded. Data of the wrong length is
    /// found when the faces are filled, after storage has been reserved:
    /// nothing is uploaded, and the name goes back to the driver, once.
    pub open spec fn refusing(
        context: ContextView,
        handle: u32,
        cpu_texture: &CPUTexture,
        error: Error,
    ) -> ContextView {
        match error {
            Error::AllocationError => context,
            Error::UnsupportedFormat { .. } => Self::configured(context, handle, cpu_texture),
            _ => Self::created(handle, cpu_texture).released(
                Self::reserved(context, handle, cpu_texture),
            ),
        }
    }

    /// Makes a cube map under the name `handle`, which the driver has just
    /// handed out, and fills its faces from the image data. The steps are
    /// taken in order: the name is adopted, the sampler parameters are set,
    /// the storage format is negotiated and storage reserved, the faces are
    /// uploaded. A step that fails ends the construction; what was recorded
    /// before it stays recorded, and a cube map that cannot be filled is
    /// released again.
    pub fn new(context: &mut Context, handle: u32, cpu_texture: &CPUTexture) -> (result: Result<
        TextureCubeMap,
        Error,
    >)
        ensures
            match result {
                Ok(texture) => {
                    &&& Self::creation_error(handle, cpu_texture) is None
                    &&& texture@ == Self::created(handle, cpu_texture)
                    &&& final(context)@ == Self::creating(old(context)@, handle, cpu_texture)
                },
                Err(error) => {
                    &&& Self::creation_error(handle, cpu_texture) == Some(error)
                    &&& final(context)@ == Self::refusing(
                        old(context)@,
                        handle,
                        cpu_texture,
                        error,
                    )
                },
            },
            final(context)@.bindings == old(context)@.bindings,
            result is Err ==> final(context)@.uploads == old(context)@.uploads,
    {
        let id = generate(handle)?;
        let number_of_mip_maps = calculate_number_of_mip_maps(
            cpu_texture.mip_map_filter,
            cpu_texture.width,
            cpu_texture.height,
            1,
        );
        set_parameters(
            context,
            id,
            consts::TEXTURE_CUBE_MAP,
            cpu_texture.min_filter,
            cpu_texture.mag_filter,
            if number_of_mip_maps == 1 {
                None
            } else {
                cpu_texture.mip_map_filter
            },
            cpu_texture.wrap_s,
            cpu_texture.wrap_t,
            Some(cpu_texture.wrap_r),
        );
        context.record(Command::BindTexture { target: consts::TEXTURE_CUBE_MAP, texture: id });
        let storage = internal_format(cpu_texture.format, cpu_texture.data.element_type())?;
        context.record(
            Command::TexStorage2D {
                target: consts::TEXTURE_CUBE_MAP,
                levels: number_of_mip_maps,
                internal_format: storage,
                width: cpu_texture.width,
                height: cpu_texture.height,
            },
        );
        let mut texture = TextureCubeMap {
            id,
            width: cpu_texture.width,
            height: cpu_texture.height,
            format: cpu_texture.format,
            element: cpu_texture.data.element_type(),
            number_of_mip_maps,
        };
        match texture.fill(context, &cpu_texture.data) {
            Ok(()) => Ok(texture),
            Err(error) => {
                texture.release(context);
                Err(error)
            },
        }
    }

    /// Replaces all six faces with `data`, which holds them one after the
    /// other in the order right, left, top, bottom, front, back, and
    /// rebuilds the mip chain. Data of any other length than six faces is
    /// refused, and so is data of another kind than the cube map's elements.
    pub fn fill(&mut self, context: &mut Context, data: &PixelData) -> (result: Result<(), Error>)
        ensures
            final(self)@ == old(self)@,
            result == old(self)@.fill_check(data@),
            data@.len() != expected_length(
                old(self)@.width,
                old(self)@.height,
                FACES,
                old(self)@.format,
            ) ==> result matches Err(Error::DataLengthMismatch { .. }),
            final(context)@ == if result is Ok {
                old(self)@.filled(old(context)@, data@)
            } else {
                old(context)@
            },
            final(context)@.bindings == old(context)@.bindings,
    {
        check_data_length(self.width, self.height, FACES, self.format, data.len())?;
        if data.element_type() != self.element {
            return Err(Error::FormatMismatch);
        }
        let length = data.len();
        let offset = length / 6;
        context.record(Command::BindTexture { target: consts::TEXTURE_CUBE_MAP, texture: self.id });
        let ghost bound = context@;
        let mut i: u32 = 0;
        while i < 6
            invariant
                i <= 6,
                length == data@.len(),
                offset == length / 6,
                *self == *old(self),
                context@ == self@.faces_uploaded(bound, data@, i as nat),
                context@.bindings == bound.bindings,
            decreases 6 - i,
        {
            assert(i * offset <= (i + 1) * offset <= length) by (nonlinear_arith)
                requires
                    0 <= i < 6,
                    0 <= offset,
                    6 * offset <= length,
            ;
            let start = i as usize * offset;
            let end = (i as usize + 1) * offset;
            upload(
                context,
                consts::TEXTURE_CUBE_MAP_POSITIVE_X + i,
                self.width,
                self.height,
                self.format,
                data.slice(start, end),
            );
            i = i + 1;
        }
        self.generate_mip_maps(context);
        Ok(())
    }

    /// Rebuilds the mip chain from the base level, if there is a chain.
    pub fn generate_mip_maps(&self, context: &mut Context)
        ensures
            final(context)@ == with_mip_maps(
                old(context)@,
                self@.id,
                consts::TEXTURE_CUBE_MAP,
                self@.number_of_mip_maps,
            ),
    {
        regenerate_mip_maps(context, self.id, consts::TEXTURE_CUBE_MAP, self.number_of_mip_maps);
    }

    /// Binds the cube map to sampling unit `location` for the draws that follow.
    pub fn bind(&self, context: &mut Context, location: u32)
        requires
            consts::TEXTURE0 + location <= u32::MAX,
        ensures
            final(context)@ == bound_at(old(context)@, self@.id, consts::TEXTURE_CUBE_MAP, location),
    {
        bind_at(context, self.id, consts::TEXTURE_CUBE_MAP, location);
    }

    /// The name the cube map has with the driver; never the name of no object.
    pub fn id(&self) -> (id: u32)
        ensures
            id == self@.id,
            id != consts::NO_OBJECT,
    {
        proof {
            use_type_invariant(self);
        }
        self.id
    }

    /// What one element of the faces is.
    pub fn element(&self) -> (element: ElementType)
        ensures
            element == self@.element,
    {
        self.element
    }

    /// Width of one face.
    pub fn width(&self) -> (width: u32)
        ensures
            width == self@.width,
    {
        self.width
    }

    /// Height of one face.
    pub fn height(&self) -> (height: u32)
        ensures
            height == self@.height,
    {
        self.height
    }

    /// Ends the cube map's life: its name goes back to the driver.
    pub fn release(self, context: &mut Context)
        ensures
            final(context)@ == self@.released(old(context)@),
    {
        context.record(Command::DeleteTexture { texture: self.id });
    }
}

} // verus!

//! Logical pixel formats, element types and sampler settings, and the
//! driver enumerants that stand for them.

use vstd::prelude::*;
use crate::consts;
use crate::error::Error;

verus! {

/// Which colour channels a texel has.
#[derive(Clone, Copy, Debug, PartialEq, Eq, Hash, Structural)]
pub enum Format {
    R,
    RG,
    RGB,
    RGBA,
}

/// What one element of pixel data is. The floating-point kinds travel as
/// their IEEE 754 bit patterns.
#[derive(Clone, Copy, Debug, PartialEq, Eq, Hash, Structural)]
pub enum ElementType {
    /// 8-bit unsigned, linear, normalised to `[0, 1]`.
    U8,
    /// 8-bit unsigned, sRGB-encoded colour.
    Srgb8,
    /// 16-bit floating point.
    F16,
    /// 32-bit floating point.
    F32,
}

/// Storage formats of depth render targets.
#[derive(Copy, Clone, Eq, PartialEq, Ord, PartialOrd, Hash, Debug, Structural)]
pub enum DepthFormat {
    Depth16,
    Depth24,
    Depth32F,
}

/// How texels are picked when a texture is sampled between texel centres.
#[derive(Clone, Copy, Debug, PartialEq, Eq, Hash, Structural)]
pub enum Interpolation {
    Nearest,
    Linear,
}

/// What sampling does outside the `[0, 1]` range of a texture coordinate.
#[derive(Clone, Copy, Debug, PartialEq, Eq, Hash, Structural)]
pub enum Wrapping {
    Repeat,
    MirroredRepeat,
    ClampToEdge,
}

impl Format {
    pub open spec fn channel_count(self) -> nat {
        match self {
            Format::R => 1,
            Format::RG => 2,
            Format::RGB => 3,
            Format::RGBA => 4,
        }
    }

    /// Number of elements one texel of this format takes.
    pub fn color_channel_count(&self) -> (count: u32)
        ensures
            count == self.channel_count(),
            1 <= count <= 4,
    {
        match self {
            Format::R => 1,
            Format::RG => 2,
            Format::RGB => 3,
            Format::RGBA => 4,
        }
    }
}

/// The sized storage format the driver has for texels of `format` made of
/// `element`s, if it has one. Every combination exists except single- and
/// two-channel sRGB, for which the driver has no storage format.
pub open spec fn native_format(format: Format, element: ElementType) -> Option<u32> {
    match (element, format) {
        (ElementType::U8, Format::R) => Some(consts::R8),
        (ElementType::U8, Format::RG) => Some(consts::RG8),
        (ElementType::U8, Format::RGB) => Some(consts::RGB8),
        (ElementType::U8, Format::RGBA) => Some(consts::RGBA8),
        (ElementType::Srgb8, Format::R) => None,
        (ElementType::Srgb8, Format::RG) => None,
        (ElementType::Srgb8, Format::RGB) => Some(consts::SRGB8),
        (ElementType::Srgb8, Format::RGBA) => Some(consts::SRGB8_ALPHA8),
        (ElementType::F16, Format::R) => Some(consts::R16F),
        (ElementType::F16, Format::RG) => Some(consts::RG16F),
        (ElementType::F16, Format::RGB) => Some(consts::RGB16F),
        (ElementType::F16, Format::RGBA) => Some(consts::RGBA16F),
        (ElementType::F32, Format::R) => Some(consts::R32F),
        (ElementType::F32, Format::RG) => Some(consts::RG32F),
        (ElementType::F32, Format::RGB) => Some(consts::RGB32F),
        (ElementType::F32, Format::RGBA) => Some(consts::RGBA32F),
    }
}

/// Negotiates the storage format for texels of `format` made of `element`s.
pub fn internal_format(format: Format, element: ElementType) -> (result: Result<u32, Error>)
    ensures
        result == match native_format(format, element) {
            Some(native) => Ok::<u32, Error>(native),
            None => Err(Error::UnsupportedFormat { format, element }),
        },
{
    match (element, format) {
        (ElementType::U8, Format::R) => Ok(consts::R8),
        (ElementType::U8, Format::RG) => Ok(consts::RG8),
        (ElementType::U8, Format::RGB) => Ok(consts::RGB8),
        (ElementType::U8, Format::RGBA) => Ok(consts::RGBA8),
        (ElementType::Srgb8, Format::RGB) => Ok(consts::SRGB8),
        (ElementType::Srgb8, Format::RGBA) => Ok(consts::SRGB8_ALPHA8),
        (ElementType::Srgb8, _) => Err(Error::UnsupportedFormat { format, element }),
        (ElementType::F16, Format::R) => Ok(consts::R16F),
        (ElementType::F16, Format::RG) => Ok(consts::RG16F),
        (ElementType::F16, Format::RGB) => Ok(consts::RGB16F),
        (ElementType::F16, Format::RGBA) => Ok(consts::RGBA16F),
        (ElementType::F32, Format::R) => Ok(consts::R32F),
        (ElementType::F32, Format::RG) => Ok(consts::RG32F),
        (ElementType::F32, Format::RGB) => Ok(consts::RGB32F),
        (ElementType::F32, Format::RGBA) => Ok(consts::RGBA32F),
    }
}

pub open spec fn transfer_format(format: Format) -> u32 {
    match format {
        Format::R => consts::RED,
        Format::RG => consts::RG,
        Format::RGB => consts::RGB,
        Format::RGBA => consts::RGBA,
    }
}

/// The enumerant that tells the driver how the channels of transferred
/// pixel data are laid out.
pub fn format_from(format: Format) -> (native: u32)
    ensures
        native == transfer_format(format),
{
    match format {
        Format::R => consts::RED,
        Format::RG => consts::RG,
        Format::RGB => consts::RGB,
        Format::RGBA => consts::RGBA,
    }
}

impl ElementType {
    pub open spec fn transfer_type(self) -> u32 {
        match self {
            ElementType::U8 => consts::UNSIGNED_BYTE,
            ElementType::Srgb8 => consts::UNSIGNED_BYTE,
            ElementType::F16 => consts::HALF_FLOAT,
            ElementType::F32 => consts::FLOAT,
        }
    }

    /// The enumerant that tells the driver what one element of transferred
    /// pixel data is.
    pub fn data_type(&self) -> (native: u32)
        ensures
            native == self.transfer_type(),
    {
        match self {
            ElementType::U8 => consts::UNSIGNED_BYTE,
            ElementType::Srgb8 => consts::UNSIGNED_BYTE,
            ElementType::F16 => consts::HALF_FLOAT,
            ElementType::F32 => consts::FLOAT,
        }
    }
}

pub open spec fn depth_storage_format(format: DepthFormat) -> u32 {
    match format {
        DepthFormat::Depth16 => consts::DEPTH_COMPONENT16,
        DepthFormat::Depth24 => consts::DEPTH_COMPONENT24,
        DepthFormat::Depth32F => consts::DEPTH_COMPONENT32F,
    }
}

/// The storage format of a depth target. Every depth format has one.
pub fn internal_format_from_depth(format: DepthFormat) -> (native: u32)
    ensures
        native == depth_storage_format(format),
{
    match format {
        DepthFormat::Depth16 => consts::DEPTH_COMPONENT16,
        DepthFormat::Depth24 => consts::DEPTH_COMPONENT24,
        DepthFormat::Depth32F => consts::DEPTH_COMPONENT32F,
    }
}

pub open spec fn interpolation_param(interpolation: Interpolation) -> i32 {
    match interpolation {
        Interpolation::Nearest => consts::NEAREST,
        Interpolation::Linear => consts::LINEAR,
    }
}

pub fn interpolation_from(interpolation: Interpolation) -> (param: i32)
    ensures
        param == interpolation_param(interpolation),
{
    match interpolation {
        Interpolation::Nearest => consts::NEAREST,
        Interpolation::Linear => consts::LINEAR,
    }
}

pub open spec fn wrapping_param(wrapping: Wrapping) -> i32 {
    match wrapping {
        Wrapping::Repeat => consts::REPEAT,
        Wrapping::MirroredRepeat => consts::MIRRORED_REPEAT,
        Wrapping::ClampToEdge => consts::CLAMP_TO_EDGE,
    }
}

pub fn wrapping_from(wrapping: Wrapping) -> (param: i32)
    ensures
        param == wrapping_param(wrapping),
{
    match wrapping {
        Wrapping::Repeat => consts::REPEAT,
        Wrapping::MirroredRepeat => consts::MIRRORED_REPEAT,
        Wrapping::ClampToEdge => consts::CLAMP_TO_EDGE,
    }
}

/// The minification setting: `min_filter` picks texels within a level,
/// `mip_map_filter`, where there is one, picks between levels.
pub open spec fn minification_param(
    min_filter: Interpolation,
    mip_map_filter: Option<Interpolation>,
) -> i32 {
    match (mip_map_filter, min_filter) {
        (None, _) => interpolation_param(min_filter),
        (Some(Interpolation::Nearest), Interpolation::Nearest) => consts::NEAREST_MIPMAP_NEAREST,
        (Some(Interpolation::Nearest), Interpolation::Linear) => consts::LINEAR_MIPMAP_NEAREST,
        (Some(Interpolation::Linear), Interpolation::Nearest) => consts::NEAREST_MIPMAP_LINEAR,
        (Some(Interpolation::Linear), Interpolation::Linear) => consts::LINEAR_MIPMAP_LINEAR,
    }
}

pub fn minification_from(min_filter: Interpolation, mip_map_filter: Option<Interpolation>) -> (param:
    i32)
    ensures
        param == minification_param(min_filter, mip_map_filter),
{
    match (mip_map_filter, min_filter) {
        (None, _) => interpolation_from(min_filter),
        (Some(Interpolation::Nearest), Interpolation::Nearest) => consts::NEAREST_MIPMAP_NEAREST,
        (Some(Interpolation::Nearest), Interpolation::Linear) => consts::LINEAR_MIPMAP_NEAREST,
        (Some(Interpolation::Linear), Interpolation::Nearest) => consts::NEAREST_MIPMAP_LINEAR,
        (Some(Interpolation::Linear), Interpolation::Linear) => consts::LINEAR_MIPMAP_LINEAR,
    }
}

} // verus!

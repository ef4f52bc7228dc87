//! Pixel data on the CPU side.

use vstd::prelude::*;
use crate::format::{ElementType, Format, Interpolation, Wrapping};

verus! {

/// A run of pixel elements, tagged with what an element is. The
/// floating-point kinds hold IEEE 754 bit patterns.
#[derive(Debug, PartialEq, Eq)]
pub enum PixelData {
    U8(Vec<u8>),
    Srgb8(Vec<u8>),
    F16(Vec<u16>),
    F32(Vec<u32>),
}

/// What a `PixelData` holds, as a mathematical sequence.
pub enum PixelSeq {
    U8(Seq<u8>),
    Srgb8(Seq<u8>),
    F16(Seq<u16>),
    F32(Seq<u32>),
}

impl PixelSeq {
    pub open spec fn len(self) -> nat {
        match self {
            PixelSeq::U8(s) => s.len(),
            PixelSeq::Srgb8(s) => s.len(),
            PixelSeq::F16(s) => s.len(),
            PixelSeq::F32(s) => s.len(),
        }
    }

    pub open spec fn element_type(self) -> ElementType {
        match self {
            PixelSeq::U8(_) => ElementType::U8,
            PixelSeq::Srgb8(_) => ElementType::Srgb8,
            PixelSeq::F16(_) => ElementType::F16,
            PixelSeq::F32(_) => ElementType::F32,
        }
    }

    /// The elements from `start` up to, not including, `end`.
    pub open spec fn subrange(self, start: int, end: int) -> PixelSeq {
        match self {
            PixelSeq::U8(s) => PixelSeq::U8(s.subrange(start, end)),
            PixelSeq::Srgb8(s) => PixelSeq::Srgb8(s.subrange(start, end)),
            PixelSeq::F16(s) => PixelSeq::F16(s.subrange(start, end)),
            PixelSeq::F32(s) => PixelSeq::F32(s.subrange(start, end)),
        }
    }

    /// `len` elements of kind `element`, all zero.
    pub open spec fn zeros(element: ElementType, len: nat) -> PixelSeq {
        match element {
            ElementType::U8 => PixelSeq::U8(Seq::new(len, |i: int| 0u8)),
            ElementType::Srgb8 => PixelSeq::Srgb8(Seq::new(len, |i: int| 0u8)),
            ElementType::F16 => PixelSeq::F16(Seq::new(len, |i: int| 0u16)),
            ElementType::F32 => PixelSeq::F32(Seq::new(len, |i: int| 0u32)),
        }
    }
}

impl View for PixelData {
    type V = PixelSeq;

    open spec fn view(&self) -> PixelSeq {
        match self {
            PixelData::U8(v) => PixelSeq::U8(v@),
            PixelData::Srgb8(v) => PixelSeq::Srgb8(v@),
            PixelData::F16(v) => PixelSeq::F16(v@),
            PixelData::F32(v) => PixelSeq::F32(v@),
        }
    }
}

impl Clone for PixelData {
    fn clone(&self) -> (copy: PixelData)
        ensures
            copy@ == self@,
    {
        match self {
            PixelData::U8(v) => PixelData::U8(v.clone()),
            PixelData::Srgb8(v) => PixelData::Srgb8(v.clone()),
            PixelData::F16(v) => PixelData::F16(v.clone()),
            PixelData::F32(v) => PixelData::F32(v.clone()),
        }
    }
}

/// A copy of the elements of `source` from `start` up to, not including, `end`.
fn copy_range<T: Copy>(source: &Vec<T>, start: usize, end: usize) -> (part: Vec<T>)
    requires
        start <= end <= source@.len(),
    ensures
        part@ == source@.subrange(start as int, end as int),
{
    let mut part: Vec<T> = Vec::new();
    let mut i: usize = start;
    while i < end
        invariant
            start <= i <= end <= source@.len(),
            part@ == source@.subrange(start as int, i as int),
        decreases end - i,
    {
        part.push(source[i]);
        i += 1;
    }
    part
}

impl PixelData {
    /// Number of elements.
    pub fn len(&self) -> (len: usize)
        ensures
            len == self@.len(),
    {
        match self {
            PixelData::U8(v) => v.len(),
            PixelData::Srgb8(v) => v.len(),
            PixelData::F16(v) => v.len(),
            PixelData::F32(v) => v.len(),
        }
    }

    /// What one element is.
    pub fn element_type(&self) -> (element: ElementType)
        ensures
            element == self@.element_type(),
    {
        match self {
            PixelData::U8(_) => ElementType::U8,
            PixelData::Srgb8(_) => ElementType::Srgb8,
            PixelData::F16(_) => ElementType::F16,
            PixelData::F32(_) => ElementType::F32,
        }
    }

    /// A buffer of `len` zero elements of kind `element`.
    pub fn zeros(element: ElementType, len: usize) -> (data: PixelData)
        ensures
            data@ == PixelSeq::zeros(element, len as nat),
    {
        match element {
            ElementType::U8 => {
                let buffer = vec![0u8; len];
                assert(buffer@ =~= Seq::new(len as nat, |i: int| 0u8));
                PixelData::U8(buffer)
            },
            ElementType::Srgb8 => {
                let buffer = vec![0u8; len];
                assert(buffer@ =~= Seq::new(len as nat, |i: int| 0u8));
                PixelData::Srgb8(buffer)
            },
            ElementType::F16 => {
                let buffer = vec![0u16; len];
                assert(buffer@ =~= Seq::new(len as nat, |i: int| 0u16));
                PixelData::F16(buffer)
            },
            ElementType::F32 => {
                let buffer = vec![0u32; len];
                assert(buffer@ =~= Seq::new(len as nat, |i: int| 0u32));
                PixelData::F32(buffer)
            },
        }
    }

    /// A copy of the elements from `start` up to, not including, `end`.
    pub fn slice(&self, start: usize, end: usize) -> (part: PixelData)
        requires
            start <= end <= self@.len(),
        ensures
            part@ == self@.subrange(start as int, end as int),
    {
        match self {
            PixelData::U8(v) => PixelData::U8(copy_range(v, start, end)),
            PixelData::Srgb8(v) => PixelData::Srgb8(copy_range(v, start, end)),
            PixelData::F16(v) => PixelData::F16(copy_range(v, start, end)),
            PixelData::F32(v) => PixelData::F32(copy_range(v, start, end)),
        }
    }
}

/// An image in CPU memory together with how it is to be sampled.
pub struct CPUTexture {
    pub data: PixelData,
    pub width: u32,
    pub height: u32,
    pub format: Format,
    pub min_filter: Interpolation,
    pub mag_filter: Interpolation,
    pub mip_map_filter: Option<Interpolation>,
    pub wrap_s: Wrapping,
    pub wrap_t: Wrapping,
    pub wrap_r: Wrapping,
}

} // verus!

//! Numeric values of the driver's enumerants, as the OpenGL registry assigns them.

use vstd::prelude::*;

verus! {

pub const TEXTURE_2D: u32 = 0x0DE1;

pub const TEXTURE_CUBE_MAP: u32 = 0x8513;

/// First of the six cube faces; the others follow consecutively in the
/// order right, left, top, bottom, front, back.
pub const TEXTURE_CUBE_MAP_POSITIVE_X: u32 = 0x8515;

pub const TEXTURE_2D_ARRAY: u32 = 0x8C1A;

/// First texture unit; unit `i` is `TEXTURE0 + i`.
pub const TEXTURE0: u32 = 0x84C0;

pub const TEXTURE_MAG_FILTER: u32 = 0x2800;

pub const TEXTURE_MIN_FILTER: u32 = 0x2801;

pub const TEXTURE_WRAP_S: u32 = 0x2802;

pub const TEXTURE_WRAP_T: u32 = 0x2803;

pub const TEXTURE_WRAP_R: u32 = 0x8072;

pub const NEAREST: i32 = 0x2600;

pub const LINEAR: i32 = 0x2601;

pub const NEAREST_MIPMAP_NEAREST: i32 = 0x2700;

pub const LINEAR_MIPMAP_NEAREST: i32 = 0x2701;

pub const NEAREST_MIPMAP_LINEAR: i32 = 0x2702;

pub const LINEAR_MIPMAP_LINEAR: i32 = 0x2703;

pub const REPEAT: i32 = 0x2901;

pub const CLAMP_TO_EDGE: i32 = 0x812F;

pub const MIRRORED_REPEAT: i32 = 0x8370;

pub const R8: u32 = 0x8229;

pub const RG8: u32 = 0x822B;

pub const RGB8: u32 = 0x8051;

pub const RGBA8: u32 = 0x8058;

pub const SRGB8: u32 = 0x8C41;

pub const SRGB8_ALPHA8: u32 = 0x8C43;

pub const R16F: u32 = 0x822D;

pub const RG16F: u32 = 0x822F;

pub const RGB16F: u32 = 0x881B;

pub const RGBA16F: u32 = 0x881A;

pub const R32F: u32 = 0x822E;

pub const RG32F: u32 = 0x8230;

pub const RGB32F: u32 = 0x8815;

pub const RGBA32F: u32 = 0x8814;

pub const DEPTH_COMPONENT16: u32 = 0x81A5;

pub const DEPTH_COMPONENT24: u32 = 0x81A6;

pub const DEPTH_COMPONENT32F: u32 = 0x8CAC;

pub const RED: u32 = 0x1903;

pub const RG: u32 = 0x8227;

pub const RGB: u32 = 0x1907;

pub const RGBA: u32 = 0x1908;

pub const UNSIGNED_BYTE: u32 = 0x1401;

pub const HALF_FLOAT: u32 = 0x140B;

pub const FLOAT: u32 = 0x1406;

pub const READ_FRAMEBUFFER: u32 = 0x8CA8;

pub const DRAW_FRAMEBUFFER: u32 = 0x8CA9;

/// Names the draw and the read binding point together.
pub const FRAMEBUFFER: u32 = 0x8D40;

/// First colour attachment point; point `i` is `COLOR_ATTACHMENT0 + i`.
pub const COLOR_ATTACHMENT0: u32 = 0x8CE0;

pub const DEPTH_ATTACHMENT: u32 = 0x8D00;

/// Number of colour attachment points the enumeration has room for: the
/// value after the last one is already `DEPTH_ATTACHMENT`.
pub const MAX_COLOR_ATTACHMENTS: u32 = 32;

pub const DEPTH_BUFFER_BIT: u32 = 0x0100;

pub const STENCIL_BUFFER_BIT: u32 = 0x0400;

pub const COLOR_BUFFER_BIT: u32 = 0x4000;

pub const TRIANGLES: u32 = 0x0004;

/// The framebuffer name that selects the window-system framebuffer. It is
/// never the name of an object, so a driver that hands it out has refused.
pub const NO_OBJECT: u32 = 0;

} // verus!

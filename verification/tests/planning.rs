use gpu_texture::consts;
use gpu_texture::error::Error;
use gpu_texture::format::{
    format_from, interpolation_from, internal_format, internal_format_from_depth,
    minification_from, wrapping_from, DepthFormat, ElementType, Format, Interpolation, Wrapping,
};
use gpu_texture::mip::calculate_number_of_mip_maps;
use gpu_texture::states::{ClearState, Viewport, WriteMask, ONE, ZERO};

#[test]
fn no_mip_filter_gives_one_level() {
    assert_eq!(calculate_number_of_mip_maps(None, 4, 4, 1), 1);
    assert_eq!(calculate_number_of_mip_maps(None, 256, 256, 1), 1);
    assert_eq!(calculate_number_of_mip_maps(None, 1, 1, 1), 1);
    assert_eq!(calculate_number_of_mip_maps(None, u32::MAX, u32::MAX, u32::MAX), 1);
    assert_eq!(calculate_number_of_mip_maps(None, 0, 0, 0), 1);
}

#[test]
fn mip_filter_gives_floor_log2_plus_one() {
    let linear = Some(Interpolation::Linear);
    assert_eq!(calculate_number_of_mip_maps(linear, 1, 1, 1), 1);
    assert_eq!(calculate_number_of_mip_maps(linear, 2, 2, 1), 2);
    assert_eq!(calculate_number_of_mip_maps(linear, 3, 3, 1), 2);
    assert_eq!(calculate_number_of_mip_maps(linear, 4, 4, 1), 3);
    assert_eq!(calculate_number_of_mip_maps(linear, 255, 255, 1), 8);
    assert_eq!(calculate_number_of_mip_maps(linear, 256, 256, 1), 9);
    assert_eq!(calculate_number_of_mip_maps(linear, 257, 1, 1), 9);
    assert_eq!(calculate_number_of_mip_maps(Some(Interpolation::Nearest), 1024, 512, 1), 11);
}

#[test]
fn mip_levels_follow_the_longest_extent() {
    let nearest = Some(Interpolation::Nearest);
    assert_eq!(calculate_number_of_mip_maps(nearest, 1, 64, 1), 7);
    assert_eq!(calculate_number_of_mip_maps(nearest, 16, 2, 1), 5);
    assert_eq!(calculate_number_of_mip_maps(nearest, 2, 2, 100), 7);
    assert_eq!(calculate_number_of_mip_maps(nearest, 100, 2, 2), 7);
}

#[test]
fn mip_levels_at_the_edges_of_the_range() {
    let linear = Some(Interpolation::Linear);
    assert_eq!(calculate_number_of_mip_maps(linear, 0, 0, 0), 1);
    assert_eq!(calculate_number_of_mip_maps(linear, u32::MAX, 1, 1), 32);
    assert_eq!(calculate_number_of_mip_maps(linear, 0x8000_0000, 1, 1), 32);
    assert_eq!(calculate_number_of_mip_maps(linear, 0x7fff_ffff, 1, 1), 31);
}

#[test]
fn every_level_count_brackets_the_longest_extent() {
    let linear = Some(Interpolation::Linear);
    for extent in 1u32..2000 {
        let levels = calculate_number_of_mip_maps(linear, extent, 1, 1);
        assert!(levels >= 1);
        assert!(1u64 << (levels - 1) <= extent as u64);
        assert!((extent as u64) < 1u64 << levels);
        assert_eq!(extent >> (levels - 1), 1);
    }
}

#[test]
fn channel_counts() {
    assert_eq!(Format::R.color_channel_count(), 1);
    assert_eq!(Format::RG.color_channel_count(), 2);
    assert_eq!(Format::RGB.color_channel_count(), 3);
    assert_eq!(Format::RGBA.color_channel_count(), 4);
}

#[test]
fn storage_formats_of_bytes() {
    assert_eq!(internal_format(Format::R, ElementType::U8), Ok(gl::R8));
    assert_eq!(internal_format(Format::RG, ElementType::U8), Ok(gl::RG8));
    assert_eq!(internal_format(Format::RGB, ElementType::U8), Ok(gl::RGB8));
    assert_eq!(internal_format(Format::RGBA, ElementType::U8), Ok(gl::RGBA8));
}

#[test]
fn storage_formats_of_floats() {
    assert_eq!(internal_format(Format::R, ElementType::F16), Ok(gl::R16F));
    assert_eq!(internal_format(Format::RG, ElementType::F16), Ok(gl::RG16F));
    assert_eq!(internal_format(Format::RGB, ElementType::F16), Ok(gl::RGB16F));
    assert_eq!(internal_format(Format::RGBA, ElementType::F16), Ok(gl::RGBA16F));
    assert_eq!(internal_format(Format::R, ElementType::F32), Ok(gl::R32F));
    assert_eq!(internal_format(Format::RG, ElementType::F32), Ok(gl::RG32F));
    assert_eq!(internal_format(Format::RGB, ElementType::F32), Ok(gl::RGB32F));
    assert_eq!(internal_format(Format::RGBA, ElementType::F32), Ok(gl::RGBA32F));
}

#[test]
fn storage_formats_of_srgb() {
    assert_eq!(internal_format(Format::RGB, ElementType::Srgb8), Ok(gl::SRGB8));
    assert_eq!(internal_format(Format::RGBA, ElementType::Srgb8), Ok(gl::SRGB8_ALPHA8));
}

#[test]
fn srgb_without_three_channels_is_unsupported() {
    assert_eq!(
        internal_format(Format::R, ElementType::Srgb8),
        Err(Error::UnsupportedFormat { format: Format::R, element: ElementType::Srgb8 })
    );
    assert_eq!(
        internal_format(Format::RG, ElementType::Srgb8),
        Err(Error::UnsupportedFormat { format: Format::RG, element: ElementType::Srgb8 })
    );
}

#[test]
fn transfer_enumerants() {
    assert_eq!(format_from(Format::R), gl::RED);
    assert_eq!(format_from(Format::RG), gl::RG);
    assert_eq!(format_from(Format::RGB), gl::RGB);
    assert_eq!(format_from(Format::RGBA), gl::RGBA);
    assert_eq!(ElementType::U8.data_type(), gl::UNSIGNED_BYTE);
    assert_eq!(ElementType::Srgb8.data_type(), gl::UNSIGNED_BYTE);
    assert_eq!(ElementType::F16.data_type(), gl::HALF_FLOAT);
    assert_eq!(ElementType::F32.data_type(), gl::FLOAT);
}

#[test]
fn depth_storage_formats() {
    assert_eq!(internal_format_from_depth(DepthFormat::Depth16), gl::DEPTH_COMPONENT16);
    assert_eq!(internal_format_from_depth(DepthFormat::Depth24), gl::DEPTH_COMPONENT24);
    assert_eq!(internal_format_from_depth(DepthFormat::Depth32F), gl::DEPTH_COMPONENT32F);
}

#[test]
fn depth_formats_are_ordered_by_precision() {
    assert!(DepthFormat::Depth16 < DepthFormat::Depth24);
    assert!(DepthFormat::Depth24 < DepthFormat::Depth32F);
}

#[test]
fn sampler_enumerants() {
    assert_eq!(interpolation_from(Interpolation::Nearest) as u32, gl::NEAREST);
    assert_eq!(interpolation_from(Interpolation::Linear) as u32, gl::LINEAR);
    assert_eq!(wrapping_from(Wrapping::Repeat) as u32, gl::REPEAT);
    assert_eq!(wrapping_from(Wrapping::MirroredRepeat) as u32, gl::MIRRORED_REPEAT);
    assert_eq!(wrapping_from(Wrapping::ClampToEdge) as u32, gl::CLAMP_TO_EDGE);
}

#[test]
fn minification_combines_both_filters() {
    let nearest = Interpolation::Nearest;
    let linear = Interpolation::Linear;
    assert_eq!(minification_from(nearest, None) as u32, gl::NEAREST);
    assert_eq!(minification_from(linear, None) as u32, gl::LINEAR);
    assert_eq!(minification_from(nearest, Some(nearest)) as u32, gl::NEAREST_MIPMAP_NEAREST);
    assert_eq!(minification_from(linear, Some(nearest)) as u32, gl::LINEAR_MIPMAP_NEAREST);
    assert_eq!(minification_from(nearest, Some(linear)) as u32, gl::NEAREST_MIPMAP_LINEAR);
    assert_eq!(minification_from(linear, Some(linear)) as u32, gl::LINEAR_MIPMAP_LINEAR);
}

#[test]
fn enumerants_are_the_drivers() {
    assert_eq!(consts::TEXTURE_2D, gl::TEXTURE_2D);
    assert_eq!(consts::TEXTURE_CUBE_MAP, gl::TEXTURE_CUBE_MAP);
    assert_eq!(consts::TEXTURE_CUBE_MAP_POSITIVE_X, gl::TEXTURE_CUBE_MAP_POSITIVE_X);
    assert_eq!(consts::TEXTURE_2D_ARRAY, gl::TEXTURE_2D_ARRAY);
    assert_eq!(consts::TEXTURE0, gl::TEXTURE0);
    assert_eq!(consts::TEXTURE_MAG_FILTER, gl::TEXTURE_MAG_FILTER);
    assert_eq!(consts::TEXTURE_MIN_FILTER, gl::TEXTURE_MIN_FILTER);
    assert_eq!(consts::TEXTURE_WRAP_S, gl::TEXTURE_WRAP_S);
    assert_eq!(consts::TEXTURE_WRAP_T, gl::TEXTURE_WRAP_T);
    assert_eq!(consts::TEXTURE_WRAP_R, gl::TEXTURE_WRAP_R);
    assert_eq!(consts::READ_FRAMEBUFFER, gl::READ_FRAMEBUFFER);
    assert_eq!(consts::DRAW_FRAMEBUFFER, gl::DRAW_FRAMEBUFFER);
    assert_eq!(consts::FRAMEBUFFER, gl::FRAMEBUFFER);
    assert_eq!(consts::COLOR_ATTACHMENT0, gl::COLOR_ATTACHMENT0);
    assert_eq!(consts::DEPTH_ATTACHMENT, gl::DEPTH_ATTACHMENT);
    assert_eq!(consts::COLOR_BUFFER_BIT, gl::COLOR_BUFFER_BIT);
    assert_eq!(consts::DEPTH_BUFFER_BIT, gl::DEPTH_BUFFER_BIT);
    assert_eq!(consts::STENCIL_BUFFER_BIT, gl::STENCIL_BUFFER_BIT);
    assert_eq!(consts::TRIANGLES, gl::TRIANGLES);
}

#[test]
fn cube_faces_and_attachments_are_consecutive() {
    assert_eq!(consts::TEXTURE_CUBE_MAP_POSITIVE_X + 1, gl::TEXTURE_CUBE_MAP_NEGATIVE_X);
    assert_eq!(consts::TEXTURE_CUBE_MAP_POSITIVE_X + 2, gl::TEXTURE_CUBE_MAP_POSITIVE_Y);
    assert_eq!(consts::TEXTURE_CUBE_MAP_POSITIVE_X + 3, gl::TEXTURE_CUBE_MAP_NEGATIVE_Y);
    assert_eq!(consts::TEXTURE_CUBE_MAP_POSITIVE_X + 4, gl::TEXTURE_CUBE_MAP_POSITIVE_Z);
    assert_eq!(consts::TEXTURE_CUBE_MAP_POSITIVE_X + 5, gl::TEXTURE_CUBE_MAP_NEGATIVE_Z);
    assert_eq!(
        consts::COLOR_ATTACHMENT0 + consts::MAX_COLOR_ATTACHMENTS - 1,
        gl::COLOR_ATTACHMENT31
    );
    assert_eq!(consts::COLOR_ATTACHMENT0 + consts::MAX_COLOR_ATTACHMENTS, gl::DEPTH_ATTACHMENT);
    assert_eq!(consts::TEXTURE0 + 31, gl::TEXTURE31);
}

#[test]
fn float_bit_patterns() {
    assert_eq!(ZERO, 0.0f32.to_bits());
    assert_eq!(ONE, 1.0f32.to_bits());
    assert_eq!(f32::from_bits(ONE), 1.0);
}

#[test]
fn viewport_at_origo() {
    let viewport = Viewport::new_at_origo(7, 9);
    assert_eq!(viewport, Viewport { x: 0, y: 0, width: 7, height: 9 });
    assert!(viewport.fits_within(7, 9));
    assert!(viewport.fits_within(8, 10));
    assert!(!viewport.fits_within(6, 9));
    assert!(!viewport.fits_within(7, 8));
}

#[test]
fn viewport_with_an_offset() {
    let viewport = Viewport { x: 2, y: 3, width: 4, height: 5 };
    assert!(viewport.fits_within(6, 8));
    assert!(!viewport.fits_within(5, 8));
    assert!(!viewport.fits_within(6, 7));
    assert!(!Viewport { x: -1, y: 0, width: 1, height: 1 }.fits_within(4, 4));
    assert!(!Viewport { x: 0, y: -1, width: 1, height: 1 }.fits_within(4, 4));
    assert!(Viewport { x: 4, y: 4, width: 0, height: 0 }.fits_within(4, 4));
}

#[test]
fn viewport_at_the_limits_of_its_fields() {
    let viewport = Viewport { x: i32::MAX, y: i32::MAX, width: u32::MAX, height: u32::MAX };
    assert!(!viewport.fits_within(u32::MAX, u32::MAX));
    assert!(Viewport::new_at_origo(u32::MAX, u32::MAX).fits_within(u32::MAX, u32::MAX));
}

#[test]
fn clear_states() {
    let none = ClearState::none();
    assert_eq!(none.red, None);
    assert_eq!(none.depth, None);
    assert_eq!(none.stencil, None);
    let color = ClearState::color(ZERO, ZERO, ZERO, ONE);
    assert_eq!(color.alpha, Some(ONE));
    assert_eq!(color.depth, None);
    let depth = ClearState::depth(ONE);
    assert_eq!(depth.depth, Some(ONE));
    assert_eq!(depth.red, None);
    let both = ClearState { depth: Some(ONE), stencil: Some(3), ..color };
    assert_eq!(both.only_color(), color);
}

#[test]
fn write_masks() {
    assert!(WriteMask::color().red && WriteMask::color().alpha && !WriteMask::color().depth);
    assert!(WriteMask::depth().depth && !WriteMask::depth().red);
    assert!(WriteMask::color_and_depth().depth && WriteMask::color_and_depth().green);
    assert!(!WriteMask::color_and_depth().stencil);
}

use gpu_texture::context::{Command, Context};
use gpu_texture::cube_map::TextureCubeMap;
use gpu_texture::error::Error;
use gpu_texture::format::{ElementType, Format, Interpolation, Wrapping};
use gpu_texture::pixels::{CPUTexture, PixelData};
use gpu_texture::texture::{
    bind_at, check_data_length, generate, regenerate_mip_maps, set_parameters, upload, Texture2D,
};

fn image(width: u32, height: u32, format: Format, data: PixelData) -> CPUTexture {
    CPUTexture {
        data,
        width,
        height,
        format,
        min_filter: Interpolation::Linear,
        mag_filter: Interpolation::Nearest,
        mip_map_filter: None,
        wrap_s: Wrapping::Repeat,
        wrap_t: Wrapping::ClampToEdge,
        wrap_r: Wrapping::MirroredRepeat,
    }
}

fn bytes(len: usize) -> Vec<u8> {
    let mut data = Vec::new();
    for i in 0..len {
        data.push((i % 251) as u8);
    }
    data
}

#[test]
fn the_driver_refuses_with_the_name_of_no_object() {
    assert_eq!(generate(0), Err(Error::AllocationError));
    assert_eq!(generate(1), Ok(1));
    assert_eq!(generate(u32::MAX), Ok(u32::MAX));
}

#[test]
fn data_length_must_match_exactly() {
    assert_eq!(check_data_length(4, 4, 1, Format::RGBA, 64), Ok(()));
    assert_eq!(
        check_data_length(4, 4, 1, Format::RGBA, 63),
        Err(Error::DataLengthMismatch { expected: 64, actual: 63 })
    );
    assert_eq!(
        check_data_length(4, 4, 1, Format::RGBA, 65),
        Err(Error::DataLengthMismatch { expected: 64, actual: 65 })
    );
    assert_eq!(
        check_data_length(4, 4, 1, Format::RGBA, 0),
        Err(Error::DataLengthMismatch { expected: 64, actual: 0 })
    );
}

#[test]
fn data_length_for_every_format() {
    assert_eq!(check_data_length(3, 5, 1, Format::R, 15), Ok(()));
    assert_eq!(check_data_length(3, 5, 1, Format::RG, 30), Ok(()));
    assert_eq!(check_data_length(3, 5, 1, Format::RGB, 45), Ok(()));
    assert_eq!(check_data_length(3, 5, 1, Format::RGBA, 60), Ok(()));
    assert_eq!(
        check_data_length(3, 5, 1, Format::R, 14),
        Err(Error::DataLengthMismatch { expected: 15, actual: 14 })
    );
    assert_eq!(
        check_data_length(3, 5, 1, Format::RG, 29),
        Err(Error::DataLengthMismatch { expected: 30, actual: 29 })
    );
    assert_eq!(
        check_data_length(3, 5, 1, Format::RGB, 44),
        Err(Error::DataLengthMismatch { expected: 45, actual: 44 })
    );
    assert_eq!(
        check_data_length(3, 5, 1, Format::RGBA, 59),
        Err(Error::DataLengthMismatch { expected: 60, actual: 59 })
    );
}

#[test]
fn data_length_counts_every_layer() {
    assert_eq!(check_data_length(2, 2, 6, Format::RGB, 72), Ok(()));
    assert_eq!(
        check_data_length(2, 2, 6, Format::RGB, 12),
        Err(Error::DataLengthMismatch { expected: 72, actual: 12 })
    );
    assert_eq!(check_data_length(0, 7, 1, Format::RGBA, 0), Ok(()));
    assert_eq!(check_data_length(7, 7, 0, Format::RGBA, 0), Ok(()));
}

#[test]
fn data_length_beyond_what_memory_holds() {
    assert_eq!(
        check_data_length(u32::MAX, u32::MAX, u32::MAX, Format::RGBA, 5),
        Err(Error::DataLengthMismatch {
            expected: 4 * (u32::MAX as u128) * (u32::MAX as u128) * (u32::MAX as u128),
            actual: 5
        })
    );
}

#[test]
fn binding_selects_the_unit_first() {
    let mut context = Context::new();
    bind_at(&mut context, 7, gl::TEXTURE_2D, 3);
    assert_eq!(
        context.commands(),
        &vec![
            Command::ActiveTexture { unit: gl::TEXTURE3 },
            Command::BindTexture { target: gl::TEXTURE_2D, texture: 7 },
        ]
    );
}

#[test]
fn parameters_without_a_third_axis() {
    let mut context = Context::new();
    set_parameters(
        &mut context,
        7,
        gl::TEXTURE_2D,
        Interpolation::Linear,
        Interpolation::Nearest,
        Some(Interpolation::Linear),
        Wrapping::Repeat,
        Wrapping::ClampToEdge,
        None,
    );
    assert_eq!(
        context.commands(),
        &vec![
            Command::BindTexture { target: gl::TEXTURE_2D, texture: 7 },
            Command::TexParameteri {
                target: gl::TEXTURE_2D,
                name: gl::TEXTURE_MIN_FILTER,
                value: gl::LINEAR_MIPMAP_LINEAR as i32
            },
            Command::TexParameteri {
                target: gl::TEXTURE_2D,
                name: gl::TEXTURE_MAG_FILTER,
                value: gl::NEAREST as i32
            },
            Command::TexParameteri {
                target: gl::TEXTURE_2D,
                name: gl::TEXTURE_WRAP_S,
                value: gl::REPEAT as i32
            },
            Command::TexParameteri {
                target: gl::TEXTURE_2D,
                name: gl::TEXTURE_WRAP_T,
                value: gl::CLAMP_TO_EDGE as i32
            },
        ]
    );
}

#[test]
fn parameters_with_a_third_axis() {
    let mut context = Context::new();
    set_parameters(
        &mut context,
        7,
        gl::TEXTURE_CUBE_MAP,
        Interpolation::Nearest,
        Interpolation::Linear,
        None,
        Wrapping::Repeat,
        Wrapping::Repeat,
        Some(Wrapping::MirroredRepeat),
    );
    assert_eq!(context.commands().len(), 6);
    assert_eq!(
        context.commands()[1],
        Command::TexParameteri {
            target: gl::TEXTURE_CUBE_MAP,
            name: gl::TEXTURE_MIN_FILTER,
            value: gl::NEAREST as i32
        }
    );
    assert_eq!(
        context.commands()[5],
        Command::TexParameteri {
            target: gl::TEXTURE_CUBE_MAP,
            name: gl::TEXTURE_WRAP_R,
            value: gl::MIRRORED_REPEAT as i32
        }
    );
}

#[test]
fn an_upload_refers_to_its_data() {
    let mut context = Context::new();
    context.store(PixelData::U8(vec![9]));
    upload(&mut context, gl::TEXTURE_2D, 1, 2, Format::RG, PixelData::F32(vec![1, 2, 3, 4]));
    assert_eq!(
        context.commands(),
        &vec![Command::TexSubImage2D {
            target: gl::TEXTURE_2D,
            level: 0,
            x: 0,
            y: 0,
            width: 1,
            height: 2,
            format: gl::RG,
            data_type: gl::FLOAT,
            upload: 1,
        }]
    );
    assert_eq!(context.upload(1), Some(&PixelData::F32(vec![1, 2, 3, 4])));
}

#[test]
fn a_single_level_has_no_chain_to_rebuild() {
    let mut context = Context::new();
    regenerate_mip_maps(&mut context, 7, gl::TEXTURE_2D, 1);
    assert!(context.commands().is_empty());
    regenerate_mip_maps(&mut context, 7, gl::TEXTURE_2D, 2);
    assert_eq!(
        context.commands(),
        &vec![
            Command::BindTexture { target: gl::TEXTURE_2D, texture: 7 },
            Command::GenerateMipmap { target: gl::TEXTURE_2D },
        ]
    );
}

#[test]
fn four_by_four_rgba_bytes_without_mip_filter() {
    let mut context = Context::new();
    let cpu = image(4, 4, Format::RGBA, PixelData::U8(bytes(64)));
    let mut texture = Texture2D::new(&mut context, 5, &cpu).unwrap();
    assert_eq!(texture.id(), 5);
    assert_eq!(texture.width(), 4);
    assert_eq!(texture.height(), 4);
    assert_eq!(texture.format(), Format::RGBA);
    assert_eq!(texture.number_of_mip_maps(), 1);
    assert_eq!(
        context.commands(),
        &vec![
            Command::BindTexture { target: gl::TEXTURE_2D, texture: 5 },
            Command::TexParameteri {
                target: gl::TEXTURE_2D,
                name: gl::TEXTURE_MIN_FILTER,
                value: gl::LINEAR as i32
            },
            Command::TexParameteri {
                target: gl::TEXTURE_2D,
                name: gl::TEXTURE_MAG_FILTER,
                value: gl::NEAREST as i32
            },
            Command::TexParameteri {
                target: gl::TEXTURE_2D,
                name: gl::TEXTURE_WRAP_S,
                value: gl::REPEAT as i32
            },
            Command::TexParameteri {
                target: gl::TEXTURE_2D,
                name: gl::TEXTURE_WRAP_T,
                value: gl::CLAMP_TO_EDGE as i32
            },
            Command::TexStorage2D {
                target: gl::TEXTURE_2D,
                levels: 1,
                internal_format: gl::RGBA8,
                width: 4,
                height: 4
            },
            Command::BindTexture { target: gl::TEXTURE_2D, texture: 5 },
            Command::TexSubImage2D {
                target: gl::TEXTURE_2D,
                level: 0,
                x: 0,
                y: 0,
                width: 4,
                height: 4,
                format: gl::RGBA,
                data_type: gl::UNSIGNED_BYTE,
                upload: 0,
            },
        ]
    );
    assert_eq!(context.upload(0), Some(&PixelData::U8(bytes(64))));

    context.take();
    assert_eq!(texture.fill(&mut context, &PixelData::U8(bytes(64))), Ok(()));
    assert_eq!(context.commands().len(), 2);
    assert_eq!(context.upload(0), Some(&PixelData::U8(bytes(64))));

    context.take();
    assert_eq!(
        texture.fill(&mut context, &PixelData::U8(bytes(63))),
        Err(Error::DataLengthMismatch { expected: 64, actual: 63 })
    );
    assert!(context.commands().is_empty());
    assert!(context.upload(0).is_none());
}

#[test]
fn a_filled_mip_chain_is_rebuilt_at_once() {
    let mut context = Context::new();
    let mut cpu = image(256, 256, Format::RGBA, PixelData::U8(bytes(256 * 256 * 4)));
    cpu.mip_map_filter = Some(Interpolation::Linear);
    let mut texture = Texture2D::new(&mut context, 2, &cpu).unwrap();
    assert_eq!(texture.number_of_mip_maps(), 9);
    let commands = context.commands().clone();
    assert_eq!(commands.len(), 10);
    assert_eq!(
        commands[1],
        Command::TexParameteri {
            target: gl::TEXTURE_2D,
            name: gl::TEXTURE_MIN_FILTER,
            value: gl::LINEAR_MIPMAP_LINEAR as i32
        }
    );
    assert_eq!(
        commands[5],
        Command::TexStorage2D {
            target: gl::TEXTURE_2D,
            levels: 9,
            internal_format: gl::RGBA8,
            width: 256,
            height: 256
        }
    );
    assert_eq!(commands[8], Command::BindTexture { target: gl::TEXTURE_2D, texture: 2 });
    assert_eq!(commands[9], Command::GenerateMipmap { target: gl::TEXTURE_2D });

    context.take();
    assert_eq!(texture.fill(&mut context, &PixelData::U8(bytes(256 * 256 * 4))), Ok(()));
    assert_eq!(
        context.commands().last(),
        Some(&Command::GenerateMipmap { target: gl::TEXTURE_2D })
    );
}

#[test]
fn a_one_texel_texture_has_no_chain_even_with_a_mip_filter() {
    let mut context = Context::new();
    let mut cpu = image(1, 1, Format::R, PixelData::U8(vec![7]));
    cpu.mip_map_filter = Some(Interpolation::Nearest);
    let texture = Texture2D::new(&mut context, 2, &cpu).unwrap();
    assert_eq!(texture.number_of_mip_maps(), 1);
    assert_eq!(context.commands().len(), 8);
    assert_eq!(
        context.commands()[1],
        Command::TexParameteri {
            target: gl::TEXTURE_2D,
            name: gl::TEXTURE_MIN_FILTER,
            value: gl::LINEAR as i32
        }
    );
}

#[test]
fn creation_with_a_refused_name() {
    let mut context = Context::new();
    let cpu = image(4, 4, Format::RGBA, PixelData::U8(bytes(64)));
    assert_eq!(Texture2D::new(&mut context, 0, &cpu).err(), Some(Error::AllocationError));
    assert!(context.commands().is_empty());
}

#[test]
fn creation_without_a_storage_format() {
    let mut context = Context::new();
    let cpu = image(4, 4, Format::RG, PixelData::Srgb8(bytes(32)));
    assert_eq!(
        Texture2D::new(&mut context, 3, &cpu).err(),
        Some(Error::UnsupportedFormat { format: Format::RG, element: ElementType::Srgb8 })
    );
    assert_eq!(
        context.commands(),
        &vec![
            Command::BindTexture { target: gl::TEXTURE_2D, texture: 3 },
            Command::TexParameteri {
                target: gl::TEXTURE_2D,
                name: gl::TEXTURE_MIN_FILTER,
                value: gl::LINEAR as i32
            },
            Command::TexParameteri {
                target: gl::TEXTURE_2D,
                name: gl::TEXTURE_MAG_FILTER,
                value: gl::NEAREST as i32
            },
            Command::TexParameteri {
                target: gl::TEXTURE_2D,
                name: gl::TEXTURE_WRAP_S,
                value: gl::REPEAT as i32
            },
            Command::TexParameteri {
                target: gl::TEXTURE_2D,
                name: gl::TEXTURE_WRAP_T,
                value: gl::CLAMP_TO_EDGE as i32
            },
        ]
    );
    assert!(context.upload(0).is_none());
}

#[test]
fn creation_with_data_of_the_wrong_length() {
    let mut context = Context::new();
    let cpu = image(4, 4, Format::RGB, PixelData::F32(vec![0; 47]));
    assert_eq!(
        Texture2D::new(&mut context, 3, &cpu).err(),
        Some(Error::DataLengthMismatch { expected: 48, actual: 47 })
    );
    let commands = context.commands();
    assert_eq!(commands.len(), 7);
    assert_eq!(commands[0], Command::BindTexture { target: gl::TEXTURE_2D, texture: 3 });
    assert_eq!(
        commands[5],
        Command::TexStorage2D {
            target: gl::TEXTURE_2D,
            levels: 1,
            internal_format: gl::RGB32F,
            width: 4,
            height: 4
        }
    );
    assert_eq!(commands[6], Command::DeleteTexture { texture: 3 });
    assert!(context.upload(0).is_none());
}

#[test]
fn the_first_failure_is_the_one_reported() {
    let mut context = Context::new();
    let cpu = image(4, 4, Format::R, PixelData::Srgb8(bytes(3)));
    assert_eq!(Texture2D::new(&mut context, 0, &cpu).err(), Some(Error::AllocationError));
    assert!(context.commands().is_empty());
    assert_eq!(
        Texture2D::new(&mut context, 1, &cpu).err(),
        Some(Error::UnsupportedFormat { format: Format::R, element: ElementType::Srgb8 })
    );
}

#[test]
fn fill_is_refused_for_every_format_when_one_element_is_missing() {
    let formats = [Format::R, Format::RG, Format::RGB, Format::RGBA];
    for format in formats {
        let channels = format.color_channel_count() as usize;
        let mut context = Context::new();
        let cpu = image(3, 2, format, PixelData::U8(bytes(6 * channels)));
        let mut texture = Texture2D::new(&mut context, 1, &cpu).unwrap();
        context.take();
        assert_eq!(
            texture.fill(&mut context, &PixelData::U8(bytes(6 * channels - 1))),
            Err(Error::DataLengthMismatch {
                expected: 6 * channels as u128,
                actual: 6 * channels - 1
            })
        );
        assert_eq!(
            texture.fill(&mut context, &PixelData::U8(bytes(6 * channels + 1))),
            Err(Error::DataLengthMismatch {
                expected: 6 * channels as u128,
                actual: 6 * channels + 1
            })
        );
        assert!(context.commands().is_empty());
        assert_eq!(texture.fill(&mut context, &PixelData::U8(bytes(6 * channels))), Ok(()));
    }
}

#[test]
fn fill_takes_data_of_another_element_type() {
    let mut context = Context::new();
    let cpu = image(1, 1, Format::RGBA, PixelData::U8(bytes(4)));
    let mut texture = Texture2D::new(&mut context, 1, &cpu).unwrap();
    context.take();
    assert_eq!(texture.fill(&mut context, &PixelData::F32(vec![1, 2, 3, 4])), Ok(()));
    assert_eq!(
        context.commands()[1],
        Command::TexSubImage2D {
            target: gl::TEXTURE_2D,
            level: 0,
            x: 0,
            y: 0,
            width: 1,
            height: 1,
            format: gl::RGBA,
            data_type: gl::FLOAT,
            upload: 0,
        }
    );
}

#[test]
fn texture_binds_to_a_unit() {
    let mut context = Context::new();
    let cpu = image(1, 1, Format::R, PixelData::U8(vec![1]));
    let texture = Texture2D::new(&mut context, 8, &cpu).unwrap();
    context.take();
    texture.bind(&mut context, 2);
    assert_eq!(
        context.commands(),
        &vec![
            Command::ActiveTexture { unit: gl::TEXTURE2 },
            Command::BindTexture { target: gl::TEXTURE_2D, texture: 8 },
        ]
    );
}

#[test]
fn release_gives_the_name_back() {
    let mut context = Context::new();
    let cpu = image(1, 1, Format::R, PixelData::U8(vec![1]));
    let texture = Texture2D::new(&mut context, 8, &cpu).unwrap();
    context.take();
    texture.release(&mut context);
    assert_eq!(context.commands(), &vec![Command::DeleteTexture { texture: 8 }]);
}

#[test]
fn cube_map_faces_go_up_in_order() {
    let mut context = Context::new();
    let data: Vec<u8> = (0..24).collect();
    let cpu = image(2, 2, Format::R, PixelData::U8(data));
    let texture = TextureCubeMap::new(&mut context, 6, &cpu).unwrap();
    assert_eq!(texture.id(), 6);
    assert_eq!(texture.width(), 2);
    assert_eq!(texture.height(), 2);
    let commands = context.commands().clone();
    assert_eq!(commands.len(), 15);
    assert_eq!(commands[0], Command::BindTexture { target: gl::TEXTURE_CUBE_MAP, texture: 6 });
    assert_eq!(
        commands[5],
        Command::TexParameteri {
            target: gl::TEXTURE_CUBE_MAP,
            name: gl::TEXTURE_WRAP_R,
            value: gl::MIRRORED_REPEAT as i32
        }
    );
    assert_eq!(commands[6], Command::BindTexture { target: gl::TEXTURE_CUBE_MAP, texture: 6 });
    assert_eq!(
        commands[7],
        Command::TexStorage2D {
            target: gl::TEXTURE_CUBE_MAP,
            levels: 1,
            internal_format: gl::R8,
            width: 2,
            height: 2
        }
    );
    assert_eq!(commands[8], Command::BindTexture { target: gl::TEXTURE_CUBE_MAP, texture: 6 });
    let faces = [
        gl::TEXTURE_CUBE_MAP_POSITIVE_X,
        gl::TEXTURE_CUBE_MAP_NEGATIVE_X,
        gl::TEXTURE_CUBE_MAP_POSITIVE_Y,
        gl::TEXTURE_CUBE_MAP_NEGATIVE_Y,
        gl::TEXTURE_CUBE_MAP_POSITIVE_Z,
        gl::TEXTURE_CUBE_MAP_NEGATIVE_Z,
    ];
    for face in 0..6usize {
        assert_eq!(
            commands[9 + face],
            Command::TexSubImage2D {
                target: faces[face],
                level: 0,
                x: 0,
                y: 0,
                width: 2,
                height: 2,
                format: gl::RED,
                data_type: gl::UNSIGNED_BYTE,
                upload: face,
            }
        );
        let first = 4 * face as u8;
        assert_eq!(
            context.upload(face),
            Some(&PixelData::U8(vec![first, first + 1, first + 2, first + 3]))
        );
    }
    assert!(context.upload(6).is_none());
}

#[test]
fn cube_map_wants_six_faces() {
    let mut context = Context::new();
    let cpu = image(2, 2, Format::R, PixelData::U8(bytes(24)));
    let mut texture = TextureCubeMap::new(&mut context, 6, &cpu).unwrap();
    context.take();
    assert_eq!(
        texture.fill(&mut context, &PixelData::U8(bytes(4))),
        Err(Error::DataLengthMismatch { expected: 24, actual: 4 })
    );
    assert_eq!(
        texture.fill(&mut context, &PixelData::U8(bytes(23))),
        Err(Error::DataLengthMismatch { expected: 24, actual: 23 })
    );
    assert_eq!(
        texture.fill(&mut context, &PixelData::U8(bytes(29))),
        Err(Error::DataLengthMismatch { expected: 24, actual: 29 })
    );
    assert!(context.commands().is_empty());
    assert_eq!(texture.fill(&mut context, &PixelData::U8(bytes(24))), Ok(()));
    assert_eq!(context.commands().len(), 7);
}

#[test]
fn cube_map_rebuilds_its_chain_after_the_last_face() {
    let mut context = Context::new();
    let mut cpu = image(4, 4, Format::RGB, PixelData::F16(vec![0; 6 * 48]));
    cpu.mip_map_filter = Some(Interpolation::Nearest);
    let texture = TextureCubeMap::new(&mut context, 6, &cpu).unwrap();
    let commands = context.commands().clone();
    assert_eq!(commands.len(), 17);
    assert_eq!(
        commands[1],
        Command::TexParameteri {
            target: gl::TEXTURE_CUBE_MAP,
            name: gl::TEXTURE_MIN_FILTER,
            value: gl::LINEAR_MIPMAP_NEAREST as i32
        }
    );
    assert_eq!(
        commands[7],
        Command::TexStorage2D {
            target: gl::TEXTURE_CUBE_MAP,
            levels: 3,
            internal_format: gl::RGB16F,
            width: 4,
            height: 4
        }
    );
    assert_eq!(commands[15], Command::BindTexture { target: gl::TEXTURE_CUBE_MAP, texture: 6 });
    assert_eq!(commands[16], Command::GenerateMipmap { target: gl::TEXTURE_CUBE_MAP });
    context.take();
    texture.bind(&mut context, 0);
    texture.release(&mut context);
    assert_eq!(
        context.commands(),
        &vec![
            Command::ActiveTexture { unit: gl::TEXTURE0 },
            Command::BindTexture { target: gl::TEXTURE_CUBE_MAP, texture: 6 },
            Command::DeleteTexture { texture: 6 },
        ]
    );
}

#[test]
fn cube_map_creation_failures() {
    let mut context = Context::new();
    let good = image(1, 1, Format::RGBA, PixelData::U8(bytes(24)));
    assert_eq!(TextureCubeMap::new(&mut context, 0, &good).err(), Some(Error::AllocationError));
    assert!(context.commands().is_empty());

    let one_face = image(1, 1, Format::RGBA, PixelData::U8(bytes(4)));
    assert_eq!(
        TextureCubeMap::new(&mut context, 1, &one_face).err(),
        Some(Error::DataLengthMismatch { expected: 24, actual: 4 })
    );
    let (commands, uploads) = context.take();
    assert_eq!(commands.len(), 9);
    assert_eq!(commands[6], Command::BindTexture { target: gl::TEXTURE_CUBE_MAP, texture: 1 });
    assert_eq!(
        commands[7],
        Command::TexStorage2D {
            target: gl::TEXTURE_CUBE_MAP,
            levels: 1,
            internal_format: gl::RGBA8,
            width: 1,
            height: 1
        }
    );
    assert_eq!(commands[8], Command::DeleteTexture { texture: 1 });
    assert!(uploads.is_empty());

    let no_format = image(1, 1, Format::R, PixelData::Srgb8(bytes(6)));
    assert_eq!(
        TextureCubeMap::new(&mut context, 1, &no_format).err(),
        Some(Error::UnsupportedFormat { format: Format::R, element: ElementType::Srgb8 })
    );
    let (commands, uploads) = context.take();
    assert_eq!(commands.len(), 7);
    assert_eq!(
        commands[5],
        Command::TexParameteri {
            target: gl::TEXTURE_CUBE_MAP,
            name: gl::TEXTURE_WRAP_R,
            value: gl::MIRRORED_REPEAT as i32
        }
    );
    assert_eq!(commands[6], Command::BindTexture { target: gl::TEXTURE_CUBE_MAP, texture: 1 });
    assert!(uploads.is_empty());
}

#[test]
fn a_texture_that_cannot_be_filled_gives_its_name_back_once() {
    let mut context = Context::new();
    let cpu = image(4, 4, Format::RGBA, PixelData::U8(bytes(63)));
    assert_eq!(
        Texture2D::new(&mut context, 9, &cpu).err(),
        Some(Error::DataLengthMismatch { expected: 64, actual: 63 })
    );
    let (commands, uploads) = context.take();
    let deletions = commands
        .iter()
        .filter(|command| **command == Command::DeleteTexture { texture: 9 })
        .count();
    assert_eq!(deletions, 1);
    assert_eq!(commands.last(), Some(&Command::DeleteTexture { texture: 9 }));
    assert!(commands.iter().all(|command| !matches!(command, Command::TexSubImage2D { .. })));
    assert!(uploads.is_empty());
}

#[test]
fn an_unsupported_format_keeps_the_sampler_parameters_without_a_mip_filter() {
    let mut context = Context::new();
    let mut cpu = image(1, 1, Format::R, PixelData::Srgb8(vec![1]));
    cpu.mip_map_filter = Some(Interpolation::Linear);
    assert_eq!(
        Texture2D::new(&mut context, 3, &cpu).err(),
        Some(Error::UnsupportedFormat { format: Format::R, element: ElementType::Srgb8 })
    );
    assert_eq!(context.commands().len(), 5);
    assert_eq!(
        context.commands()[1],
        Command::TexParameteri {
            target: gl::TEXTURE_2D,
            name: gl::TEXTURE_MIN_FILTER,
            value: gl::LINEAR as i32
        }
    );
    let mut larger = image(8, 8, Format::RG, PixelData::Srgb8(vec![0; 128]));
    larger.mip_map_filter = Some(Interpolation::Nearest);
    context.take();
    assert!(Texture2D::new(&mut context, 3, &larger).is_err());
    assert_eq!(
        context.commands()[1],
        Command::TexParameteri {
            target: gl::TEXTURE_2D,
            name: gl::TEXTURE_MIN_FILTER,
            value: gl::LINEAR_MIPMAP_NEAREST as i32
        }
    );
    let kept = Command::DeleteTexture { texture: 3 };
    assert!(context.commands().iter().all(|command| *command != kept));
}

#[test]
fn cube_map_takes_data_of_its_own_kind_only() {
    let mut context = Context::new();
    let cpu = image(1, 1, Format::RG, PixelData::U8(bytes(12)));
    let mut texture = TextureCubeMap::new(&mut context, 6, &cpu).unwrap();
    assert_eq!(texture.element(), ElementType::U8);
    context.take();
    assert_eq!(
        texture.fill(&mut context, &PixelData::F32(vec![0; 12])),
        Err(Error::FormatMismatch)
    );
    assert_eq!(
        texture.fill(&mut context, &PixelData::Srgb8(vec![0; 12])),
        Err(Error::FormatMismatch)
    );
    assert_eq!(
        texture.fill(&mut context, &PixelData::F32(vec![0; 11])),
        Err(Error::DataLengthMismatch { expected: 12, actual: 11 })
    );
    assert!(context.commands().is_empty());
    assert!(context.upload(0).is_none());
    assert_eq!(texture.fill(&mut context, &PixelData::U8(bytes(12))), Ok(()));
}

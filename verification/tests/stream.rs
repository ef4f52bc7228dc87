use gpu_texture::consts;
use gpu_texture::context::{Bindings, Command, Context};
use gpu_texture::format::ElementType;
use gpu_texture::full_screen_quad::render;
use gpu_texture::pixels::PixelData;

#[test]
fn a_new_context_is_empty_and_on_the_window() {
    let context = Context::new();
    assert!(context.commands().is_empty());
    assert_eq!(context.draw_framebuffer(), 0);
    assert_eq!(context.read_framebuffer(), 0);
    assert_eq!(context.active_texture(), gl::TEXTURE0);
    assert_eq!(
        context.bindings(),
        Bindings { draw_framebuffer: 0, read_framebuffer: 0, active_texture: gl::TEXTURE0 }
    );
    assert!(context.upload(0).is_none());
}

#[test]
fn selecting_a_unit_is_tracked() {
    let mut context = Context::new();
    context.record(Command::ActiveTexture { unit: gl::TEXTURE4 });
    assert_eq!(context.active_texture(), gl::TEXTURE4);
    context.record(Command::BindTexture { target: gl::TEXTURE_2D, texture: 1 });
    assert_eq!(context.active_texture(), gl::TEXTURE4);
    assert_eq!(context.draw_framebuffer(), 0);
}

#[test]
fn restoring_rebinds_everything() {
    let mut context = Context::new();
    let saved = Bindings { draw_framebuffer: 3, read_framebuffer: 4, active_texture: gl::TEXTURE2 };
    context.restore(saved);
    assert_eq!(context.bindings(), saved);
    assert_eq!(
        context.commands(),
        &vec![
            Command::BindFramebuffer { target: gl::DRAW_FRAMEBUFFER, framebuffer: 3 },
            Command::BindFramebuffer { target: gl::READ_FRAMEBUFFER, framebuffer: 4 },
            Command::ActiveTexture { unit: gl::TEXTURE2 },
        ]
    );
    let initial = Context::new().bindings();
    context.restore(initial);
    assert_eq!(context.bindings(), initial);
    assert_eq!(context.commands().len(), 6);
}

#[test]
fn calls_are_recorded_in_order() {
    let mut context = Context::new();
    context.record(Command::ActiveTexture { unit: consts::TEXTURE0 });
    context.record(Command::BindTexture { target: consts::TEXTURE_2D, texture: 3 });
    context.record(Command::GenerateMipmap { target: consts::TEXTURE_2D });
    assert_eq!(
        context.commands(),
        &vec![
            Command::ActiveTexture { unit: consts::TEXTURE0 },
            Command::BindTexture { target: consts::TEXTURE_2D, texture: 3 },
            Command::GenerateMipmap { target: consts::TEXTURE_2D },
        ]
    );
    assert_eq!(context.draw_framebuffer(), 0);
    assert_eq!(context.read_framebuffer(), 0);
}

#[test]
fn binding_for_drawing_leaves_reading_alone() {
    let mut context = Context::new();
    context.record(Command::BindFramebuffer { target: consts::DRAW_FRAMEBUFFER, framebuffer: 4 });
    assert_eq!(context.draw_framebuffer(), 4);
    assert_eq!(context.read_framebuffer(), 0);
}

#[test]
fn binding_for_reading_leaves_drawing_alone() {
    let mut context = Context::new();
    context.record(Command::BindFramebuffer { target: consts::READ_FRAMEBUFFER, framebuffer: 4 });
    assert_eq!(context.draw_framebuffer(), 0);
    assert_eq!(context.read_framebuffer(), 4);
}

#[test]
fn binding_the_framebuffer_target_binds_both() {
    let mut context = Context::new();
    context.record(Command::BindFramebuffer { target: consts::FRAMEBUFFER, framebuffer: 9 });
    assert_eq!(context.draw_framebuffer(), 9);
    assert_eq!(context.read_framebuffer(), 9);
}

#[test]
fn deleting_the_bound_framebuffer_puts_the_window_back() {
    let mut context = Context::new();
    context.record(Command::BindFramebuffer { target: consts::DRAW_FRAMEBUFFER, framebuffer: 4 });
    context.record(Command::BindFramebuffer { target: consts::READ_FRAMEBUFFER, framebuffer: 5 });
    context.record(Command::DeleteFramebuffer { framebuffer: 4 });
    assert_eq!(context.draw_framebuffer(), 0);
    assert_eq!(context.read_framebuffer(), 5);
    context.record(Command::DeleteFramebuffer { framebuffer: 6 });
    assert_eq!(context.read_framebuffer(), 5);
    context.record(Command::DeleteFramebuffer { framebuffer: 5 });
    assert_eq!(context.read_framebuffer(), 0);
}

#[test]
fn other_targets_bind_nothing() {
    let mut context = Context::new();
    context.record(Command::BindFramebuffer { target: consts::TEXTURE_2D, framebuffer: 4 });
    assert_eq!(context.draw_framebuffer(), 0);
    assert_eq!(context.read_framebuffer(), 0);
    assert_eq!(context.commands().len(), 1);
}

#[test]
fn stored_data_is_found_by_its_position() {
    let mut context = Context::new();
    let first = context.store(PixelData::U8(vec![1, 2, 3]));
    let second = context.store(PixelData::F32(vec![7]));
    assert_eq!(first, 0);
    assert_eq!(second, 1);
    assert_eq!(context.upload(0), Some(&PixelData::U8(vec![1, 2, 3])));
    assert_eq!(context.upload(1), Some(&PixelData::F32(vec![7])));
    assert_eq!(context.upload(2), None);
    assert!(context.commands().is_empty());
}

#[test]
fn taking_empties_the_stream_and_keeps_the_bindings() {
    let mut context = Context::new();
    context.record(Command::BindFramebuffer { target: consts::FRAMEBUFFER, framebuffer: 9 });
    context.store(PixelData::F16(vec![1, 2]));
    let (commands, uploads) = context.take();
    assert_eq!(
        commands,
        vec![Command::BindFramebuffer { target: consts::FRAMEBUFFER, framebuffer: 9 }]
    );
    assert_eq!(uploads, vec![PixelData::F16(vec![1, 2])]);
    assert!(context.commands().is_empty());
    assert!(context.upload(0).is_none());
    assert_eq!(context.draw_framebuffer(), 9);
    assert_eq!(context.read_framebuffer(), 9);
    assert_eq!(context.store(PixelData::U8(vec![])), 0);
}

#[test]
fn the_covering_triangle_has_three_vertices() {
    let mut context = Context::new();
    render(&mut context);
    assert_eq!(
        context.commands(),
        &vec![Command::DrawArrays { mode: gl::TRIANGLES, first: 0, count: 3 }]
    );
}

#[test]
fn pixel_data_knows_its_length_and_kind() {
    assert_eq!(PixelData::U8(vec![1, 2, 3]).len(), 3);
    assert_eq!(PixelData::Srgb8(vec![]).len(), 0);
    assert_eq!(PixelData::F16(vec![1]).len(), 1);
    assert_eq!(PixelData::F32(vec![1, 2]).len(), 2);
    assert_eq!(PixelData::U8(vec![]).element_type(), ElementType::U8);
    assert_eq!(PixelData::Srgb8(vec![]).element_type(), ElementType::Srgb8);
    assert_eq!(PixelData::F16(vec![]).element_type(), ElementType::F16);
    assert_eq!(PixelData::F32(vec![]).element_type(), ElementType::F32);
}

#[test]
fn zeros_have_the_length_and_kind_asked_for() {
    assert_eq!(PixelData::zeros(ElementType::U8, 3), PixelData::U8(vec![0, 0, 0]));
    assert_eq!(PixelData::zeros(ElementType::Srgb8, 1), PixelData::Srgb8(vec![0]));
    assert_eq!(PixelData::zeros(ElementType::F16, 2), PixelData::F16(vec![0, 0]));
    assert_eq!(PixelData::zeros(ElementType::F32, 0), PixelData::F32(vec![]));
}

#[test]
fn a_slice_copies_the_range() {
    let data = PixelData::U8(vec![10, 11, 12, 13, 14]);
    assert_eq!(data.slice(1, 4), PixelData::U8(vec![11, 12, 13]));
    assert_eq!(data.slice(0, 5), data);
    assert_eq!(data.slice(2, 2), PixelData::U8(vec![]));
    assert_eq!(PixelData::F32(vec![1, 2, 3]).slice(2, 3), PixelData::F32(vec![3]));
    assert_eq!(PixelData::F16(vec![1, 2, 3]).slice(0, 1), PixelData::F16(vec![1]));
    assert_eq!(PixelData::Srgb8(vec![1, 2, 3]).slice(1, 3), PixelData::Srgb8(vec![2, 3]));
}

#[test]
fn a_clone_holds_the_same_elements() {
    let data = PixelData::F32(vec![1, 2, 3]);
    assert_eq!(data.clone(), data);
    assert_ne!(data.clone(), PixelData::F32(vec![1, 2]));
    assert_ne!(PixelData::U8(vec![1]), PixelData::Srgb8(vec![1]));
}

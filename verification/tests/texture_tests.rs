use overlay_engine::command::{
    Call, Command, PixelFormat, Reply, TextureParameter, TextureSetting, TextureTarget,
};
use overlay_engine::context::{mip_chain, whole_chain, Context};
use overlay_engine::texture::Texture;

fn sent(call: Call) -> Command {
    Command { call, payload: vec![] }
}

fn bound(texture: u32) -> Command {
    sent(Call::BindTexture { target: TextureTarget::Texture2D, texture })
}

fn parameter(parameter: TextureParameter, setting: TextureSetting) -> Command {
    sent(Call::TexParameter { target: TextureTarget::Texture2D, parameter, setting })
}

fn image(width: i32, height: i32, pixels: &[u8]) -> Command {
    Command {
        call: Call::TexImage2D {
            target: TextureTarget::Texture2D,
            level: 0,
            format: PixelFormat::Rgb8,
            width,
            height,
        },
        payload: pixels.to_vec(),
    }
}

fn texture(context: &mut Context, id: u32) -> Texture {
    Texture::request(context);
    context.take();
    Texture::new(context, id)
}

#[test]
fn texture_request_asks_for_one_name() {
    let mut context = Context::new();
    Texture::request(&mut context);
    assert_eq!(context.take(), vec![sent(Call::GenTexture)]);
}

#[test]
fn new_texture_is_unbound_and_unconfigured() {
    let mut context = Context::new();
    let texture = texture(&mut context, 7);
    assert_eq!(texture, Texture { id: 7 });
    assert_eq!(context.texture(), 0);
    assert_eq!(context.pending_len(), 0);
    assert_eq!(context.texture_size(7), Some((0, 0)));
    assert_eq!(context.texture_pixels(7), Some(vec![]));
    assert_eq!(context.texture_levels(7), Some(0));
    for parameter in [
        TextureParameter::WrapS,
        TextureParameter::WrapT,
        TextureParameter::MinFilter,
        TextureParameter::MagFilter,
    ] {
        assert_eq!(context.texture_setting(7, parameter), None);
    }
    assert_eq!(context.texture_size(8), None);
}

#[test]
fn adopt_takes_the_last_answer_as_the_name() {
    let mut context = Context::new();
    let replies = vec![Reply::Nothing, Reply::Name(3), Reply::Name(7)];
    assert_eq!(Texture::adopt(&mut context, &replies), Some(Texture { id: 7 }));
    assert_eq!(context.texture_size(7), Some((0, 0)));
    assert_eq!(context.texture_size(3), None);
}

#[test]
fn adopt_wants_a_name_at_the_end() {
    let mut context = Context::new();
    assert_eq!(Texture::adopt(&mut context, &[]), None);
    assert_eq!(Texture::adopt(&mut context, &[Reply::Name(7), Reply::Nothing]), None);
    assert_eq!(Texture::adopt(&mut context, &[Reply::Value(7)]), None);
    assert_eq!(Texture::adopt(&mut context, &[Reply::Text(vec![7])]), None);
    assert_eq!(context.texture_size(7), None);
}

#[test]
fn bind_and_unbind_set_the_bound_texture() {
    let mut context = Context::new();
    let texture = texture(&mut context, 7);
    texture.bind(&mut context);
    assert_eq!(context.texture(), 7);
    texture.unbind(&mut context);
    assert_eq!(context.texture(), 0);
    assert_eq!(context.take(), vec![bound(7), bound(0)]);
}

#[test]
fn setup_2d_sets_the_four_defaults() {
    let mut context = Context::new();
    let texture = texture(&mut context, 7);
    texture.bind(&mut context);
    context.take();
    texture.setup_2d(&mut context);
    assert_eq!(
        context.take(),
        vec![
            parameter(TextureParameter::WrapS, TextureSetting::Repeat),
            parameter(TextureParameter::WrapT, TextureSetting::Repeat),
            parameter(TextureParameter::MinFilter, TextureSetting::LinearMipmapLinear),
            parameter(TextureParameter::MagFilter, TextureSetting::Linear),
        ]
    );
    assert_eq!(context.texture_setting(7, TextureParameter::WrapS), Some(TextureSetting::Repeat));
    assert_eq!(context.texture_setting(7, TextureParameter::WrapT), Some(TextureSetting::Repeat));
    assert_eq!(
        context.texture_setting(7, TextureParameter::MinFilter),
        Some(TextureSetting::LinearMipmapLinear)
    );
    assert_eq!(
        context.texture_setting(7, TextureParameter::MagFilter),
        Some(TextureSetting::Linear)
    );
    assert_eq!(context.texture_levels(7), Some(0));
}

#[test]
fn setup_2d_acts_on_the_bound_texture_only() {
    let mut context = Context::new();
    let first = texture(&mut context, 7);
    let second = texture(&mut context, 8);
    second.bind(&mut context);
    first.setup_2d(&mut context);
    assert_eq!(context.texture_setting(7, TextureParameter::WrapS), None);
    assert_eq!(context.texture_setting(8, TextureParameter::WrapS), Some(TextureSetting::Repeat));
}

#[test]
fn upload_then_bind_leaves_the_texture_bound_with_a_mipmap_chain() {
    let mut context = Context::new();
    let texture = Texture::new(&mut context, 7);
    let pixels: Vec<u8> = vec![255, 0, 0, 0, 255, 0, 0, 0, 255, 255, 255, 255];
    texture.tex_image2d(&mut context, 2, 2, &pixels);
    texture.bind(&mut context);
    assert_eq!(context.texture(), 7);
    assert_eq!(context.texture_size(7), Some((2, 2)));
    assert_eq!(context.texture_pixels(7), Some(pixels));
    assert_eq!(context.texture_levels(7), Some(2));
    assert!(context.texture_levels(7).unwrap() > 1);
}

#[test]
fn upload_binds_its_texture_and_hands_over_tightly_packed_rgb() {
    let mut context = Context::new();
    let texture = texture(&mut context, 7);
    let pixels: Vec<u8> = vec![1, 2, 3, 4, 5, 6];
    texture.tex_image2d(&mut context, 1, 2, &pixels);
    assert_eq!(
        context.take(),
        vec![
            bound(7),
            sent(Call::UnpackAlignment { bytes: 1 }),
            image(1, 2, &pixels),
            sent(Call::GenerateMipmap { target: TextureTarget::Texture2D }),
        ]
    );
    assert_eq!(context.texture(), 7);
}

#[test]
fn upload_goes_to_its_own_texture_whatever_is_bound() {
    let mut context = Context::new();
    let first = texture(&mut context, 1);
    let second = texture(&mut context, 2);
    second.bind(&mut context);
    second.setup_2d(&mut context);
    first.tex_image2d(&mut context, 1, 1, &[1, 2, 3]);
    assert_eq!(context.texture(), 1);
    assert_eq!(context.texture_pixels(1), Some(vec![1, 2, 3]));
    assert_eq!(context.texture_size(1), Some((1, 1)));
    assert_eq!(context.texture_levels(1), Some(1));
    assert_eq!(context.texture_setting(1, TextureParameter::WrapS), None);
    assert_eq!(context.texture_pixels(2), Some(vec![]));
    assert_eq!(context.texture_size(2), Some((0, 0)));
    assert_eq!(context.texture_levels(2), Some(0));
    assert_eq!(context.texture_setting(2, TextureParameter::WrapS), Some(TextureSetting::Repeat));
}

#[test]
fn upload_to_a_texture_that_does_not_exist_changes_no_texture() {
    let mut context = Context::new();
    let known = texture(&mut context, 7);
    known.tex_image2d(&mut context, 1, 1, &[1, 2, 3]);
    let unknown = Texture { id: 9 };
    unknown.tex_image2d(&mut context, 1, 1, &[4, 5, 6]);
    assert_eq!(context.texture(), 9);
    assert_eq!(context.texture_pixels(9), None);
    assert_eq!(context.texture_pixels(7), Some(vec![1, 2, 3]));
}

#[test]
fn upload_keeps_the_sampling_parameters() {
    let mut context = Context::new();
    let texture = texture(&mut context, 7);
    texture.bind(&mut context);
    texture.setup_2d(&mut context);
    texture.tex_image2d(&mut context, 1, 1, &[1, 2, 3]);
    assert_eq!(
        context.texture_setting(7, TextureParameter::MinFilter),
        Some(TextureSetting::LinearMipmapLinear)
    );
    assert_eq!(context.texture_levels(7), Some(1));
    texture.setup_2d(&mut context);
    assert_eq!(context.texture_pixels(7), Some(vec![1, 2, 3]));
    assert_eq!(context.texture_levels(7), Some(1));
}

#[test]
fn upload_replaces_the_image() {
    let mut context = Context::new();
    let texture = texture(&mut context, 7);
    texture.tex_image2d(&mut context, 4, 2, &[9; 24]);
    assert_eq!(context.texture_size(7), Some((4, 2)));
    assert_eq!(context.texture_levels(7), Some(3));
    texture.tex_image2d(&mut context, 1, 1, &[1, 2, 3]);
    assert_eq!(context.texture_size(7), Some((1, 1)));
    assert_eq!(context.texture_pixels(7), Some(vec![1, 2, 3]));
    assert_eq!(context.texture_levels(7), Some(1));
}

#[test]
fn image_without_texels_has_no_level() {
    let mut context = Context::new();
    let texture = texture(&mut context, 7);
    texture.tex_image2d(&mut context, 2, 2, &[9; 12]);
    texture.tex_image2d(&mut context, 0, 0, &[]);
    assert_eq!(context.texture_size(7), Some((0, 0)));
    assert_eq!(context.texture_pixels(7), Some(vec![]));
    assert_eq!(context.texture_levels(7), Some(0));
    texture.tex_image2d(&mut context, 0, 5, &[]);
    assert_eq!(context.texture_levels(7), Some(0));
    texture.tex_image2d(&mut context, 5, 0, &[]);
    assert_eq!(context.texture_levels(7), Some(0));
}

#[test]
fn image_at_another_level_leaves_the_account_alone() {
    let mut context = Context::new();
    let texture = texture(&mut context, 7);
    texture.tex_image2d(&mut context, 2, 2, &[9; 12]);
    context.submit(Command::carrying(
        Call::TexImage2D {
            target: TextureTarget::Texture2D,
            level: 1,
            format: PixelFormat::Rgb8,
            width: 1,
            height: 1,
        },
        vec![1, 2, 3],
    ));
    assert_eq!(context.texture_size(7), Some((2, 2)));
    assert_eq!(context.texture_pixels(7), Some(vec![9; 12]));
    assert_eq!(context.texture_levels(7), Some(2));
}

#[test]
fn mip_chain_counts_the_halvings() {
    assert_eq!(mip_chain(-3), 0);
    assert_eq!(mip_chain(0), 0);
    assert_eq!(mip_chain(1), 1);
    assert_eq!(mip_chain(2), 2);
    assert_eq!(mip_chain(3), 2);
    assert_eq!(mip_chain(4), 3);
    assert_eq!(mip_chain(40), 6);
    assert_eq!(mip_chain(255), 8);
    assert_eq!(mip_chain(256), 9);
    assert_eq!(mip_chain(i32::MAX), 31);
}

#[test]
fn whole_chain_goes_by_the_longer_side() {
    assert_eq!(whole_chain(2, 2), 2);
    assert_eq!(whole_chain(40, 40), 6);
    assert_eq!(whole_chain(1, 256), 9);
    assert_eq!(whole_chain(256, 1), 9);
    assert_eq!(whole_chain(1, 1), 1);
    assert_eq!(whole_chain(0, 256), 0);
    assert_eq!(whole_chain(256, 0), 0);
    assert_eq!(whole_chain(-1, -1), 0);
}

#[test]
fn delete_releases_the_texture() {
    let mut context = Context::new();
    let texture = texture(&mut context, 7);
    texture.bind(&mut context);
    context.take();
    texture.delete(&mut context);
    assert_eq!(context.take(), vec![sent(Call::DeleteTexture { texture: 7 })]);
    assert_eq!(context.texture(), 0);
    assert_eq!(context.texture_size(7), None);
    texture.delete(&mut context);
    assert_eq!(context.texture_size(7), None);
}

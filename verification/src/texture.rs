//! Two-dimensional textures: sampling parameters and image upload.

use crate::command::{
    plain, Answer, Call, Command, Op, PixelFormat, Reply, TextureParameter, TextureSetting,
    TextureTarget,
};
use crate::context::Context;
use crate::state::{chain_length, group_run, mip_levels, GpuState, ImageState};
use vstd::arithmetic::power2::{lemma2_to64, lemma_pow2_unfold, pow2};
use vstd::prelude::*;
use vstd::slice::slice_to_vec;

verus! {

broadcast use group_run;

/// Name of one texture object. The size of its image is not kept here.
#[derive(Clone, Copy, Debug, PartialEq, Eq, Structural)]
pub struct Texture {
    pub id: u32,
}

/// The call that sets one sampling parameter of the bound texture.
pub open spec fn parameter_op(parameter: TextureParameter, setting: TextureSetting) -> Op {
    plain(Call::TexParameter { target: TextureTarget::Texture2D, parameter, setting })
}

/// The name that the last of the driver's answers gives, if there is an
/// answer and the last one is a name.
pub open spec fn last_name(replies: Seq<Reply>) -> Option<u32> {
    if replies.len() == 0 {
        None
    } else {
        match replies.last() {
            Reply::Name(name) => Some(name),
            _ => None,
        }
    }
}

impl Texture {
    /// Queues the call that asks the driver for a texture name. The name it
    /// answers with is what `new` takes.
    pub fn request(context: &mut Context)
        ensures
            final(context)@ == old(context)@.step(plain(Call::GenTexture)),
    {
        context.submit(Command::plain(Call::GenTexture));
    }

    /// The texture of the name that the driver gave in answer to `request`:
    /// not bound, not configured, without an image.
    pub fn new(context: &mut Context, id: u32) -> (texture: Texture)
        ensures
            texture == (Texture { id }),
            final(context)@ == old(context)@.learn(Call::GenTexture, Answer::Name(id)),
    {
        context.record(Call::GenTexture, &Reply::Name(id));
        Texture { id }
    }

    /// The texture that the driver named in answer to `request`, picked out
    /// of the answers to everything that was queued up to and including
    /// `request`: the name is the last answer. Where there is no answer or
    /// the last one is no name, there is no texture and nothing changes.
    pub fn adopt(context: &mut Context, replies: &[Reply]) -> (texture: Option<Texture>)
        ensures
            match last_name(replies@) {
                Some(id) => texture == Some(Texture { id }) && final(context)@ == old(
                    context,
                )@.learn(Call::GenTexture, Answer::Name(id)),
                None => texture is None && final(context)@ == old(context)@,
            },
    {
        let count = replies.len();
        if count == 0 {
            return None;
        }
        match &replies[count - 1] {
            Reply::Name(id) => Some(Texture::new(context, *id)),
            _ => None,
        }
    }

    /// The call that binds this texture.
    pub open spec fn bind_op(self) -> Op {
        plain(Call::BindTexture { target: TextureTarget::Texture2D, texture: self.id })
    }

    /// Makes this texture the bound two-dimensional texture.
    pub fn bind(&self, context: &mut Context)
        ensures
            final(context)@ == old(context)@.step(self.bind_op()),
            final(context)@.texture == self.id,
    {
        context.submit(
            Command::plain(
                Call::BindTexture { target: TextureTarget::Texture2D, texture: self.id },
            ),
        );
    }

    /// Leaves no two-dimensional texture bound.
    pub fn unbind(&self, context: &mut Context)
        ensures
            final(context)@ == old(context)@.step(
                plain(Call::BindTexture { target: TextureTarget::Texture2D, texture: 0 }),
            ),
            final(context)@.texture == 0,
    {
        context.submit(
            Command::plain(Call::BindTexture { target: TextureTarget::Texture2D, texture: 0 }),
        );
    }

    /// The calls that set the default sampling parameters.
    pub open spec fn setup_ops() -> Seq<Op> {
        Seq::empty().push(parameter_op(TextureParameter::WrapS, TextureSetting::Repeat)).push(
            parameter_op(TextureParameter::WrapT, TextureSetting::Repeat),
        ).push(
            parameter_op(TextureParameter::MinFilter, TextureSetting::LinearMipmapLinear),
        ).push(parameter_op(TextureParameter::MagFilter, TextureSetting::Linear))
    }

    /// Sets the sampling parameters of the bound texture: repeat on both
    /// axes, trilinear minification, linear magnification.
    pub fn setup_2d(&self, context: &mut Context)
        ensures
            final(context)@ == old(context)@.run(Self::setup_ops()),
            final(context)@ == Self::set_up(old(context)@),
    {
        proof {
            Self::law_setup(old(context)@);
        }
        context.submit(
            Command::plain(
                Call::TexParameter {
                    target: TextureTarget::Texture2D,
                    parameter: TextureParameter::WrapS,
                    setting: TextureSetting::Repeat,
                },
            ),
        );
        context.submit(
            Command::plain(
                Call::TexParameter {
                    target: TextureTarget::Texture2D,
                    parameter: TextureParameter::WrapT,
                    setting: TextureSetting::Repeat,
                },
            ),
        );
        context.submit(
            Command::plain(
                Call::TexParameter {
                    target: TextureTarget::Texture2D,
                    parameter: TextureParameter::MinFilter,
                    setting: TextureSetting::LinearMipmapLinear,
                },
            ),
        );
        context.submit(
            Command::plain(
                Call::TexParameter {
                    target: TextureTarget::Texture2D,
                    parameter: TextureParameter::MagFilter,
                    setting: TextureSetting::Linear,
                },
            ),
        );
    }

    /// The calls that hand an image to the bound texture: rows without
    /// padding, then the image as level zero, three channels of eight bits,
    /// then the whole mipmap chain.
    pub open spec fn image_ops(width: i32, height: i32, pixels: Seq<u8>) -> Seq<Op> {
        Seq::empty().push(plain(Call::UnpackAlignment { bytes: 1 })).push(
            Op {
                call: Call::TexImage2D {
                    target: TextureTarget::Texture2D,
                    level: 0,
                    format: PixelFormat::Rgb8,
                    width,
                    height,
                },
                payload: pixels,
            },
        ).push(plain(Call::GenerateMipmap { target: TextureTarget::Texture2D }))
    }

    /// Uploads `pixels`, rows of `width` RGB texels with eight bits per
    /// channel and no padding, as the image of this texture, and has the
    /// driver derive the whole mipmap chain from it. The texture is bound
    /// first and stays bound; its sampling parameters are as they were.
    pub fn tex_image2d(&self, context: &mut Context, width: i32, height: i32, pixels: &[u8])
        requires
            0 <= width,
            0 <= height,
            pixels@.len() == width * height * 3,
        ensures
            final(context)@ == old(context)@.step(self.bind_op()).run(
                Self::image_ops(width, height, pixels@),
            ),
            final(context)@ == self.imaged(old(context)@, width, height, pixels@),
            final(context)@.texture == self.id,
            old(context)@.textures.contains_key(self.id) ==> final(context)@.textures == old(
                context,
            )@.textures.insert(
                self.id,
                ImageState {
                    width,
                    height,
                    pixels: pixels@,
                    levels: mip_levels(width, height),
                    ..old(context)@.textures[self.id]
                },
            ),
            !old(context)@.textures.contains_key(self.id) ==> final(context)@.textures == old(
                context,
            )@.textures,
    {
        proof {
            self.law_image(old(context)@, width, height, pixels@);
        }
        self.bind(context);
        context.submit(Command::plain(Call::UnpackAlignment { bytes: 1 }));
        context.submit(
            Command::carrying(
                Call::TexImage2D {
                    target: TextureTarget::Texture2D,
                    level: 0,
                    format: PixelFormat::Rgb8,
                    width,
                    height,
                },
                slice_to_vec(pixels),
            ),
        );
        context.submit(Command::plain(Call::GenerateMipmap { target: TextureTarget::Texture2D }));
    }

    /// Releases the texture object.
    pub fn delete(&self, context: &mut Context)
        ensures
            final(context)@ == old(context)@.step(plain(Call::DeleteTexture { texture: self.id })),
            !final(context)@.textures.contains_key(self.id),
    {
        context.submit(Command::plain(Call::DeleteTexture { texture: self.id }));
    }

    /// The state once the default sampling parameters are set: the bound
    /// texture, if it exists, repeats on both axes, is minified trilinearly
    /// and magnified linearly, and keeps its image. Nothing else changes.
    pub open spec fn set_up(state: GpuState) -> GpuState {
        GpuState {
            pending: state.pending + Self::setup_ops(),
            textures: if state.textures.contains_key(state.texture) {
                state.textures.insert(
                    state.texture,
                    ImageState {
                        wrap_s: Some(TextureSetting::Repeat),
                        wrap_t: Some(TextureSetting::Repeat),
                        min_filter: Some(TextureSetting::LinearMipmapLinear),
                        mag_filter: Some(TextureSetting::Linear),
                        ..state.textures[state.texture]
                    },
                )
            } else {
                state.textures
            },
            ..state
        }
    }

    /// Setting the default sampling parameters comes to what `set_up` says.
    pub proof fn law_setup(state: GpuState)
        ensures
            state.run(Self::setup_ops()) == Self::set_up(state),
    {
        let after = state.run(Self::setup_ops());
        assert(after.pending =~= Self::set_up(state).pending);
        assert(after.textures =~= Self::set_up(state).textures);
    }

    /// The state once an image is uploaded to this texture: the texture is
    /// bound and, if it exists, holds `pixels` as its image of `width` by
    /// `height` texels with the whole mipmap chain of that image; its
    /// sampling parameters are as they were. No other texture changes,
    /// whichever was bound before, and nothing else does.
    pub open spec fn imaged(
        self,
        state: GpuState,
        width: i32,
        height: i32,
        pixels: Seq<u8>,
    ) -> GpuState {
        GpuState {
            pending: state.pending.push(self.bind_op()) + Self::image_ops(width, height, pixels),
            texture: self.id,
            textures: if state.textures.contains_key(self.id) {
                state.textures.insert(
                    self.id,
                    ImageState {
                        width,
                        height,
                        pixels,
                        levels: mip_levels(width, height),
                        ..state.textures[self.id]
                    },
                )
            } else {
                state.textures
            },
            ..state
        }
    }

    /// An image upload comes to what `imaged` says.
    pub proof fn law_image(self, state: GpuState, width: i32, height: i32, pixels: Seq<u8>)
        ensures
            state.step(self.bind_op()).run(Self::image_ops(width, height, pixels)) == self.imaged(
                state,
                width,
                height,
                pixels,
            ),
    {
        let after = state.step(self.bind_op()).run(Self::image_ops(width, height, pixels));
        assert(after.pending =~= self.imaged(state, width, height, pixels).pending);
        assert(after.textures =~= self.imaged(state, width, height, pixels).textures);
    }

    /// Uploading an image to a texture that exists and then binding it
    /// leaves it the bound texture, with that image and the whole mipmap
    /// chain, whether or not it was ever bound before and whatever else
    /// was bound. An image with a side of two texels or more then has more
    /// than one level.
    pub proof fn law_upload_then_bind(
        self,
        state: GpuState,
        width: i32,
        height: i32,
        pixels: Seq<u8>,
    )
        requires
            state.textures.contains_key(self.id),
        ensures
            ({
                let after = self.imaged(state, width, height, pixels).step(self.bind_op());
                &&& after.texture == self.id
                &&& after.textures[self.id].pixels == pixels
                &&& after.textures[self.id].width == width
                &&& after.textures[self.id].height == height
                &&& after.textures[self.id].levels == mip_levels(width, height)
                &&& width >= 1 && height >= 1 && (width >= 2 || height >= 2)
                    ==> after.textures[self.id].levels > 1
                &&& forall|other: u32|
                    other != self.id ==> after.textures.contains_key(other)
                        == state.textures.contains_key(other) && after.textures[other]
                        == state.textures[other]
            }),
    {
        if width >= 1 && height >= 1 {
            law_chain_length(width as int);
            law_chain_length(height as int);
        }
    }
}

/// The length of a mipmap chain is the number of binary digits of the longer
/// side: an image of `extent` texels, with `extent` from two to the `n - 1`
/// up to but not including two to the `n`, has `n` levels. So every image
/// with a side of two texels or more has more than one level, and only a
/// side without texels has none.
pub proof fn law_chain_length(extent: int)
    requires
        extent >= 1,
    ensures
        chain_length(extent) >= 1,
        pow2((chain_length(extent) - 1) as nat) <= extent < pow2(chain_length(extent)),
        extent >= 2 ==> chain_length(extent) >= 2,
    decreases extent,
{
    lemma2_to64();
    if extent > 1 {
        law_chain_length(extent / 2);
        let below = chain_length(extent / 2);
        lemma_pow2_unfold(below);
        lemma_pow2_unfold(below + 1);
    }
}

} // verus!

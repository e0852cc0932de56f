//! What the renderer keeps per texture, and the small decisions it takes for
//! every pass and every sprite.

use vstd::prelude::*;

use crate::kb_game_object::{frame_rem, frame_rem_value, GameObject};
use crate::kb_utils::{KbFloat, ZERO_BITS};

verus! {

/// A texture on the device, `wgpu::Texture`. The engine stores it and hands it
/// back; it never looks inside.
#[verifier::external_type_specification]
#[verifier::external_body]
pub struct ExTexture(wgpu::Texture);

/// A view of a texture, `wgpu::TextureView`. Stored and handed back only.
#[verifier::external_type_specification]
#[verifier::external_body]
pub struct ExTextureView(wgpu::TextureView);

/// A sampler, `wgpu::Sampler`. Stored and handed back only.
#[verifier::external_type_specification]
#[verifier::external_body]
pub struct ExSampler(wgpu::Sampler);

/// A compiled shader, `wgpu::ShaderModule`. Stored and handed back only.
#[verifier::external_type_specification]
#[verifier::external_body]
pub struct ExShaderModule(wgpu::ShaderModule);

/// A texture together with the view and the sampler it is bound through.
pub struct KbTexture {
    pub texture: wgpu::Texture,
    pub view: wgpu::TextureView,
    pub sampler: wgpu::Sampler,
}

/// Which pipeline a pass draws with.
#[derive(Clone, Copy, Debug, PartialEq, Eq, Structural)]
pub enum KbRenderPassType {
    Opaque,
    Transparent,
    PostProcess,
}

/// The effect that the post-process pass applies to the finished frame.
#[derive(Clone, Copy, Debug, PartialEq, Eq, Structural)]
pub enum KbPostProcessMode {
    Passthrough,
    Desaturation,
    ScanLines,
    Warp,
}

/// Bit pattern of 2.
pub const TWO_BITS: u32 = 0x4000_0000;

/// Bit pattern of 3.
pub const THREE_BITS: u32 = 0x4040_0000;

/// The number by which the post-process shader knows a mode: 0 for
/// pass-through, 1 for desaturation, 2 for scan lines, 3 for warp.
pub open spec fn mode_code_value(mode: KbPostProcessMode) -> KbFloat {
    match mode {
        KbPostProcessMode::Passthrough => KbFloat { bits: ZERO_BITS },
        KbPostProcessMode::Desaturation => KbFloat { bits: crate::kb_utils::ONE_BITS },
        KbPostProcessMode::ScanLines => KbFloat { bits: TWO_BITS },
        KbPostProcessMode::Warp => KbFloat { bits: THREE_BITS },
    }
}

/// Computes [`mode_code_value`].
pub fn postprocess_mode_code(mode: KbPostProcessMode) -> (r: KbFloat)
    ensures
        r == mode_code_value(mode),
{
    match mode {
        KbPostProcessMode::Desaturation => KbFloat::one(),
        KbPostProcessMode::ScanLines => KbFloat { bits: TWO_BITS },
        KbPostProcessMode::Warp => KbFloat { bits: THREE_BITS },
        _ => KbFloat::zero(),
    }
}

/// The mode that a pass applies: the one forced on it, or else the
/// configured one.
pub fn effective_postprocess_mode(
    postprocess_override: Option<KbPostProcessMode>,
    configured: KbPostProcessMode,
) -> (r: KbPostProcessMode)
    ensures
        r == (match postprocess_override {
            Some(mode) => mode,
            None => configured,
        }),
{
    match postprocess_override {
        Some(mode) => mode,
        None => configured,
    }
}

/// The number of sprites in a row of the sprite sheet, and of rows in it.
pub const SHEET_SIDE: i32 = 8;

/// Where a sprite is found on the sheet, and whether it is drawn mirrored.
#[derive(Clone, Copy, Debug, PartialEq, Eq, Structural)]
pub struct KbSpriteCell {
    pub column: i32,
    pub row: i32,
    pub mirrored: bool,
}

/// The quotient of `a` by `b`, rounded towards zero.
pub open spec fn quotient_value(a: int, b: int) -> int {
    if a >= 0 {
        a / b
    } else {
        -((-a) / b)
    }
}

/// The cell of the sheet that shows `object`: its sprite, advanced by the
/// frame of its animation, counted along the rows of the sheet. An object
/// that does not face right is drawn mirrored.
pub open spec fn sprite_cell_value(object: GameObject) -> KbSpriteCell {
    let index = object.sprite_index + object.anim_frame;
    KbSpriteCell {
        column: frame_rem_value(index, SHEET_SIDE as int) as i32,
        row: quotient_value(index, SHEET_SIDE as int) as i32,
        mirrored: !(KbFloat { bits: ZERO_BITS }).less(object.direction.x),
    }
}

/// Computes [`sprite_cell_value`]. The sprite and the frame add up to a
/// 32-bit number.
pub fn sprite_cell(object: &GameObject) -> (r: KbSpriteCell)
    requires
        i32::MIN <= object.sprite_index + object.anim_frame <= i32::MAX,
    ensures
        r == sprite_cell_value(*object),
{
    let sprite_index: i32 = object.sprite_index + object.anim_frame;
    let wide: i64 = sprite_index as i64;
    let row: i32 = if wide >= 0 {
        ((wide as u64) / 8) as i32
    } else {
        -((((-wide) as u64) / 8) as i32)
    };
    KbSpriteCell {
        column: frame_rem(sprite_index, SHEET_SIDE),
        row,
        mirrored: !object.direction.x.gt(KbFloat::zero()),
    }
}

/// The cell for `object`, or `None` when its sprite and its frame do not add
/// up to a 32-bit number.
pub fn sprite_cell_checked(object: &GameObject) -> (r: Option<KbSpriteCell>)
    ensures
        r == (if i32::MIN <= object.sprite_index + object.anim_frame <= i32::MAX {
            Some(sprite_cell_value(*object))
        } else {
            None
        }),
{
    match object.sprite_index.checked_add(object.anim_frame) {
        Some(_) => Some(sprite_cell(object)),
        None => None,
    }
}

} // verus!

use std::time::Instant;

use kb_engine::kb_game_object::{GameObject, GameObjectType};
use kb_engine::kb_resource::{
    effective_postprocess_mode, postprocess_mode_code, sprite_cell, sprite_cell_checked,
    KbPostProcessMode, KbRenderPassType, KbSpriteCell, SHEET_SIDE, THREE_BITS, TWO_BITS,
};
use kb_engine::kb_utils::{CgVec3, KbFloat};

fn f(v: f32) -> KbFloat {
    KbFloat::from_bits(v.to_bits())
}

fn v3(x: f32, y: f32, z: f32) -> CgVec3 {
    CgVec3::new(f(x), f(y), f(z))
}

fn sprite(sprite_index: i32, anim_frame: i32, facing: f32) -> GameObject {
    let mut object = GameObject::new(
        GameObjectType::Robot,
        sprite_index,
        v3(0.0, 0.0, 0.0),
        v3(facing, 0.0, 0.0),
        v3(1.0, 1.0, 1.0),
        Instant::now(),
        f(0.0),
    );
    object.anim_frame = anim_frame;
    object
}

#[test]
fn postprocess_modes_have_their_codes() {
    assert_eq!(TWO_BITS, 2.0f32.to_bits());
    assert_eq!(THREE_BITS, 3.0f32.to_bits());
    assert_eq!(postprocess_mode_code(KbPostProcessMode::Passthrough), f(0.0));
    assert_eq!(postprocess_mode_code(KbPostProcessMode::Desaturation), f(1.0));
    assert_eq!(postprocess_mode_code(KbPostProcessMode::ScanLines), f(2.0));
    assert_eq!(postprocess_mode_code(KbPostProcessMode::Warp), f(3.0));
}

#[test]
fn a_forced_mode_wins_over_the_configured_one() {
    assert_eq!(
        effective_postprocess_mode(None, KbPostProcessMode::Warp),
        KbPostProcessMode::Warp
    );
    assert_eq!(
        effective_postprocess_mode(Some(KbPostProcessMode::ScanLines), KbPostProcessMode::Warp),
        KbPostProcessMode::ScanLines
    );
    assert_eq!(
        effective_postprocess_mode(Some(KbPostProcessMode::Passthrough), KbPostProcessMode::Warp),
        KbPostProcessMode::Passthrough
    );
}

#[test]
fn pass_types_differ() {
    assert_ne!(KbRenderPassType::Opaque, KbRenderPassType::Transparent);
    assert_ne!(KbRenderPassType::Opaque, KbRenderPassType::PostProcess);
    assert_eq!(KbRenderPassType::PostProcess, KbRenderPassType::PostProcess);
}

#[test]
fn sprites_are_counted_along_the_rows_of_the_sheet() {
    assert_eq!(SHEET_SIDE, 8);
    assert_eq!(sprite_cell(&sprite(0, 0, 1.0)), KbSpriteCell { column: 0, row: 0, mirrored: false });
    assert_eq!(sprite_cell(&sprite(7, 0, 1.0)), KbSpriteCell { column: 7, row: 0, mirrored: false });
    assert_eq!(sprite_cell(&sprite(8, 0, 1.0)), KbSpriteCell { column: 0, row: 1, mirrored: false });
    assert_eq!(sprite_cell(&sprite(8, 3, 1.0)), KbSpriteCell { column: 3, row: 1, mirrored: false });
    assert_eq!(sprite_cell(&sprite(25, 0, 1.0)), KbSpriteCell { column: 1, row: 3, mirrored: false });
    assert_eq!(sprite_cell(&sprite(5, 2, 1.0)), KbSpriteCell { column: 7, row: 0, mirrored: false });
    assert_eq!(sprite_cell(&sprite(5, 3, 1.0)), KbSpriteCell { column: 0, row: 1, mirrored: false });
    assert_eq!(
        sprite_cell(&sprite(i32::MAX, 0, 1.0)),
        KbSpriteCell { column: i32::MAX % 8, row: i32::MAX / 8, mirrored: false }
    );
}

#[test]
fn negative_sprites_round_towards_zero() {
    assert_eq!(sprite_cell(&sprite(-1, 0, 1.0)), KbSpriteCell { column: -1, row: 0, mirrored: false });
    assert_eq!(sprite_cell(&sprite(-9, 0, 1.0)), KbSpriteCell { column: -1, row: -1, mirrored: false });
    assert_eq!(sprite_cell(&sprite(3, -20, 1.0)), KbSpriteCell { column: (-17) % 8, row: (-17) / 8, mirrored: false });
    assert_eq!(
        sprite_cell(&sprite(i32::MIN, 0, 1.0)),
        KbSpriteCell { column: i32::MIN % 8, row: i32::MIN / 8, mirrored: false }
    );
}

#[test]
fn a_sprite_that_does_not_face_right_is_mirrored() {
    assert!(!sprite_cell(&sprite(0, 0, 0.5)).mirrored);
    assert!(sprite_cell(&sprite(0, 0, -1.0)).mirrored);
    assert!(sprite_cell(&sprite(0, 0, 0.0)).mirrored);
    assert!(sprite_cell(&sprite(0, 0, -0.0)).mirrored);
    assert!(sprite_cell(&sprite(0, 0, f32::NAN)).mirrored);
    assert!(!sprite_cell(&sprite(0, 0, f32::INFINITY)).mirrored);
}

#[test]
fn a_sprite_index_that_overflows_has_no_cell() {
    assert_eq!(sprite_cell_checked(&sprite(i32::MAX, 1, 1.0)), None);
    assert_eq!(sprite_cell_checked(&sprite(i32::MIN, -1, 1.0)), None);
    assert_eq!(
        sprite_cell_checked(&sprite(i32::MAX, -1, 1.0)),
        Some(KbSpriteCell { column: (i32::MAX - 1) % 8, row: (i32::MAX - 1) / 8, mirrored: false })
    );
    assert_eq!(
        sprite_cell_checked(&sprite(9, 1, -1.0)),
        Some(KbSpriteCell { column: 2, row: 1, mirrored: true })
    );
}

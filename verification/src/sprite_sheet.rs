use vstd::prelude::*;

use crate::level_object::LevelType;
use crate::units::Rect;

verus! {

/// Side length, in texture pixels, of one square cell of the sprite sheet.
pub const SPRITE_SIZE: i32 = 64;

/// Identifier of an animated foreground sprite.
#[derive(Clone, Copy, PartialEq, Eq, Structural, Hash, Debug)]
pub enum SpriteType {
    PLAYER,
}

/// The sprite-sheet rectangle of a tile kind's background sprite: open
/// space uses the second cell of the first row, walls the first.
pub open spec fn background_rect(level_type: LevelType) -> Rect {
    match level_type {
        LevelType::SPACE => Rect { left: 64, top: 0, width: 64, height: 64 },
        LevelType::WALL => Rect { left: 0, top: 0, width: 64, height: 64 },
    }
}

/// The ordered animation frames of a foreground sprite: the player uses the
/// first three cells of the second row.
pub open spec fn foreground_frames(sprite_type: SpriteType) -> Seq<Rect> {
    match sprite_type {
        SpriteType::PLAYER => seq![
            Rect { left: 0, top: 64, width: 64, height: 64 },
            Rect { left: 64, top: 64, width: 64, height: 64 },
            Rect { left: 128, top: 64, width: 64, height: 64 },
        ],
    }
}

/// Look up the background rectangle of a tile kind. Every kind has an
/// entry, so the lookup is total and cannot fail.
pub fn get_background_rect(level_type: &LevelType) -> (r: Rect)
    ensures
        r == background_rect(*level_type),
{
    match level_type {
        LevelType::SPACE => Rect::new(SPRITE_SIZE * 1, SPRITE_SIZE * 0, SPRITE_SIZE, SPRITE_SIZE),
        LevelType::WALL => Rect::new(SPRITE_SIZE * 0, SPRITE_SIZE * 0, SPRITE_SIZE, SPRITE_SIZE),
    }
}

/// Look up the ordered animation frames of a foreground sprite. Every
/// sprite has an entry, so the lookup is total and cannot fail.
pub fn get_foreground_frames(sprite_type: &SpriteType) -> (r: Vec<Rect>)
    ensures
        r@ == foreground_frames(*sprite_type),
{
    let mut frames: Vec<Rect> = Vec::new();
    frames.push(Rect::new(SPRITE_SIZE * 0, SPRITE_SIZE * 1, SPRITE_SIZE, SPRITE_SIZE));
    frames.push(Rect::new(SPRITE_SIZE * 1, SPRITE_SIZE * 1, SPRITE_SIZE, SPRITE_SIZE));
    frames.push(Rect::new(SPRITE_SIZE * 2, SPRITE_SIZE * 1, SPRITE_SIZE, SPRITE_SIZE));
    proof {
        assert(frames@ =~= foreground_frames(*sprite_type));
    }
    frames
}

} // verus!

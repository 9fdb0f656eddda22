use vstd::prelude::*;

use crate::units::Rect;

verus! {

/// Classification of one grid cell.
#[derive(Clone, Copy, PartialEq, Eq, Structural, Hash, Debug)]
pub enum LevelType {
    SPACE,
    WALL,
}

/// One cell of the level grid: its classification together with its fixed
/// world-space rectangle.
#[derive(Clone, Copy, PartialEq, Eq, Structural, Debug)]
pub struct LevelObject {
    pub level_type: LevelType,
    pub rect: Rect,
}

impl LevelObject {
    pub fn new(level_type: LevelType, rect: Rect) -> (r: LevelObject)
        ensures
            r == (LevelObject { level_type, rect }),
    {
        LevelObject { level_type, rect }
    }
}

} // verus!

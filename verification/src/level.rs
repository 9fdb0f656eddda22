use vstd::prelude::*;

use crate::GAME_SIZE;
use crate::level_object::{LevelObject, LevelType};
use crate::units::{Color, Rect, Vector2i, Vector2u};

verus! {

/// The fixed world-space rectangle of the tile at grid coordinates `(x, y)`.
pub open spec fn tile_rect(x: int, y: int) -> Rect {
    Rect {
        left: (x * GAME_SIZE) as i32,
        top: (y * GAME_SIZE) as i32,
        width: GAME_SIZE as i32,
        height: GAME_SIZE as i32,
    }
}

/// Clamp an index to `[0, len - 1]`.
pub open spec fn clamp_index(v: int, len: int) -> int {
    if v < 0 {
        0
    } else if v > len - 1 {
        len - 1
    } else {
        v
    }
}

/// The tile coordinate of a world coordinate: the world coordinate snapped
/// down to the nearest multiple of the cell size, divided by the cell size.
pub open spec fn world_to_tile_coord(w: int) -> int {
    w / (GAME_SIZE as int)
}

/// The classification a level-image pixel maps to: exactly opaque blue marks
/// a wall, every other pixel is open space.
pub open spec fn pixel_level_type(c: Color) -> LevelType {
    if c.red == 0 && c.green == 0 && c.blue == 255 && c.alpha == 255 {
        LevelType::WALL
    } else {
        LevelType::SPACE
    }
}

/// The classification a text-map character maps to: `'#'` marks a wall,
/// every other character is open space.
pub open spec fn char_level_type(c: char) -> LevelType {
    if c == '#' {
        LevelType::WALL
    } else {
        LevelType::SPACE
    }
}

/// The static tile grid. `size` bounds the publicly reachable tiles; the
/// stored grid may be larger (the image loader stores one extra row and
/// column), but queries are clamped into `size`, so the excess is inert.
pub struct Level {
    pub size: Vector2u,
    pub map: Vec<Vec<LevelObject>>,
}

impl Level {
    /// The stored grid, column-major: `grid()[x][y]` is the tile in column
    /// `x`, row `y`.
    pub open spec fn grid(&self) -> Seq<Seq<LevelObject>> {
        Seq::new(self.map@.len(), |i: int| self.map@[i]@)
    }

    /// Well-formedness: the grid covers `size`, and every reachable tile
    /// carries the rectangle of its own grid cell.
    pub open spec fn wf(&self) -> bool {
        &&& 1 <= self.size.x
        &&& 1 <= self.size.y
        &&& self.size.x * GAME_SIZE <= i32::MAX
        &&& self.size.y * GAME_SIZE <= i32::MAX
        &&& self.size.x <= self.grid().len()
        &&& forall|i: int|
            0 <= i < self.grid().len() ==> self.size.y <= (#[trigger] self.grid()[i]).len()
        &&& forall|x: int, y: int|
            0 <= x < self.size.x && 0 <= y < self.size.y ==> (#[trigger] self.grid()[x][y]).rect
                == tile_rect(x, y)
    }

    /// The tile a query for `(x, y)` resolves to, with each coordinate
    /// clamped into range independently.
    pub open spec fn tile_at(&self, x: int, y: int) -> LevelObject {
        self.grid()[clamp_index(x, self.size.x as int)][clamp_index(y, self.size.y as int)]
    }

    /// Build a level from an explicit grid of tile classifications.
    /// `map` is column-major and rectangular; `size` may leave trailing
    /// columns and rows of `map` unreachable.
    pub fn new_with_map(size: Vector2u, map: Vec<Vec<LevelType>>) -> (r: Level)
        requires
            1 <= size.x,
            1 <= size.y,
            size.x <= map@.len(),
            map@.len() * GAME_SIZE <= i32::MAX,
            map@[0]@.len() * GAME_SIZE <= i32::MAX,
            size.y <= map@[0]@.len(),
            forall|i: int| 0 <= i < map@.len() ==> (#[trigger] map@[i])@.len() == map@[0]@.len(),
        ensures
            r.wf(),
            r.size == size,
            r.grid().len() == map@.len(),
            forall|x: int, y: int|
                0 <= x < map@.len() && 0 <= y < map@[0]@.len() ==> #[trigger] r.grid()[x][y]
                    == (LevelObject { level_type: map@[x]@[y], rect: tile_rect(x, y) }),
    {
        proof {
            vstd::arithmetic::mul::lemma_mul_inequality(
                size.x as int,
                map@.len() as int,
                GAME_SIZE as int,
            );
            vstd::arithmetic::mul::lemma_mul_inequality(
                size.y as int,
                map@[0]@.len() as int,
                GAME_SIZE as int,
            );
        }
        let new_map = Level::setup_map(&map);
        Level { size, map: new_map }
    }

    /// Build the tile grid: each classification is paired with the
    /// world-space rectangle of its cell.
    pub fn setup_map(map: &Vec<Vec<LevelType>>) -> (r: Vec<Vec<LevelObject>>)
        requires
            1 <= map@.len(),
            map@.len() * GAME_SIZE <= i32::MAX,
            map@[0]@.len() * GAME_SIZE <= i32::MAX,
            forall|i: int| 0 <= i < map@.len() ==> (#[trigger] map@[i])@.len() == map@[0]@.len(),
        ensures
            r@.len() == map@.len(),
            forall|i: int| 0 <= i < r@.len() ==> (#[trigger] r@[i])@.len() == map@[0]@.len(),
            forall|x: int, y: int|
                0 <= x < map@.len() && 0 <= y < map@[0]@.len() ==> #[trigger] r@[x]@[y]
                    == (LevelObject { level_type: map@[x]@[y], rect: tile_rect(x, y) }),
    {
        let height = map[0].len();
        let mut returned_map: Vec<Vec<LevelObject>> = Vec::new();
        let mut x: usize = 0;
        while x < map.len()
            invariant
                x <= map@.len(),
                1 <= map@.len(),
                map@.len() * GAME_SIZE <= i32::MAX,
                height * GAME_SIZE <= i32::MAX,
                height == map@[0]@.len(),
                forall|i: int|
                    0 <= i < map@.len() ==> (#[trigger] map@[i])@.len() == map@[0]@.len(),
                returned_map@.len() == x,
                forall|i: int|
                    0 <= i < x ==> (#[trigger] returned_map@[i])@.len() == height,
                forall|i: int, j: int|
                    0 <= i < x && 0 <= j < height ==> #[trigger] returned_map@[i]@[j]
                        == (LevelObject { level_type: map@[i]@[j], rect: tile_rect(i, j) }),
            decreases map@.len() - x,
        {
            let mut row: Vec<LevelObject> = Vec::new();
            let mut y: usize = 0;
            while y < height
                invariant
                    y <= height,
                    x < map@.len(),
                    map@.len() * GAME_SIZE <= i32::MAX,
                    height * GAME_SIZE <= i32::MAX,
                    height == map@[0]@.len(),
                    forall|i: int|
                        0 <= i < map@.len() ==> (#[trigger] map@[i])@.len() == map@[0]@.len(),
                    row@.len() == y,
                    forall|j: int|
                        0 <= j < y ==> #[trigger] row@[j]
                            == (LevelObject { level_type: map@[x as int]@[j], rect: tile_rect(x as int, j) }),
                decreases height - y,
            {
                let level_type = map[x][y];
                proof {
                    vstd::arithmetic::mul::lemma_mul_strict_inequality(
                        x as int,
                        map@.len() as int,
                        GAME_SIZE as int,
                    );
                    vstd::arithmetic::mul::lemma_mul_strict_inequality(
                        y as int,
                        height as int,
                        GAME_SIZE as int,
                    );
                }
                let rect = Rect::new(
                    (x as i32) * (GAME_SIZE as i32),
                    (y as i32) * (GAME_SIZE as i32),
                    GAME_SIZE as i32,
                    GAME_SIZE as i32,
                );
                row.push(LevelObject::new(level_type, rect));
                y = y + 1;
            }
            returned_map.push(row);
            x = x + 1;
        }
        returned_map
    }

    /// Build a level from a rectangular text map, row-major: `rows[y][x]` is
    /// the character of the tile at `(x, y)`; `'#'` marks a wall.
    pub fn new_with_text(rows: &Vec<Vec<char>>) -> (r: Level)
        requires
            1 <= rows@.len(),
            1 <= rows@[0]@.len(),
            rows@.len() * GAME_SIZE <= i32::MAX,
            rows@[0]@.len() * GAME_SIZE <= i32::MAX,
            forall|i: int| 0 <= i < rows@.len() ==> (#[trigger] rows@[i])@.len() == rows@[0]@.len(),
        ensures
            r.wf(),
            r.size.x == rows@[0]@.len(),
            r.size.y == rows@.len(),
            forall|x: int, y: int|
                0 <= x < r.size.x && 0 <= y < r.size.y ==> (#[trigger] r.grid()[x][y]).level_type
                    == char_level_type(rows@[y]@[x]),
    {
        let width = rows[0].len();
        let height = rows.len();
        let mut map: Vec<Vec<LevelType>> = Vec::new();
        let mut x: usize = 0;
        while x < width
            invariant
                x <= width,
                width == rows@[0]@.len(),
                height == rows@.len(),
                forall|i: int|
                    0 <= i < rows@.len() ==> (#[trigger] rows@[i])@.len() == rows@[0]@.len(),
                map@.len() == x,
                forall|i: int| 0 <= i < x ==> (#[trigger] map@[i])@.len() == height,
                forall|i: int, j: int|
                    0 <= i < x && 0 <= j < height ==> #[trigger] map@[i]@[j]
                        == char_level_type(rows@[j]@[i]),
            decreases width - x,
        {
            let mut column: Vec<LevelType> = Vec::new();
            let mut y: usize = 0;
            while y < height
                invariant
                    y <= height,
                    x < width,
                    width == rows@[0]@.len(),
                    height == rows@.len(),
                    forall|i: int|
                        0 <= i < rows@.len() ==> (#[trigger] rows@[i])@.len() == rows@[0]@.len(),
                    column@.len() == y,
                    forall|j: int|
                        0 <= j < y ==> #[trigger] column@[j] == char_level_type(rows@[j]@[x as int]),
                decreases height - y,
            {
                let c = rows[y][x];
                let level_type = if c == '#' {
                    LevelType::WALL
                } else {
                    LevelType::SPACE
                };
                column.push(level_type);
                y = y + 1;
            }
            map.push(column);
            x = x + 1;
        }
        let size = Vector2u::new(width as u32, height as u32);
        Level::new_with_map(size, map)
    }

    /// Build a level from the pixels of an image of `image_size`. The pixel
    /// buffer is row-major and, as the loader reads one pixel beyond the
    /// reported size on both axes, covers `(size.x + 1) * (size.y + 1)`
    /// pixels; exactly opaque blue marks a wall.
    pub fn new_with_image(image_size: Vector2u, pixels: &Vec<Color>) -> (r: Level)
        requires
            1 <= image_size.x,
            1 <= image_size.y,
            (image_size.x + 1) * GAME_SIZE <= i32::MAX,
            (image_size.y + 1) * GAME_SIZE <= i32::MAX,
            pixels@.len() == (image_size.x + 1) * (image_size.y + 1),
        ensures
            r.wf(),
            r.size == image_size,
            forall|x: int, y: int|
                0 <= x <= image_size.x && 0 <= y <= image_size.y ==> (
                #[trigger] r.grid()[x][y]).level_type == pixel_level_type(
                    pixels@[y * (image_size.x + 1) + x],
                ),
    {
        proof {
            assert(image_size.x + 1 <= i32::MAX && image_size.y + 1 <= i32::MAX)
                by (nonlinear_arith)
                requires
                    (image_size.x + 1) * GAME_SIZE <= i32::MAX,
                    (image_size.y + 1) * GAME_SIZE <= i32::MAX,
                    1 <= GAME_SIZE,
                    0 <= image_size.x,
                    0 <= image_size.y,
            ;
        }
        let width_1 = image_size.x as usize + 1;
        let height_1 = image_size.y as usize + 1;
        let total = pixels.len();
        let mut map: Vec<Vec<LevelType>> = Vec::new();
        let mut x: usize = 0;
        while x < width_1
            invariant
                x <= width_1,
                width_1 == image_size.x + 1,
                height_1 == image_size.y + 1,
                pixels@.len() == width_1 * height_1,
                pixels@.len() == total,
                map@.len() == x,
                forall|i: int| 0 <= i < x ==> (#[trigger] map@[i])@.len() == height_1,
                forall|i: int, j: int|
                    0 <= i < x && 0 <= j < height_1 ==> #[trigger] map@[i]@[j] == pixel_level_type(
                        pixels@[j * width_1 + i],
                    ),
            decreases width_1 - x,
        {
            let mut column: Vec<LevelType> = Vec::new();
            let mut y: usize = 0;
            while y < height_1
                invariant
                    y <= height_1,
                    x < width_1,
                    width_1 == image_size.x + 1,
                    height_1 == image_size.y + 1,
                    pixels@.len() == width_1 * height_1,
                    pixels@.len() == total,
                    column@.len() == y,
                    forall|j: int|
                        0 <= j < y ==> #[trigger] column@[j] == pixel_level_type(
                            pixels@[j * width_1 + x as int],
                        ),
                decreases height_1 - y,
            {
                proof {
                    assert(y * width_1 + x < width_1 * height_1) by (nonlinear_arith)
                        requires
                            0 <= x < width_1,
                            0 <= y < height_1,
                    ;
                }
                let pixel = pixels[y * width_1 + x];
                let level_type = if pixel.red == 0 && pixel.green == 0 && pixel.blue == 255
                    && pixel.alpha == 255 {
                    LevelType::WALL
                } else {
                    LevelType::SPACE
                };
                column.push(level_type);
                y = y + 1;
            }
            map.push(column);
            x = x + 1;
        }
        Level::new_with_map(image_size, map)
    }

    /// Look up the tile at grid coordinates `(x, y)`. Out-of-range
    /// coordinates are clamped to the nearest edge, so the query never
    /// fails.
    pub fn get_tile(&self, x: i32, y: i32) -> (r: &LevelObject)
        requires
            self.wf(),
        ensures
            *r == self.tile_at(x as int, y as int),
    {
        let max_x = (self.size.x - 1) as i32;
        let max_y = (self.size.y - 1) as i32;
        let cx: i32 = if x < 0 {
            0
        } else if x > max_x {
            max_x
        } else {
            x
        };
        let cy: i32 = if y < 0 {
            0
        } else if y > max_y {
            max_y
        } else {
            y
        };
        &self.map[cx as usize][cy as usize]
    }

    /// Map world coordinates to the tile containing them: snap each
    /// coordinate down to a multiple of the cell size by masking the low
    /// bits (correct because the cell size is a power of two), then divide.
    pub fn world_to_tile(x: i32, y: i32) -> (r: (i32, i32))
        ensures
            r.0 == world_to_tile_coord(x as int),
            r.1 == world_to_tile_coord(y as int),
    {
        let mask: i32 = !(GAME_SIZE as i32 - 1);
        let mut tx: i32 = x & mask;
        let mut ty: i32 = y & mask;
        proof {
            assert(x & !(31i32) == 32 * (x as int / 32)) by (bit_vector);
            assert(y & !(31i32) == 32 * (y as int / 32)) by (bit_vector);
        }
        if tx != 0 {
            tx = tx / (GAME_SIZE as i32);
        }
        if ty != 0 {
            ty = ty / (GAME_SIZE as i32);
        }
        (tx, ty)
    }

    /// The world coordinates of the top-left corner of the tile at `(x, y)`.
    pub fn tile_to_world(x: i32, y: i32) -> (r: Vector2i)
        requires
            i32::MIN <= x * GAME_SIZE,
            x * GAME_SIZE <= i32::MAX,
            i32::MIN <= y * GAME_SIZE,
            y * GAME_SIZE <= i32::MAX,
        ensures
            r.x == x * GAME_SIZE,
            r.y == y * GAME_SIZE,
    {
        Vector2i::new(x * (GAME_SIZE as i32), y * (GAME_SIZE as i32))
    }
}

/// Bounds of the rectangle a tile query resolves to: its edges lie inside
/// the level's world extent, and its extent is one cell.
pub proof fn lemma_tile_rect_bounds(level: &Level, x: int, y: int)
    requires
        level.wf(),
    ensures
        0 <= level.tile_at(x, y).rect.left,
        level.tile_at(x, y).rect.left + level.tile_at(x, y).rect.width <= level.size.x * GAME_SIZE,
        0 <= level.tile_at(x, y).rect.top,
        level.tile_at(x, y).rect.top + level.tile_at(x, y).rect.height <= level.size.y * GAME_SIZE,
        level.tile_at(x, y).rect.width == GAME_SIZE,
        level.tile_at(x, y).rect.height == GAME_SIZE,
{
    let cx = clamp_index(x, level.size.x as int);
    let cy = clamp_index(y, level.size.y as int);
    assert(level.tile_at(x, y).rect == tile_rect(cx, cy));
    assert(0 <= cx * (GAME_SIZE as int) && (cx + 1) * (GAME_SIZE as int) == cx * (GAME_SIZE as int)
        + GAME_SIZE && 0 <= cy * (GAME_SIZE as int) && (cy + 1) * (GAME_SIZE as int) == cy * (
    GAME_SIZE as int) + GAME_SIZE) by (nonlinear_arith)
        requires
            0 <= cx,
            0 <= cy,
            GAME_SIZE == 32,
    ;
    vstd::arithmetic::mul::lemma_mul_inequality(cx + 1, level.size.x as int, GAME_SIZE as int);
    vstd::arithmetic::mul::lemma_mul_inequality(cy + 1, level.size.y as int, GAME_SIZE as int);
}

/// Clamping law: a query outside the grid returns the same tile as the
/// nearest edge query, on each axis independently.
pub proof fn lemma_get_tile_clamps(level: &Level, x: int, y: int)
    requires
        level.wf(),
    ensures
        x < 0 ==> level.tile_at(x, y) == level.tile_at(0, y),
        x >= level.size.x ==> level.tile_at(x, y) == level.tile_at(level.size.x - 1, y),
        y < 0 ==> level.tile_at(x, y) == level.tile_at(x, 0),
        y >= level.size.y ==> level.tile_at(x, y) == level.tile_at(x, level.size.y - 1),
{
}

/// Round-trip law: the top-left world corner of any tile maps back to the
/// same tile coordinates.
pub proof fn lemma_world_tile_round_trip(tx: int, ty: int)
    ensures
        world_to_tile_coord(tx * GAME_SIZE) == tx,
        world_to_tile_coord(ty * GAME_SIZE) == ty,
{
    vstd::arithmetic::div_mod::lemma_div_multiples_vanish(tx, GAME_SIZE as int);
    vstd::arithmetic::div_mod::lemma_div_multiples_vanish(ty, GAME_SIZE as int);
    assert(tx * (GAME_SIZE as int) == (GAME_SIZE as int) * tx) by (nonlinear_arith);
    assert(ty * (GAME_SIZE as int) == (GAME_SIZE as int) * ty) by (nonlinear_arith);
}

} // verus!

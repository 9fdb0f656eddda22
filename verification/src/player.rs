use vstd::prelude::*;

use crate::GAME_SIZE;
use crate::WORLD_BOUND;
use crate::game_time::GameTime;
use crate::input::{Input, KEY_A, KEY_D, KEY_S, KEY_W};
use crate::level::{Level, lemma_tile_rect_bounds, world_to_tile_coord};
use crate::level_object::{LevelObject, LevelType};
use crate::units::{Rect, Vector2i};

verus! {

/// Granularity, in world units, that the position snaps to on a direction
/// change; independent of the cell size, it eases entering narrow corridors
/// at corners.
pub const ROUND_GRANULARITY: i32 = 8;

/// The movement direction of the controllable entity.
#[derive(Clone, Copy, PartialEq, Eq, Structural, Debug)]
pub enum MoveDirection {
    NONE,
    UP,
    DOWN,
    LEFT,
    RIGHT,
}

/// The direction after the four direction keys are checked in the fixed
/// order Up, Down, Left, Right, each active key overwriting the result in
/// turn: the last active key in that order wins, and with no active key the
/// previous direction stands.
pub open spec fn resolved_direction(
    prev: MoveDirection,
    up: bool,
    down: bool,
    left: bool,
    right: bool,
) -> MoveDirection {
    if right {
        MoveDirection::RIGHT
    } else if left {
        MoveDirection::LEFT
    } else if down {
        MoveDirection::DOWN
    } else if up {
        MoveDirection::UP
    } else {
        prev
    }
}

/// The axis-aligned candidate displacement for one frame: at most one axis
/// is nonzero, with magnitude `speed * delta` and sign per direction.
pub open spec fn displacement(dir: MoveDirection, speed: int, delta: int) -> (int, int) {
    match dir {
        MoveDirection::UP => (0, -(speed * delta)),
        MoveDirection::DOWN => (0, speed * delta),
        MoveDirection::LEFT => (-(speed * delta), 0),
        MoveDirection::RIGHT => (speed * delta, 0),
        MoveDirection::NONE => (0, 0),
    }
}

/// Truncating remainder, as `%` computes it on machine integers.
pub open spec fn trunc_rem(v: int, g: int) -> int {
    if v >= 0 {
        v % g
    } else {
        -((-v) % g)
    }
}

/// `v` rounded to a multiple of `g`: up to the next multiple when the
/// remainder is at least half of `g`, otherwise down.
pub open spec fn round_to_multiple(v: int, g: int) -> int {
    if trunc_rem(v, g) >= g / 2 {
        v - trunc_rem(v, g) + g
    } else {
        v - trunc_rem(v, g)
    }
}

/// The display rotation, in degrees, for a movement direction; with no
/// direction the previous rotation stands.
pub open spec fn rotation_for(dir: MoveDirection, prev: i32) -> int {
    match dir {
        MoveDirection::UP => 270,
        MoveDirection::DOWN => 90,
        MoveDirection::LEFT => 180,
        MoveDirection::RIGHT => 0,
        MoveDirection::NONE => prev as int,
    }
}

/// Offset of the neighbor tile at scan position `i`, in the fixed scan
/// order Up, Down, Left, Right, Up-Left, Up-Right, Down-Left, Down-Right.
pub open spec fn neighbor_offset(i: int) -> (int, int) {
    if i == 0 {
        (0, -1)
    } else if i == 1 {
        (0, 1)
    } else if i == 2 {
        (-1, 0)
    } else if i == 3 {
        (1, 0)
    } else if i == 4 {
        (-1, -1)
    } else if i == 5 {
        (1, -1)
    } else if i == 6 {
        (-1, 1)
    } else {
        (1, 1)
    }
}

/// The tile at scan position `i` around tile `(tx, ty)`, as the grid
/// resolves it: out-of-range neighbors clamp to the nearest edge tile.
pub open spec fn neighbor_tile(level: &Level, tx: int, ty: int, i: int) -> LevelObject {
    level.tile_at(tx + neighbor_offset(i).0, ty + neighbor_offset(i).1)
}

/// Whether scan position `i` holds a wall tile that overlaps the proposed
/// bounding box.
pub open spec fn wall_hit(level: &Level, tx: int, ty: int, proposed_box: Rect, i: int) -> bool {
    &&& neighbor_tile(level, tx, ty, i).level_type == LevelType::WALL
    &&& proposed_box.overlaps(neighbor_tile(level, tx, ty, i).rect)
}

/// The proposed position clamped against a wall rectangle along the single
/// axis of the movement direction: the entity's edge comes to rest exactly
/// on the facing edge of the wall.
pub open spec fn clamped_position(
    proposed: Vector2i,
    wall: Rect,
    dir: MoveDirection,
    origin: Vector2i,
) -> Vector2i {
    match dir {
        MoveDirection::UP => Vector2i {
            x: proposed.x,
            y: (wall.top + wall.height + origin.y) as i32,
        },
        MoveDirection::DOWN => Vector2i { x: proposed.x, y: (wall.top - origin.y) as i32 },
        MoveDirection::LEFT => Vector2i {
            x: (wall.left + wall.width + origin.x) as i32,
            y: proposed.y,
        },
        MoveDirection::RIGHT => Vector2i { x: (wall.left - origin.x) as i32, y: proposed.y },
        MoveDirection::NONE => proposed,
    }
}

/// The collision scan from position `i` on: the first overlapping wall in
/// the fixed neighbor order clamps the proposed position and stops the scan;
/// when nothing overlaps, the proposed position stands.
pub open spec fn scan_from(
    level: &Level,
    tx: int,
    ty: int,
    proposed_box: Rect,
    proposed: Vector2i,
    dir: MoveDirection,
    origin: Vector2i,
    i: int,
) -> Vector2i
    decreases 8 - i,
{
    if i >= 8 {
        proposed
    } else if wall_hit(level, tx, ty, proposed_box, i) {
        clamped_position(proposed, neighbor_tile(level, tx, ty, i).rect, dir, origin)
    } else {
        scan_from(level, tx, ty, proposed_box, proposed, dir, origin, i + 1)
    }
}

/// The resolved position for a move from `pos` by `movement`: the proposed
/// bounding box (centered on the candidate position, extent twice the half
/// size) is scanned against the eight neighbors of the current tile.
pub open spec fn resolved_position(
    level: &Level,
    pos: Vector2i,
    movement: Vector2i,
    dir: MoveDirection,
    half_size: Vector2i,
) -> Vector2i {
    let tx = world_to_tile_coord(pos.x as int);
    let ty = world_to_tile_coord(pos.y as int);
    let proposed = Vector2i { x: (pos.x + movement.x) as i32, y: (pos.y + movement.y) as i32 };
    let proposed_box = Rect {
        left: (proposed.x - half_size.x) as i32,
        top: (proposed.y - half_size.y) as i32,
        width: (2 * half_size.x) as i32,
        height: (2 * half_size.y) as i32,
    };
    scan_from(level, tx, ty, proposed_box, proposed, dir, half_size, 0)
}

/// A collision scan whose first `i` positions miss resolves the same from
/// the start as from position `i`.
proof fn lemma_scan_skip(
    level: &Level,
    tx: int,
    ty: int,
    proposed_box: Rect,
    proposed: Vector2i,
    dir: MoveDirection,
    origin: Vector2i,
    i: int,
)
    requires
        0 <= i <= 8,
        forall|j: int| 0 <= j < i ==> !wall_hit(level, tx, ty, proposed_box, j),
    ensures
        scan_from(level, tx, ty, proposed_box, proposed, dir, origin, 0) == scan_from(
            level,
            tx,
            ty,
            proposed_box,
            proposed,
            dir,
            origin,
            i,
        ),
    decreases i,
{
    if i > 0 {
        lemma_scan_skip(level, tx, ty, proposed_box, proposed, dir, origin, i - 1);
    }
}

/// The controllable entity: a center-origin position with a half extent,
/// the direction state of the movement machine, and a display rotation.
pub struct Player {
    pub position: Vector2i,
    pub half_size: Vector2i,
    pub move_speed: i32,
    pub initial_dir: MoveDirection,
    pub move_dir: MoveDirection,
    pub rotation: i32,
}

impl Player {
    /// Bounds that keep one frame of movement arithmetic inside `i32`: the
    /// level's world extent, the entity's position and half size, and the
    /// frame's displacement magnitude all lie within the world bound.
    pub open spec fn update_bounds(self, delta: int, level: &Level) -> bool {
        &&& level.wf()
        &&& level.size.x * GAME_SIZE <= WORLD_BOUND
        &&& level.size.y * GAME_SIZE <= WORLD_BOUND
        &&& 0 <= self.half_size.x <= WORLD_BOUND
        &&& 0 <= self.half_size.y <= WORLD_BOUND
        &&& -WORLD_BOUND <= self.position.x <= WORLD_BOUND
        &&& -WORLD_BOUND <= self.position.y <= WORLD_BOUND
        &&& 0 <= self.move_speed
        &&& 0 <= delta
        &&& self.move_speed * delta <= WORLD_BOUND
    }

    /// The position after one movement update of `p`: the candidate
    /// displacement for its direction, resolved against the grid, snapped to
    /// the rounding granularity on both axes when the direction changed this
    /// frame.
    pub open spec fn movement_result(p: Player, delta: int, level: &Level) -> Vector2i {
        let d = displacement(p.move_dir, p.move_speed as int, delta);
        let movement = Vector2i { x: d.0 as i32, y: d.1 as i32 };
        let resolved = resolved_position(level, p.position, movement, p.move_dir, p.half_size);
        if p.initial_dir != p.move_dir {
            Vector2i {
                x: round_to_multiple(resolved.x as int, ROUND_GRANULARITY as int) as i32,
                y: round_to_multiple(resolved.y as int, ROUND_GRANULARITY as int) as i32,
            }
        } else {
            resolved
        }
    }

    /// A new entity at `(x, y)` with the given half extent and speed, not
    /// yet moving and facing rotation zero.
    pub fn new(x: i32, y: i32, half_size: Vector2i, move_speed: i32) -> (r: Player)
        ensures
            r == (Player {
                position: Vector2i { x, y },
                half_size,
                move_speed,
                initial_dir: MoveDirection::NONE,
                move_dir: MoveDirection::NONE,
                rotation: 0,
            }),
    {
        Player {
            position: Vector2i::new(x, y),
            half_size,
            move_speed,
            initial_dir: MoveDirection::NONE,
            move_dir: MoveDirection::NONE,
            rotation: 0,
        }
    }

    /// One frame of the movement machine: resolve the direction from input,
    /// move with collision resolution, and update the display rotation.
    pub fn update(&mut self, input: &Input, game_time: &GameTime, level: &Level)
        requires
            old(self).update_bounds(game_time.delta_time as int, level),
        ensures
            ({
                let dir = resolved_direction(
                    old(self).move_dir,
                    input.spec_key_down(KEY_W),
                    input.spec_key_down(KEY_S),
                    input.spec_key_down(KEY_A),
                    input.spec_key_down(KEY_D),
                );
                let stepped = Player {
                    initial_dir: old(self).move_dir,
                    move_dir: dir,
                    ..*old(self)
                };
                &&& final(self).move_dir == dir
                &&& final(self).initial_dir == dir
                &&& final(self).position == Player::movement_result(
                    stepped,
                    game_time.delta_time as int,
                    level,
                )
                &&& final(self).rotation == rotation_for(dir, old(self).rotation)
                &&& final(self).half_size == old(self).half_size
                &&& final(self).move_speed == old(self).move_speed
            }),
    {
        self.process_input(input);
        self.update_movement(game_time, level);
        self.update_rotation();
    }

    /// Resolve this frame's direction from the pressed keys, checking Up,
    /// Down, Left, Right in that fixed order with each positive check
    /// overwriting the direction; the previous direction is remembered for
    /// the turn detection of the movement step.
    pub fn process_input(&mut self, input: &Input)
        ensures
            final(self).initial_dir == old(self).move_dir,
            final(self).move_dir == resolved_direction(
                old(self).move_dir,
                input.spec_key_down(KEY_W),
                input.spec_key_down(KEY_S),
                input.spec_key_down(KEY_A),
                input.spec_key_down(KEY_D),
            ),
            final(self).position == old(self).position,
            final(self).half_size == old(self).half_size,
            final(self).move_speed == old(self).move_speed,
            final(self).rotation == old(self).rotation,
    {
        self.initial_dir = self.move_dir;
        if input.is_key_down(KEY_W) {
            self.move_dir = MoveDirection::UP;
        }
        if input.is_key_down(KEY_S) {
            self.move_dir = MoveDirection::DOWN;
        }
        if input.is_key_down(KEY_A) {
            self.move_dir = MoveDirection::LEFT;
        }
        if input.is_key_down(KEY_D) {
            self.move_dir = MoveDirection::RIGHT;
        }
    }

    /// Move the entity: resolve the candidate displacement against the grid
    /// and, when the direction changed this frame, snap the result to the
    /// rounding granularity to ease entering tunnels.
    fn update_movement(&mut self, game_time: &GameTime, level: &Level)
        requires
            old(self).update_bounds(game_time.delta_time as int, level),
        ensures
            final(self).position == Player::movement_result(
                *old(self),
                game_time.delta_time as int,
                level,
            ),
            final(self).initial_dir == old(self).move_dir,
            final(self).move_dir == old(self).move_dir,
            final(self).half_size == old(self).half_size,
            final(self).move_speed == old(self).move_speed,
            final(self).rotation == old(self).rotation,
    {
        let movement = self.get_new_movement(game_time);
        let player_pos = self.position;
        let mut new_movement = self.check_collision(player_pos, movement, level);
        if self.initial_dir != self.move_dir {
            new_movement = Player::round_movement(new_movement, ROUND_GRANULARITY);
        }
        self.initial_dir = self.move_dir;
        self.position = new_movement;
    }

    /// This frame's candidate displacement: along the current direction,
    /// magnitude `move_speed * delta_time`, zero when there is no direction.
    pub fn get_new_movement(&self, game_time: &GameTime) -> (r: Vector2i)
        requires
            0 <= self.move_speed,
            0 <= game_time.delta_time,
            self.move_speed * game_time.delta_time <= i32::MAX,
        ensures
            r.x == displacement(
                self.move_dir,
                self.move_speed as int,
                game_time.delta_time as int,
            ).0,
            r.y == displacement(
                self.move_dir,
                self.move_speed as int,
                game_time.delta_time as int,
            ).1,
    {
        match self.move_dir {
            MoveDirection::UP => Vector2i::new(0, -(self.move_speed * game_time.delta_time)),
            MoveDirection::DOWN => Vector2i::new(0, self.move_speed * game_time.delta_time),
            MoveDirection::LEFT => Vector2i::new(-(self.move_speed * game_time.delta_time), 0),
            MoveDirection::RIGHT => Vector2i::new(self.move_speed * game_time.delta_time, 0),
            MoveDirection::NONE => Vector2i::new(0, 0),
        }
    }

    /// Resolve a candidate move against the grid: scan the eight neighbors
    /// of the current tile in fixed order and clamp against the first
    /// overlapping wall along the axis of the current direction; with no
    /// overlap the candidate position stands.
    pub fn check_collision(&self, player_pos: Vector2i, new_movement: Vector2i, level: &Level) -> (r:
        Vector2i)
        requires
            level.wf(),
            level.size.x * GAME_SIZE <= WORLD_BOUND,
            level.size.y * GAME_SIZE <= WORLD_BOUND,
            0 <= self.half_size.x <= WORLD_BOUND,
            0 <= self.half_size.y <= WORLD_BOUND,
            -WORLD_BOUND <= player_pos.x <= WORLD_BOUND,
            -WORLD_BOUND <= player_pos.y <= WORLD_BOUND,
            -WORLD_BOUND <= new_movement.x <= WORLD_BOUND,
            -WORLD_BOUND <= new_movement.y <= WORLD_BOUND,
        ensures
            r == resolved_position(level, player_pos, new_movement, self.move_dir, self.half_size),
            -2 * WORLD_BOUND <= r.x <= 2 * WORLD_BOUND,
            -2 * WORLD_BOUND <= r.y <= 2 * WORLD_BOUND,
    {
        proof {
            vstd::arithmetic::div_mod::lemma_div_is_ordered(
                -(WORLD_BOUND as int),
                player_pos.x as int,
                GAME_SIZE as int,
            );
            vstd::arithmetic::div_mod::lemma_div_is_ordered(
                player_pos.x as int,
                WORLD_BOUND as int,
                GAME_SIZE as int,
            );
            vstd::arithmetic::div_mod::lemma_div_is_ordered(
                -(WORLD_BOUND as int),
                player_pos.y as int,
                GAME_SIZE as int,
            );
            vstd::arithmetic::div_mod::lemma_div_is_ordered(
                player_pos.y as int,
                WORLD_BOUND as int,
                GAME_SIZE as int,
            );
            assert(-(WORLD_BOUND as int) / (GAME_SIZE as int) == -0x80_0000 && (
            WORLD_BOUND as int) / (GAME_SIZE as int) == 0x80_0000) by (nonlinear_arith)
                requires
                    WORLD_BOUND == 0x1000_0000,
                    GAME_SIZE == 32,
            ;
        }
        let (tx, ty) = Level::world_to_tile(player_pos.x, player_pos.y);
        let mut proposed = Vector2i::new(
            player_pos.x + new_movement.x,
            player_pos.y + new_movement.y,
        );
        let curr_rect = Rect::new(
            proposed.x - self.half_size.x,
            proposed.y - self.half_size.y,
            2 * self.half_size.x,
            2 * self.half_size.y,
        );
        let ghost proposed0 = proposed;
        let mut i: usize = 0;
        while i < 8
            invariant
                level.wf(),
                level.size.x * GAME_SIZE <= WORLD_BOUND,
                level.size.y * GAME_SIZE <= WORLD_BOUND,
                0 <= self.half_size.x <= WORLD_BOUND,
                0 <= self.half_size.y <= WORLD_BOUND,
                -0x80_0000 <= tx <= 0x80_0000,
                -0x80_0000 <= ty <= 0x80_0000,
                -2 * WORLD_BOUND <= proposed0.x <= 2 * WORLD_BOUND,
                -2 * WORLD_BOUND <= proposed0.y <= 2 * WORLD_BOUND,
                curr_rect.in_bounds(),
                curr_rect == (Rect {
                    left: (proposed0.x - self.half_size.x) as i32,
                    top: (proposed0.y - self.half_size.y) as i32,
                    width: (2 * self.half_size.x) as i32,
                    height: (2 * self.half_size.y) as i32,
                }),
                tx == world_to_tile_coord(player_pos.x as int),
                ty == world_to_tile_coord(player_pos.y as int),
                proposed0 == (Vector2i {
                    x: (player_pos.x + new_movement.x) as i32,
                    y: (player_pos.y + new_movement.y) as i32,
                }),
                proposed == proposed0,
                0 <= i <= 8,
                forall|j: int| 0 <= j < i ==> !wall_hit(level, tx as int, ty as int, curr_rect, j),
            decreases 8 - i,
        {
            let (dx, dy): (i32, i32) = if i == 0 {
                (0, -1)
            } else if i == 1 {
                (0, 1)
            } else if i == 2 {
                (-1, 0)
            } else if i == 3 {
                (1, 0)
            } else if i == 4 {
                (-1, -1)
            } else if i == 5 {
                (1, -1)
            } else if i == 6 {
                (-1, 1)
            } else {
                (1, 1)
            };
            let checking_tile = level.get_tile(tx + dx, ty + dy);
            proof {
                assert((dx as int, dy as int) == neighbor_offset(i as int));
                assert(*checking_tile == neighbor_tile(level, tx as int, ty as int, i as int));
                lemma_tile_rect_bounds(level, tx + dx, ty + dy);
            }
            if checking_tile.level_type == LevelType::WALL {
                let proposed_rect = checking_tile.rect;
                if curr_rect.intersects(&proposed_rect) {
                    proof {
                        assert(wall_hit(level, tx as int, ty as int, curr_rect, i as int));
                        lemma_scan_skip(
                            level,
                            tx as int,
                            ty as int,
                            curr_rect,
                            proposed0,
                            self.move_dir,
                            self.half_size,
                            i as int,
                        );
                        assert(scan_from(
                            level,
                            tx as int,
                            ty as int,
                            curr_rect,
                            proposed0,
                            self.move_dir,
                            self.half_size,
                            i as int,
                        ) == clamped_position(
                            proposed0,
                            neighbor_tile(level, tx as int, ty as int, i as int).rect,
                            self.move_dir,
                            self.half_size,
                        ));
                    }
                    match self.move_dir {
                        MoveDirection::UP => {
                            proposed.y = proposed_rect.top + proposed_rect.height
                                + self.half_size.y;
                        },
                        MoveDirection::DOWN => {
                            proposed.y = proposed_rect.top - self.half_size.y;
                        },
                        MoveDirection::LEFT => {
                            proposed.x = proposed_rect.left + proposed_rect.width
                                + self.half_size.x;
                        },
                        MoveDirection::RIGHT => {
                            proposed.x = proposed_rect.left - self.half_size.x;
                        },
                        MoveDirection::NONE => {},
                    }
                    return proposed;
                }
            }
            i = i + 1;
        }
        proof {
            lemma_scan_skip(
                level,
                tx as int,
                ty as int,
                curr_rect,
                proposed0,
                self.move_dir,
                self.half_size,
                8,
            );
        }
        proposed
    }

    /// The entity's full extent: twice the half size on each axis.
    pub fn get_size(&self) -> (r: Vector2i)
        requires
            i32::MIN <= 2 * self.half_size.x <= i32::MAX,
            i32::MIN <= 2 * self.half_size.y <= i32::MAX,
        ensures
            r.x == 2 * self.half_size.x,
            r.y == 2 * self.half_size.y,
    {
        Vector2i::new(2 * self.half_size.x, 2 * self.half_size.y)
    }

    /// Round both components of a position to a multiple of `num_round_to`,
    /// rounding up from half the granularity.
    pub fn round_movement(movement: Vector2i, num_round_to: i32) -> (r: Vector2i)
        requires
            1 <= num_round_to,
            i32::MIN + num_round_to <= movement.x <= i32::MAX - num_round_to,
            i32::MIN + num_round_to <= movement.y <= i32::MAX - num_round_to,
        ensures
            r.x == round_to_multiple(movement.x as int, num_round_to as int),
            r.y == round_to_multiple(movement.y as int, num_round_to as int),
    {
        Vector2i::new(
            Player::round_num_to(movement.x, num_round_to),
            Player::round_num_to(movement.y, num_round_to),
        )
    }

    /// Round one coordinate to a multiple of `round_to`.
    fn round_num_to(num: i32, round_to: i32) -> (r: i32)
        requires
            1 <= round_to,
            i32::MIN + round_to <= num <= i32::MAX - round_to,
        ensures
            r == round_to_multiple(num as int, round_to as int),
    {
        let remainder = num % round_to;
        if remainder >= round_to / 2 {
            num - remainder + round_to
        } else {
            num - remainder
        }
    }

    /// Update the display rotation from the movement direction; no
    /// direction leaves the rotation unchanged.
    pub fn update_rotation(&mut self)
        ensures
            final(self).rotation == rotation_for(old(self).move_dir, old(self).rotation),
            final(self).position == old(self).position,
            final(self).half_size == old(self).half_size,
            final(self).move_speed == old(self).move_speed,
            final(self).initial_dir == old(self).initial_dir,
            final(self).move_dir == old(self).move_dir,
    {
        match self.move_dir {
            MoveDirection::UP => self.rotation = 270,
            MoveDirection::DOWN => self.rotation = 90,
            MoveDirection::LEFT => self.rotation = 180,
            MoveDirection::RIGHT => self.rotation = 0,
            MoveDirection::NONE => {},
        }
    }
}

} // verus!

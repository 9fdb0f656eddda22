use vstd::prelude::*;

use crate::game_time::GameTime;
use crate::units::{MS, Rect};

verus! {

/// Default delay between animation frame advances, in milliseconds.
pub const DEFAULT_FRAME_DELAY: MS = 100;

/// The ping-pong frame index for a counter value: the counter, wrapped to
/// twice the amplitude `length`, runs forward through `0..length` and then
/// back down, so the index oscillates instead of jumping to the start.
pub open spec fn ping_pong_index(value: int, length: int) -> int {
    let double_length = 2 * length;
    let wrapped_value = value % double_length;
    if 0 <= wrapped_value < length {
        wrapped_value
    } else {
        double_length - wrapped_value
    }
}

/// A time-driven ping-pong frame cycler over a fixed list of sprite
/// rectangles. `current_animation_frame` is the raw counter; the displayed
/// index oscillates through `0 ..= frames - 1`.
pub struct AnimationSprite {
    pub animation_frames: Vec<Rect>,
    pub current_animation_frame: usize,
    pub displayed_frame: usize,
    pub frame_delay: MS,
    pub last_time_animation_changed: MS,
    pub looping: bool,
}

impl AnimationSprite {
    /// Well-formedness: at least one frame, the counter within its
    /// `4 * frames` headroom (which also keeps it inside `i32`), and the
    /// displayed index in range.
    pub open spec fn wf(&self) -> bool {
        &&& 1 <= self.animation_frames@.len()
        &&& 4 * self.animation_frames@.len() <= i32::MAX
        &&& self.current_animation_frame < 4 * self.animation_frames@.len()
        &&& self.displayed_frame < self.animation_frames@.len()
        &&& 0 <= self.frame_delay
        &&& 0 <= self.last_time_animation_changed
    }

    /// A new looping animation over `frames`, displaying the first frame,
    /// with the default frame delay.
    pub fn new(frames: Vec<Rect>) -> (r: AnimationSprite)
        requires
            1 <= frames@.len(),
            4 * frames@.len() <= i32::MAX,
        ensures
            r == (AnimationSprite {
                animation_frames: frames,
                current_animation_frame: 0,
                displayed_frame: 0,
                frame_delay: DEFAULT_FRAME_DELAY,
                last_time_animation_changed: 0,
                looping: true,
            }),
            r.wf(),
    {
        AnimationSprite {
            animation_frames: frames,
            current_animation_frame: 0,
            displayed_frame: 0,
            frame_delay: DEFAULT_FRAME_DELAY,
            last_time_animation_changed: 0,
            looping: true,
        }
    }

    /// Resume cycling; the counter and timestamp are kept.
    pub fn start_animation(&mut self)
        ensures
            *final(self) == (AnimationSprite { looping: true, ..*old(self) }),
    {
        self.looping = true
    }

    /// Stop cycling; the counter and timestamp are kept.
    pub fn stop_animation(&mut self)
        ensures
            *final(self) == (AnimationSprite { looping: false, ..*old(self) }),
    {
        self.looping = false;
    }

    /// Rewind the counter and the change timestamp; the displayed frame
    /// changes only on the next advancing update.
    pub fn reset_animation(&mut self)
        ensures
            *final(self) == (AnimationSprite {
                current_animation_frame: 0,
                last_time_animation_changed: 0,
                ..*old(self)
            }),
    {
        self.current_animation_frame = 0;
        self.last_time_animation_changed = 0;
    }

    /// One tick of the cycler: once the frame delay has passed, record the
    /// tick time; if the animation is looping, also advance the counter
    /// (modulo its `4 * frames` headroom) and display its ping-pong index.
    pub fn update(&mut self, game_time: &GameTime)
        requires
            old(self).wf(),
            0 <= game_time.start_frame_time,
            old(self).last_time_animation_changed + old(self).frame_delay <= i32::MAX,
            game_time.start_frame_time > old(self).last_time_animation_changed + old(
                self,
            ).frame_delay && old(self).looping ==> 2 <= old(self).animation_frames@.len(),
        ensures
            final(self).wf(),
            final(self).animation_frames == old(self).animation_frames,
            final(self).frame_delay == old(self).frame_delay,
            final(self).looping == old(self).looping,
            ({
                let fires = game_time.start_frame_time > old(self).last_time_animation_changed
                    + old(self).frame_delay;
                let advances = fires && old(self).looping;
                &&& final(self).last_time_animation_changed == (if fires {
                    game_time.start_frame_time
                } else {
                    old(self).last_time_animation_changed
                })
                &&& final(self).current_animation_frame == (if advances {
                    (old(self).current_animation_frame + 1) % (4 * old(
                        self,
                    ).animation_frames@.len() as int)
                } else {
                    old(self).current_animation_frame as int
                })
                &&& final(self).displayed_frame == (if advances {
                    ping_pong_index(
                        final(self).current_animation_frame as int,
                        old(self).animation_frames@.len() - 1,
                    )
                } else {
                    old(self).displayed_frame as int
                })
            }),
    {
        if game_time.start_frame_time > self.last_time_animation_changed + self.frame_delay {
            if self.looping {
                self.current_animation_frame = (self.current_animation_frame + 1) % (
                self.animation_frames.len() * 4);
                let animation_index = AnimationSprite::ping_pong(
                    self.current_animation_frame as i32,
                    (self.animation_frames.len() - 1) as i32,
                );
                self.displayed_frame = animation_index as usize;
            }
            self.last_time_animation_changed = game_time.start_frame_time;
        }
    }

    /// The sprite rectangle currently displayed.
    pub fn current_frame_rect(&self) -> (r: Rect)
        requires
            self.wf(),
        ensures
            r == self.animation_frames@[self.displayed_frame as int],
    {
        self.animation_frames[self.displayed_frame]
    }

    /// The ping-pong index of `value` over the amplitude `length`: the
    /// wrapped counter while it runs up, its mirror while it runs down;
    /// always within `0 ..= length`.
    pub fn ping_pong(value: i32, length: i32) -> (r: i32)
        requires
            0 <= value,
            1 <= length,
            2 * length <= i32::MAX,
        ensures
            r == ping_pong_index(value as int, length as int),
            0 <= r <= length,
    {
        let double_length = 2 * length;
        let wrapped_value = value % double_length;

        if 0 <= wrapped_value && wrapped_value < length && 0 <= length {
            return wrapped_value;
        } else {
            return double_length - wrapped_value;
        }
    }
}

} // verus!

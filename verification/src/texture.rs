//! The animated texture provider behind the buddy sprite: a basket of frame
//! textures cycled at a fixed cadence. Decoding the textures is the content
//! provider's business; the core only picks which frame is current.

use vstd::prelude::*;

verus! {

/// A texture handle together with its pixel dimensions.
#[derive(Clone, Copy, PartialEq, Eq, Structural, Debug)]
pub struct SizedTexture {
    pub tex: u32,
    pub width: i64,
    pub height: i64,
}

/// Upper bound on how long one frame may be shown, in milliseconds.
pub const MAX_FRAME_TIME: i64 = 0x4000_0000;

/// Upper bound on how many frames a basket may hold.
pub const MAX_FRAMES: i64 = 0x4000_0000;

/// Upper bound on one frame's time delta, in milliseconds.
pub const MAX_DT: i64 = 0x4000_0000_0000_0000;

/// A time-driven texture provider: frame `k` is shown during the `k`-th
/// `frame_time` slice of the animation clock, which wraps at the end of the
/// cycle so the animation loops forever.
#[derive(Clone, PartialEq, Debug)]
pub struct TextureBasket {
    /// The frames, in playback order; never empty.
    pub frames: Vec<SizedTexture>,
    /// How long each frame is shown, in milliseconds; always positive.
    pub frame_time: i64,
    /// The animation clock, kept within `[0, cycle)`.
    pub t: i64,
}

impl TextureBasket {
    /// Length of one full pass over the frames, in milliseconds.
    pub open spec fn cycle(self) -> int {
        self.frame_time * self.frames@.len()
    }

    pub open spec fn wf(self) -> bool {
        &&& 1 <= self.frame_time <= MAX_FRAME_TIME
        &&& 1 <= self.frames@.len() <= MAX_FRAMES
        &&& 0 <= self.t < self.cycle()
    }

    /// Index of the frame the clock currently selects.
    pub open spec fn frame_index(self) -> int {
        (self.t / self.frame_time) % (self.frames@.len() as int)
    }

    pub fn new(frames: Vec<SizedTexture>, frame_time: i64) -> (b: TextureBasket)
        requires
            1 <= frames@.len() <= MAX_FRAMES,
            1 <= frame_time <= MAX_FRAME_TIME,
        ensures
            b == (TextureBasket { frames, frame_time, t: 0 }),
            b.wf(),
    {
        proof {
            assert(frame_time * frames@.len() >= 1) by (nonlinear_arith)
                requires
                    1 <= frame_time,
                    1 <= frames@.len(),
            ;
        }
        TextureBasket { frames, frame_time, t: 0 }
    }

    /// Advances the animation clock by `dt`, wrapping at the cycle length.
    pub fn update(&mut self, dt: i64)
        requires
            old(self).wf(),
            0 <= dt <= MAX_DT,
        ensures
            *final(self) == basket_step(*old(self), dt as int),
            final(self).wf(),
    {
        let len = self.frames.len() as i64;
        proof {
            assert(1 <= self.frame_time * len <= 0x1000_0000_0000_0000i64) by (nonlinear_arith)
                requires
                    1 <= self.frame_time <= MAX_FRAME_TIME,
                    1 <= len <= MAX_FRAMES,
            ;
        }
        let cycle = self.frame_time * len;
        self.t = (self.t + dt) % cycle;
    }

    /// The texture to draw right now.
    pub fn texture(&self) -> (st: SizedTexture)
        requires
            self.wf(),
        ensures
            st == self.frames@[self.frame_index()],
    {
        let len = self.frames.len() as i64;
        let slot = self.t / self.frame_time;
        proof {
            assert(0 <= slot) by (nonlinear_arith)
                requires
                    0 <= self.t,
                    1 <= self.frame_time,
                    slot == self.t as int / self.frame_time as int,
            ;
        }
        let idx = slot % len;
        self.frames[idx as usize]
    }
}

/// The basket after one update: the clock moved forward by `dt` and wrapped.
pub open spec fn basket_step(b: TextureBasket, dt: int) -> TextureBasket {
    TextureBasket { t: (((b.t + dt) % b.cycle()) as i64), ..b }
}

} // verus!

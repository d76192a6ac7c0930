//! Model of one native window: its screen position, its size, and the
//! cooperative close flag. The windowing system owns the real handle and the
//! GL context; the scheduler keeps this model in step with it, so the close
//! flag never interrupts a frame — it only prevents scheduling the next one.

use vstd::prelude::*;
use crate::vec2::Vec2;

verus! {

/// One native window's state, as the core logic sees it.
#[derive(Clone, PartialEq, Debug)]
pub struct Window {
    /// Screen position of the window's top-left corner, in pixels.
    pub pos: Vec2,
    /// Width and height in pixels, never negative.
    pub size: Vec2,
    /// Title shown by the windowing system; the core never reads it.
    pub title: String,
    /// Cooperative shutdown signal: once true, the scheduler retires the
    /// owning context at the top of its next turn.
    pub close_requested: bool,
}

impl Window {
    /// Creates the model of a fresh window: positioned at the origin until
    /// someone moves it, and not asked to close.
    pub fn new(width: i64, height: i64, title: String) -> (w: Window)
        requires
            0 <= width,
            0 <= height,
        ensures
            w == (Window {
                pos: Vec2 { x: 0, y: 0 },
                size: Vec2 { x: width, y: height },
                title,
                close_requested: false,
            }),
    {
        Window { pos: Vec2 { x: 0, y: 0 }, size: Vec2 { x: width, y: height }, title, close_requested: false }
    }

    pub fn set_pos(&mut self, x: i64, y: i64)
        ensures
            *final(self) == (Window { pos: Vec2 { x, y }, ..*old(self) }),
    {
        self.pos = Vec2 { x, y };
    }

    pub fn get_pos(&self) -> (p: Vec2)
        ensures
            p == self.pos,
    {
        self.pos
    }

    pub fn should_close(&self) -> (r: bool)
        ensures
            r == self.close_requested,
    {
        self.close_requested
    }

    pub fn set_should_close(&mut self, v: bool)
        ensures
            *final(self) == (Window { close_requested: v, ..*old(self) }),
    {
        self.close_requested = v;
    }
}

} // verus!

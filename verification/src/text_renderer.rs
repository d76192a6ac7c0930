//! Model of the text renderer a dialog delegates to. The font layout engine
//! measures the text and owns the glyph resources; the core records the
//! measured extent, asks for one text draw per frame, and releases the
//! renderer exactly once when the dialog is cleaned up.

use vstd::prelude::*;
use crate::render::DrawCall;

verus! {

/// The state of one dialog's text renderer.
#[derive(Clone, PartialEq, Debug)]
pub struct TextRenderer {
    /// The text being shown.
    pub text: String,
    /// Name of the bitmap font the layout engine loaded.
    pub font: String,
    /// Extent of the draw area, in pixels; never negative.
    pub width: i64,
    pub height: i64,
    /// True once the renderer's resources have been released.
    pub cleaned: bool,
}

impl TextRenderer {
    pub fn new(text: String, font: String, width: i64, height: i64) -> (r: TextRenderer)
        requires
            0 <= width,
            0 <= height,
        ensures
            r == (TextRenderer { text, font, width, height, cleaned: false }),
    {
        TextRenderer { text, font, width, height, cleaned: false }
    }

    /// The one draw call a live renderer issues per frame.
    pub fn render(&self) -> (d: DrawCall)
        requires
            !self.cleaned,
        ensures
            d == (DrawCall::Text { width: self.width, height: self.height }),
    {
        DrawCall::Text { width: self.width, height: self.height }
    }

    /// Releases the renderer's resources; must run exactly once.
    pub fn clean_up(&mut self)
        requires
            !old(self).cleaned,
        ensures
            *final(self) == (TextRenderer { cleaned: true, ..*old(self) }),
    {
        self.cleaned = true;
    }
}

} // verus!

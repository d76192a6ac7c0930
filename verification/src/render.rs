//! Render plans: the drawing work a context decides on for one frame, handed
//! to the graphics layer to execute. A plan fixes the clear color, an optional
//! viewport, and the draw calls in the order they must be issued.

use vstd::prelude::*;
use crate::vec2::Vec2;

verus! {

/// A clear color with 8-bit channels (255 is full intensity or full opacity).
#[derive(Clone, Copy, PartialEq, Eq, Structural, Debug)]
pub struct ClearColor {
    pub red: u8,
    pub green: u8,
    pub blue: u8,
    pub alpha: u8,
}

/// Fully transparent black: the buddy window composites over the desktop.
pub open spec fn transparent_clear() -> ClearColor {
    ClearColor { red: 0, green: 0, blue: 0, alpha: 0 }
}

/// Opaque black: a dialog window is a solid chat bubble, not an overlay.
pub open spec fn opaque_black_clear() -> ClearColor {
    ClearColor { red: 0, green: 0, blue: 0, alpha: 255 }
}

/// One draw call, with every per-draw value the shaders need.
#[derive(Clone, Copy, PartialEq, Eq, Structural, Debug)]
pub enum DrawCall {
    /// The optional static background quad, drawn first.
    Background { shader: u32, texture: u32 },
    /// The animated body quad, drawn over the background. `sprite_size` is
    /// the configured output resolution, `resolution` the current viewport,
    /// and `time` the wall clock in milliseconds for shader-driven effects.
    Body { shader: u32, texture: u32, sprite_size: Vec2, resolution: Vec2, time: i64 },
    /// A text draw of the given extent, delegated to the text renderer.
    Text { width: i64, height: i64 },
}

/// Everything one context asks the graphics layer to do for one frame,
/// after the context's own GL context has been made current.
#[derive(Clone, PartialEq, Debug)]
pub struct RenderPlan {
    pub clear: ClearColor,
    /// The viewport to set before drawing, if the context resizes it.
    pub viewport: Option<Vec2>,
    /// Draw calls in issue order.
    pub draws: Vec<DrawCall>,
}

} // verus!

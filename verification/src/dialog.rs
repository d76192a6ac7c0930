//! Speech-bubble dialogs: transient windows sized around rendered text,
//! optionally anchored to a parent window. A dialog stores a fixed offset
//! from its parent's center at construction and re-derives its absolute
//! position from the parent's current position every frame, so it follows
//! the parent when the parent moves. A countdown timer closes the window
//! when it expires.

use vstd::prelude::*;
use vstd::string::StringExecFns;
use crate::render::{opaque_black_clear, ClearColor, DrawCall, RenderPlan};
use crate::text_renderer::TextRenderer;
use crate::vec2::{in_i64, Vec2};
use crate::window::Window;

verus! {

/// Padding added around the measured text on every side, in pixels.
pub const PADDING: i64 = 10;

/// Vertical gap left between stacked dialogs by `bump`, in pixels.
pub const BUMP_GAP: i64 = 10;

/// How long a dialog stays up when no duration is given, in milliseconds.
pub const DEFAULT_DURATION: i64 = 6000;

/// Upper bound on a measured text extent, in pixels.
pub const MAX_TEXT_DIM: i64 = 0x4000_0000;

/// A transient text window with an optional parent to follow and a countdown
/// that closes it.
pub struct Dialog {
    /// Renders the dialog's text.
    pub text: TextRenderer,
    /// The dialog this one is anchored to, owned outright: a dialog's parent
    /// is consumed into it, and a construction-ordered chain cannot cycle.
    pub parent: Option<Box<Dialog>>,
    /// Offset from the parent window's center, fixed at construction and
    /// shifted only by `bump`.
    pub parent_relative_pos: Vec2,
    /// Milliseconds left before the dialog closes itself. Every update
    /// subtracts the frame's delta, so past expiry the value carries the
    /// signed remainder below zero.
    pub timer: i64,
    /// The dialog's own window.
    pub window: Window,
    /// The window's size: the text extent plus padding on every side.
    pub window_size: Vec2,
}

/// The stored vertical offset after one `bump`: shifted up by the dialog's
/// own height plus the stacking gap.
pub open spec fn rel_after_bump(rel_y: int, height: int) -> int {
    rel_y - (height + BUMP_GAP)
}

/// One coordinate of a dialog's absolute position: the parent's position plus
/// the parent's half size plus the stored offset, centered on the dialog's
/// own half size.
pub open spec fn child_pos_coord(parent_pos: int, parent_size: int, rel: int, own_size: int) -> int {
    parent_pos + parent_size / 2 + rel - own_size / 2
}

impl Dialog {
    /// Structural soundness: sizes are nonnegative, and the parent chain is
    /// sound too.
    pub open spec fn wf(self) -> bool
        decreases self,
    {
        &&& 0 <= self.window_size.x
        &&& 0 <= self.window_size.y
        &&& 0 <= self.window.size.x
        &&& 0 <= self.window.size.y
        &&& match self.parent {
            None => true,
            Some(p) => (*p).wf(),
        }
    }

    /// True once `clean_up` has run: no further update or render may happen.
    pub open spec fn is_cleaned(self) -> bool {
        self.text.cleaned
    }

    /// The repositioned window coordinates fit a machine integer.
    pub open spec fn pos_update_fits(self) -> bool {
        match self.parent {
            None => true,
            Some(p) => {
                &&& in_i64(child_pos_coord(
                    (*p).window.pos.x as int,
                    (*p).window.size.x as int,
                    self.parent_relative_pos.x as int,
                    self.window_size.x as int,
                ))
                &&& in_i64(child_pos_coord(
                    (*p).window.pos.y as int,
                    (*p).window.size.y as int,
                    self.parent_relative_pos.y as int,
                    self.window_size.y as int,
                ))
            },
        }
    }
}

/// The dialog after `update_pos`: unchanged without a parent; otherwise its
/// window moved to the position derived from the parent's current position.
pub open spec fn repositioned(d: Dialog) -> Dialog {
    match d.parent {
        None => d,
        Some(p) => Dialog {
            window: Window {
                pos: Vec2 {
                    x: child_pos_coord(
                        (*p).window.pos.x as int,
                        (*p).window.size.x as int,
                        d.parent_relative_pos.x as int,
                        d.window_size.x as int,
                    ) as i64,
                    y: child_pos_coord(
                        (*p).window.pos.y as int,
                        (*p).window.size.y as int,
                        d.parent_relative_pos.y as int,
                        d.window_size.y as int,
                    ) as i64,
                },
                ..d.window
            },
            ..d
        },
    }
}

/// The dialog after one `bump`: the stored vertical offset shifted up.
pub open spec fn bumped(d: Dialog) -> Dialog {
    Dialog {
        parent_relative_pos: Vec2 {
            x: d.parent_relative_pos.x,
            y: rel_after_bump(d.parent_relative_pos.y as int, d.window_size.y as int) as i64,
        },
        ..d
    }
}

/// The dialog after one frame's `update`: the timer decremented by `dt`, the
/// close flag raised exactly when that brings it to or below zero, and the
/// window repositioned against the parent.
pub open spec fn dialog_step(d: Dialog, dt: int) -> Dialog {
    repositioned(Dialog {
        timer: (d.timer - dt) as i64,
        window: Window {
            close_requested: d.window.close_requested || d.timer <= dt,
            ..d.window
        },
        ..d
    })
}

/// What a dialog asks the graphics layer to draw: clear to opaque black (a
/// chat bubble is a solid window, not an overlay) and one text draw.
pub open spec fn dialog_plan_matches(plan: RenderPlan, d: Dialog) -> bool {
    &&& plan.clear == opaque_black_clear()
    &&& plan.viewport is None
    &&& plan.draws@ == seq![DrawCall::Text { width: d.text.width, height: d.text.height }]
}

/// `center - size / 2`: the coordinate that centers an extent of `size` on
/// `center`.
fn centered_coord(center: i64, size: i64) -> (r: i64)
    requires
        0 <= size,
        in_i64(center - size as int / 2),
    ensures
        r as int == center - size as int / 2,
{
    let half = ((size as u64) / 2) as i128;
    let t = (center as i128) - half;
    t as i64
}

/// One axis of `child_pos_coord`, computed without overflow.
fn child_coord(parent_pos: i64, parent_size: i64, rel: i64, own_size: i64) -> (r: i64)
    requires
        0 <= parent_size,
        0 <= own_size,
        in_i64(child_pos_coord(parent_pos as int, parent_size as int, rel as int, own_size as int)),
    ensures
        r as int == child_pos_coord(parent_pos as int, parent_size as int, rel as int, own_size as int),
{
    let half_parent = ((parent_size as u64) / 2) as i128;
    let half_own = ((own_size as u64) / 2) as i128;
    let t = (parent_pos as i128) + half_parent + (rel as i128) - half_own;
    t as i64
}

impl Dialog {
    /// Builds a dialog around text the font layout engine has measured as
    /// `text_width` by `text_height` pixels: the window is sized to the text
    /// plus padding, centered on `position`, and — when a parent is given —
    /// the offset from the parent window's center is fixed here, once.
    pub fn new(
        text: String,
        font: String,
        text_width: i64,
        text_height: i64,
        position: Vec2,
        duration: i64,
        parent: Option<Box<Dialog>>,
    ) -> (d: Dialog)
        requires
            0 <= text_width <= MAX_TEXT_DIM,
            0 <= text_height <= MAX_TEXT_DIM,
            0 <= duration,
            in_i64(position.x - (text_width + 2 * PADDING) / 2),
            in_i64(position.y - (text_height + 2 * PADDING) / 2),
            match parent {
                None => true,
                Some(p) => {
                    &&& (*p).wf()
                    &&& in_i64(position.x - (*p).window.size.x / 2)
                    &&& in_i64(position.y - (*p).window.size.y / 2)
                },
            },
        ensures
            d.window_size == (Vec2 {
                x: (text_width + 2 * PADDING) as i64,
                y: (text_height + 2 * PADDING) as i64,
            }),
            d.window.size == d.window_size,
            d.window.pos.x == position.x - d.window_size.x as int / 2,
            d.window.pos.y == position.y - d.window_size.y as int / 2,
            d.window.close_requested == false,
            d.timer == duration,
            d.text == (TextRenderer {
                text,
                font,
                width: d.window_size.x,
                height: d.window_size.y,
                cleaned: false,
            }),
            d.parent == parent,
            d.parent_relative_pos == (match parent {
                None => Vec2 { x: 0, y: 0 },
                Some(p) => Vec2 {
                    x: (position.x - (*p).window.size.x as int / 2) as i64,
                    y: (position.y - (*p).window.size.y as int / 2) as i64,
                },
            }),
            d.wf(),
            !d.is_cleaned(),
    {
        let wsx = text_width + 2 * PADDING;
        let wsy = text_height + 2 * PADDING;
        let window_size = Vec2 { x: wsx, y: wsy };

        let mut window = Window::new(wsx, wsy, title_string());
        let px = centered_coord(position.x, wsx);
        let py = centered_coord(position.y, wsy);
        window.set_pos(px, py);

        let renderer = TextRenderer::new(text, font, wsx, wsy);

        let parent_relative_pos = match &parent {
            None => Vec2 { x: 0, y: 0 },
            Some(p) => {
                let rx = centered_coord(position.x, p.window.size.x);
                let ry = centered_coord(position.y, p.window.size.y);
                Vec2 { x: rx, y: ry }
            },
        };

        Dialog {
            text: renderer,
            parent,
            parent_relative_pos,
            timer: duration,
            window,
            window_size,
        }
    }

    /// Re-derives the window's absolute position from the parent's current
    /// position; a no-op for a dialog with no parent.
    pub fn update_pos(&mut self)
        requires
            old(self).wf(),
            old(self).pos_update_fits(),
        ensures
            *final(self) == repositioned(*old(self)),
            final(self).wf(),
    {
        proof {
            reveal_with_fuel(Dialog::wf, 2);
        }
        match &self.parent {
            None => {},
            Some(p) => {
                let tx = child_coord(
                    p.window.pos.x,
                    p.window.size.x,
                    self.parent_relative_pos.x,
                    self.window_size.x,
                );
                let ty = child_coord(
                    p.window.pos.y,
                    p.window.size.y,
                    self.parent_relative_pos.y,
                    self.window_size.y,
                );
                self.window.set_pos(tx, ty);
            },
        }
    }

    /// What the dialog draws each frame; the graphics layer rebinds the
    /// dialog's own GL context before executing the plan.
    pub fn render(&self, _dt: i64) -> (plan: RenderPlan)
        requires
            !self.is_cleaned(),
        ensures
            dialog_plan_matches(plan, *self),
    {
        let mut draws: Vec<DrawCall> = Vec::new();
        draws.push(self.text.render());
        let plan = RenderPlan {
            clear: ClearColor { red: 0, green: 0, blue: 0, alpha: 255 },
            viewport: None,
            draws,
        };
        proof {
            assert(plan.draws@ =~= seq![DrawCall::Text { width: self.text.width, height: self.text.height }]);
        }
        plan
    }

    /// Shifts the stored offset up by the dialog's own height plus the gap,
    /// then repositions — stacks successive dialogs without overlap.
    pub fn bump(&mut self)
        requires
            old(self).wf(),
            in_i64(rel_after_bump(
                old(self).parent_relative_pos.y as int,
                old(self).window_size.y as int,
            )),
            bumped(*old(self)).pos_update_fits(),
        ensures
            *final(self) == repositioned(bumped(*old(self))),
            final(self).wf(),
    {
        let ny128 = (self.parent_relative_pos.y as i128)
            - ((self.window_size.y as i128) + (BUMP_GAP as i128));
        let ny = ny128 as i64;
        self.parent_relative_pos = Vec2 { x: self.parent_relative_pos.x, y: ny };
        self.update_pos();
    }

    /// One frame: decrement the timer, close the window when it has expired,
    /// reposition against the parent, and render — in that fixed order.
    pub fn update(&mut self, dt: i64) -> (plan: RenderPlan)
        requires
            old(self).wf(),
            !old(self).is_cleaned(),
            0 <= dt,
            i64::MIN <= old(self).timer - dt,
            old(self).pos_update_fits(),
        ensures
            *final(self) == dialog_step(*old(self), dt as int),
            final(self).timer == old(self).timer - dt,
            final(self).wf(),
            !final(self).is_cleaned(),
            dialog_plan_matches(plan, *old(self)),
    {
        self.timer = self.timer - dt;
        if self.timer <= 0 {
            self.window.set_should_close(true);
        }
        self.update_pos();
        self.render(dt)
    }

    /// Releases the text renderer's resources; must run exactly once, after
    /// which the scheduler never calls the dialog again.
    pub fn clean_up(&mut self)
        requires
            !old(self).is_cleaned(),
        ensures
            *final(self) == (Dialog {
                text: (TextRenderer { cleaned: true, ..old(self).text }),
                ..*old(self)
            }),
            final(self).is_cleaned(),
    {
        self.text.clean_up();
    }

    /// The cooperative shutdown signal of the dialog's own window.
    pub fn should_close(&self) -> (r: bool)
        ensures
            r == self.window.close_requested,
    {
        self.window.should_close()
    }

    /// The dialog's own window.
    pub fn get_window(&mut self) -> (w: &mut Window)
        ensures
            *w == old(self).window,
            *final(self) == (Dialog { window: *final(w), ..*old(self) }),
    {
        &mut self.window
    }

    /// Records that the windowing system moved the parent's window — the
    /// hook a driver uses to keep the model in step with a dragged window.
    pub fn set_parent_window_pos(&mut self, x: i64, y: i64)
        requires
            old(self).parent is Some,
        ensures
            *final(self) == parent_moved(*old(self), x, y),
            old(self).wf() ==> final(self).wf(),
    {
        match &mut self.parent {
            None => {},
            Some(p) => {
                p.window.set_pos(x, y);
            },
        }
        proof {
            if old(self).wf() {
                reveal_with_fuel(Dialog::wf, 3);
                assert(self.wf());
            }
        }
    }
}

/// The dialog with its parent's window moved to `(x, y)`.
pub open spec fn parent_moved(d: Dialog, x: i64, y: i64) -> Dialog {
    match d.parent {
        None => d,
        Some(p) => Dialog {
            parent: Some(Box::new(Dialog {
                window: Window { pos: Vec2 { x, y }, ..(*p).window },
                ..(*p)
            })),
            ..d
        },
    }
}

/// Total of a sequence of frame deltas.
pub open spec fn sum_of(dts: Seq<int>) -> int
    decreases dts.len(),
{
    if dts.len() == 0 {
        0
    } else {
        dts[0] + sum_of(dts.skip(1))
    }
}

/// Every delta in the sequence is nonnegative, as elapsed time is.
pub open spec fn all_nonneg(dts: Seq<int>) -> bool {
    forall|i: int| 0 <= i < dts.len() ==> dts[i] >= 0
}

/// The dialog after a whole sequence of updates, one `dialog_step` per delta.
pub open spec fn dialog_after(d: Dialog, dts: Seq<int>) -> Dialog
    decreases dts.len(),
{
    if dts.len() == 0 {
        d
    } else {
        dialog_after(dialog_step(d, dts[0]), dts.skip(1))
    }
}

pub proof fn lemma_sum_nonneg(dts: Seq<int>)
    requires
        all_nonneg(dts),
    ensures
        sum_of(dts) >= 0,
    decreases dts.len(),
{
    if dts.len() > 0 {
        assert(all_nonneg(dts.skip(1))) by {
            assert forall|i: int| 0 <= i < dts.skip(1).len() implies dts.skip(1)[i] >= 0 by {
                assert(dts.skip(1)[i] == dts[i + 1]);
            }
        }
        lemma_sum_nonneg(dts.skip(1));
    }
}

/// Once a dialog's window has asked to close, further updates never lower
/// the flag.
pub proof fn lemma_closed_stays(d: Dialog, dts: Seq<int>)
    requires
        d.window.close_requested,
    ensures
        dialog_after(d, dts).window.close_requested,
    decreases dts.len(),
{
    if dts.len() > 0 {
        lemma_closed_stays(dialog_step(d, dts[0]), dts.skip(1));
    }
}

/// A dialog with `timer` milliseconds left reports close after a sequence of
/// updates exactly when the deltas sum to at least the remaining time: the
/// flag stays down for every shorter total, and comes up — and stays up — as
/// soon as the total reaches it.
pub proof fn lemma_dialog_expiry(d: Dialog, dts: Seq<int>)
    requires
        !d.window.close_requested,
        all_nonneg(dts),
    ensures
        dialog_after(d, dts).window.close_requested <==> (dts.len() > 0 && sum_of(dts)
            >= d.timer),
    decreases dts.len(),
{
    if dts.len() > 0 {
        let d0 = dts[0];
        let d1 = dialog_step(d, d0);
        assert(all_nonneg(dts.skip(1))) by {
            assert forall|i: int| 0 <= i < dts.skip(1).len() implies dts.skip(1)[i] >= 0 by {
                assert(dts.skip(1)[i] == dts[i + 1]);
            }
        }
        lemma_sum_nonneg(dts.skip(1));
        if d.timer <= d0 {
            lemma_closed_stays(d1, dts.skip(1));
        } else {
            lemma_dialog_expiry(d1, dts.skip(1));
        }
    }
}

/// Moving a dialog's parent window by some vector and repositioning moves the
/// dialog by exactly that vector, on each axis: its position is linear in the
/// parent's.
pub proof fn lemma_child_follows_parent(
    parent_pos: int,
    parent_size: int,
    rel: int,
    own_size: int,
    v: int,
)
    ensures
        child_pos_coord(parent_pos + v, parent_size, rel, own_size) == child_pos_coord(
            parent_pos,
            parent_size,
            rel,
            own_size,
        ) + v,
{
}

/// Two bumps shift the stored vertical offset by exactly twice the dialog's
/// height plus the gap: the shift is a pure function of the prior offset.
pub proof fn lemma_double_bump(rel_y: int, height: int)
    ensures
        rel_after_bump(rel_after_bump(rel_y, height), height) == rel_y - 2 * (height
            + BUMP_GAP),
{
}

/// Title the windowing system shows on a dialog window.
fn title_string() -> (s: String)
    ensures
        s@ == "!!__FUNFRIEND__!! > CHATTER"@,
{
    String::from_str("!!__FUNFRIEND__!! > CHATTER")
}

} // verus!

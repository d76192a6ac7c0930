//! The single-threaded cooperative scheduler. It owns the active contexts —
//! window-owning entities such as the buddy and any dialogs — and drives one
//! pass per frame, in collection order: drain the context's input events,
//! honor the Escape hotkey, retire the context if its window asked to close
//! (cleaning it up exactly once), and otherwise update it and collect its
//! render plan. The loop around these passes, and the waiting between frames,
//! belong to the driver; the process ends only when every context has
//! independently decided to close, after which the configuration is persisted
//! exactly once.

use vstd::prelude::*;
use crate::buddy::{buddy_plan_matches, buddy_step, Buddy};
use crate::config::Config;
use crate::dialog::{dialog_plan_matches, dialog_step, Dialog};
use crate::input::{has_escape, wants_close, InputEvent};
use crate::render::RenderPlan;
use crate::texture::MAX_DT;
use crate::vec2::Vec2;
use crate::window::Window;

verus! {

/// What the windowing system hands one context for one frame: the events
/// drained from its window's queue, the frame delta, the wall clock, and the
/// current framebuffer size.
pub struct FrameInput {
    pub events: Vec<InputEvent>,
    /// Time since this context's previous frame, in milliseconds.
    pub dt: i64,
    /// Wall clock in milliseconds, for shader-driven effects.
    pub time: i64,
    /// Current framebuffer size in pixels.
    pub viewport: Vec2,
}

/// The buddy together with the window it renders into.
pub struct BuddyContext {
    pub buddy: Buddy,
    pub window: Window,
}

impl BuddyContext {
    pub fn new(buddy: Buddy, window: Window) -> (c: BuddyContext)
        ensures
            c == (BuddyContext { buddy, window }),
    {
        BuddyContext { buddy, window }
    }
}

/// An active window-owning entity the scheduler drives each frame.
pub enum Context {
    Buddy(BuddyContext),
    Dialog(Dialog),
}

impl Context {
    pub open spec fn wf(self) -> bool {
        match self {
            Context::Buddy(bc) => bc.buddy.wf(),
            Context::Dialog(d) => d.wf(),
        }
    }

    /// True once the context was cleaned up; it must never be called again.
    pub open spec fn is_cleaned(self) -> bool {
        match self {
            Context::Buddy(bc) => bc.buddy.released,
            Context::Dialog(d) => d.is_cleaned(),
        }
    }

    /// The context's window's cooperative close flag.
    pub open spec fn close_flag(self) -> bool {
        match self {
            Context::Buddy(bc) => bc.window.close_requested,
            Context::Dialog(d) => d.window.close_requested,
        }
    }

    /// Whether one update with delta `dt` stays within machine limits.
    pub open spec fn can_update(self, dt: int) -> bool {
        &&& 0 <= dt
        &&& match self {
            Context::Buddy(_) => dt <= MAX_DT,
            Context::Dialog(d) => d.pos_update_fits() && i64::MIN <= d.timer - dt,
        }
    }

    pub fn should_close(&self) -> (r: bool)
        ensures
            r == self.close_flag(),
    {
        match self {
            Context::Buddy(bc) => bc.window.should_close(),
            Context::Dialog(d) => d.should_close(),
        }
    }

    pub fn set_should_close(&mut self, v: bool)
        ensures
            *final(self) == with_close_flag(*old(self), v),
    {
        match self {
            Context::Buddy(bc) => bc.window.set_should_close(v),
            Context::Dialog(d) => {
                let w = d.get_window();
                w.set_should_close(v);
            },
        }
    }

    /// One frame of this context: the dialog runs its timer/reposition/render
    /// cycle; the buddy advances its animation and plans its draws.
    pub fn update(&mut self, dt: i64, time: i64, viewport: Vec2) -> (plan: RenderPlan)
        requires
            old(self).wf(),
            !old(self).is_cleaned(),
            old(self).can_update(dt as int),
        ensures
            *final(self) == ctx_step(*old(self), dt as int),
            final(self).wf(),
            !final(self).is_cleaned(),
            plan_matches(plan, *old(self), dt as int, time, viewport),
    {
        match self {
            Context::Buddy(bc) => bc.buddy.render(dt, viewport.x, viewport.y, time),
            Context::Dialog(d) => d.update(dt),
        }
    }

    /// Retires the context's resources; must run exactly once, at the moment
    /// the scheduler removes the context from the active set.
    pub fn clean_up(&mut self)
        requires
            !old(self).is_cleaned(),
        ensures
            *final(self) == cleaned_of(*old(self)),
            final(self).is_cleaned(),
    {
        match self {
            Context::Buddy(bc) => bc.buddy.clean_up(),
            Context::Dialog(d) => d.clean_up(),
        }
    }

    /// The context's window.
    pub fn get_window(&mut self) -> (w: &mut Window)
        ensures
            *w == old(self).window_of(),
            *final(self) == with_window(*old(self), *final(w)),
    {
        match self {
            Context::Buddy(bc) => &mut bc.window,
            Context::Dialog(d) => d.get_window(),
        }
    }

    /// The context's window, as a value.
    pub open spec fn window_of(self) -> Window {
        match self {
            Context::Buddy(bc) => bc.window,
            Context::Dialog(d) => d.window,
        }
    }
}

/// The context with its window's close flag set to `v`.
pub open spec fn with_close_flag(c: Context, v: bool) -> Context {
    match c {
        Context::Buddy(bc) => Context::Buddy(BuddyContext {
            window: Window { close_requested: v, ..bc.window },
            ..bc
        }),
        Context::Dialog(d) => Context::Dialog(Dialog {
            window: Window { close_requested: v, ..d.window },
            ..d
        }),
    }
}

/// The context with its window replaced.
pub open spec fn with_window(c: Context, w: Window) -> Context {
    match c {
        Context::Buddy(bc) => Context::Buddy(BuddyContext { window: w, ..bc }),
        Context::Dialog(d) => Context::Dialog(Dialog { window: w, ..d }),
    }
}

/// The context after clean-up.
pub open spec fn cleaned_of(c: Context) -> Context {
    match c {
        Context::Buddy(bc) => Context::Buddy(BuddyContext {
            buddy: Buddy { released: true, ..bc.buddy },
            ..bc
        }),
        Context::Dialog(d) => Context::Dialog(Dialog {
            text: crate::text_renderer::TextRenderer { cleaned: true, ..d.text },
            ..d
        }),
    }
}

/// The context after one update with delta `dt`.
pub open spec fn ctx_step(c: Context, dt: int) -> Context {
    match c {
        Context::Buddy(bc) => Context::Buddy(BuddyContext { buddy: buddy_step(bc.buddy, dt), ..bc }),
        Context::Dialog(d) => Context::Dialog(dialog_step(d, dt)),
    }
}

/// What the context's render plan for this frame must say.
pub open spec fn plan_matches(plan: RenderPlan, c: Context, dt: int, time: i64, viewport: Vec2) -> bool {
    match c {
        Context::Buddy(bc) => buddy_plan_matches(plan, buddy_step(bc.buddy, dt), viewport, time),
        Context::Dialog(d) => dialog_plan_matches(plan, d),
    }
}

/// True when this frame retires the context: its window already asked to
/// close, or this frame's events hold the Escape hotkey, which raises the
/// flag before the close check of the same pass.
pub open spec fn closes(c: Context, inp: FrameInput) -> bool {
    c.close_flag() || has_escape(inp.events@)
}

/// Whether the pass may process the context: a context that is retired needs
/// nothing; one that survives must be updatable within machine limits.
pub open spec fn can_process(c: Context, inp: FrameInput) -> bool {
    closes(c, inp) || c.can_update(inp.dt as int)
}

/// The positions (into the pre-pass collection) of the contexts that survive
/// the pass, in their original relative order.
pub open spec fn survivor_indices(cs: Seq<Context>, ins: Seq<FrameInput>) -> Seq<int>
    decreases cs.len(),
{
    if cs.len() == 0 {
        Seq::empty()
    } else {
        let prev = survivor_indices(cs.drop_last(), ins.drop_last());
        if closes(cs.last(), ins[cs.len() - 1]) {
            prev
        } else {
            prev.push(cs.len() - 1)
        }
    }
}

/// Every survivor of a pass is a context that did not report close: the
/// scheduler updates and renders only contexts whose close flag stayed down,
/// and the survivors keep their original relative order.
pub proof fn lemma_survivors_not_closing(cs: Seq<Context>, ins: Seq<FrameInput>)
    requires
        cs.len() == ins.len(),
    ensures
        forall|j: int| #![trigger survivor_indices(cs, ins)[j]]
            0 <= j < survivor_indices(cs, ins).len() ==> 0 <= survivor_indices(cs, ins)[j]
                < cs.len() && !closes(
                cs[survivor_indices(cs, ins)[j]],
                ins[survivor_indices(cs, ins)[j]],
            ),
        forall|j: int, l: int|
            #![trigger survivor_indices(cs, ins)[j], survivor_indices(cs, ins)[l]]
            0 <= j < l < survivor_indices(cs, ins).len() ==> survivor_indices(cs, ins)[j]
                < survivor_indices(cs, ins)[l],
    decreases cs.len(),
{
    if cs.len() > 0 {
        lemma_survivors_not_closing(cs.drop_last(), ins.drop_last());
        let prev = survivor_indices(cs.drop_last(), ins.drop_last());
        assert forall|j: int| 0 <= j < prev.len() implies 0 <= prev[j] < cs.len() - 1 && !closes(
            cs[prev[j]],
            ins[prev[j]],
        ) by {
            assert(cs.drop_last()[prev[j]] == cs[prev[j]]);
            assert(ins.drop_last()[prev[j]] == ins[prev[j]]);
        }
    }
}

/// A context that reports close at the top of a pass — its window flagged, or
/// Escape in its drained events — is absent from that pass's survivors: it
/// received its clean-up and is never updated or rendered again.
pub proof fn lemma_closed_context_retired(cs: Seq<Context>, ins: Seq<FrameInput>, i: int)
    requires
        cs.len() == ins.len(),
        0 <= i < cs.len(),
        closes(cs[i], ins[i]),
    ensures
        !survivor_indices(cs, ins).contains(i),
{
    lemma_survivors_not_closing(cs, ins);
    if survivor_indices(cs, ins).contains(i) {
        let j = choose|j: int|
            0 <= j < survivor_indices(cs, ins).len() && survivor_indices(cs, ins)[j] == i;
        assert(!closes(cs[survivor_indices(cs, ins)[j]], ins[survivor_indices(cs, ins)[j]]));
    }
}

/// What one scheduler pass guarantees: the survivors are exactly the contexts
/// that did not close, stepped once each, in their original relative order,
/// with one render plan per survivor.
pub open spec fn frame_result(
    pre: Seq<Context>,
    ins: Seq<FrameInput>,
    post: Seq<Context>,
    plans: Seq<RenderPlan>,
) -> bool {
    &&& post.len() == survivor_indices(pre, ins).len()
    &&& plans.len() == survivor_indices(pre, ins).len()
    &&& forall|j: int| #![trigger survivor_indices(pre, ins)[j]]
        0 <= j < survivor_indices(pre, ins).len() ==> {
            let i = survivor_indices(pre, ins)[j];
            &&& post[j] == ctx_step(pre[i], ins[i].dt as int)
            &&& plan_matches(plans[j], pre[i], ins[i].dt as int, ins[i].time, ins[i].viewport)
        }
}

/// The application: the active contexts, the configuration loaded at startup,
/// and whether that configuration was already persisted at shutdown.
pub struct Funfriend {
    pub contexts: Vec<Context>,
    pub config: Config,
    pub config_persisted: bool,
}

impl Funfriend {
    /// Every active context is sound and not yet cleaned up: a context that
    /// reports close receives clean-up exactly once and leaves the set, so a
    /// cleaned context never sits in it.
    pub open spec fn wf(self) -> bool {
        forall|i: int| 0 <= i < self.contexts@.len() ==>
            (#[trigger] self.contexts@[i]).wf() && !self.contexts@[i].is_cleaned()
    }

    pub fn new(config: Config) -> (app: Funfriend)
        ensures
            app.contexts@.len() == 0,
            app.config == config,
            app.config_persisted == false,
            app.wf(),
    {
        Funfriend { contexts: Vec::new(), config, config_persisted: false }
    }

    /// Adds a context at the end of the active set; it is serviced after the
    /// existing ones.
    pub fn add_context(&mut self, context: Context)
        requires
            context.wf(),
            !context.is_cleaned(),
        ensures
            final(self).contexts@ == old(self).contexts@.push(context),
            final(self).config == old(self).config,
            final(self).config_persisted == old(self).config_persisted,
            old(self).wf() ==> final(self).wf(),
    {
        self.contexts.push(context);
    }

    /// The active contexts, in service order.
    pub fn contexts(&self) -> (r: &Vec<Context>)
        ensures
            r == &self.contexts,
    {
        &self.contexts
    }

    /// True when every window has independently decided to close and the
    /// outer loop must stop.
    pub fn is_done(&self) -> (r: bool)
        ensures
            r == (self.contexts@.len() == 0),
    {
        self.contexts.len() == 0
    }

    /// Records the one shutdown pass: the loop has ended and the driver is
    /// about to persist the configuration — exactly once.
    pub fn shutdown(&mut self)
        requires
            old(self).contexts@.len() == 0,
            !old(self).config_persisted,
        ensures
            *final(self) == (Funfriend { config_persisted: true, ..*old(self) }),
    {
        self.config_persisted = true;
    }

    /// One pass over the active contexts, in collection order. For each
    /// context: scan its drained events for Escape and raise its close flag
    /// if found; if the flag is up, clean the context up — exactly once — and
    /// retire it; otherwise update it and collect its render plan. Survivors
    /// keep their relative order. A context retired here is never serviced
    /// again: it is gone from the set every later pass works on.
    pub fn run_frame(&mut self, inputs: Vec<FrameInput>) -> (plans: Vec<RenderPlan>)
        requires
            old(self).wf(),
            inputs@.len() == old(self).contexts@.len(),
            forall|i: int| 0 <= i < old(self).contexts@.len() ==>
                can_process(#[trigger] old(self).contexts@[i], inputs@[i]),
        ensures
            final(self).wf(),
            final(self).config == old(self).config,
            final(self).config_persisted == old(self).config_persisted,
            frame_result(old(self).contexts@, inputs@, final(self).contexts@, plans@),
    {
        let ghost orig = self.contexts@;
        let ghost insg = inputs@;
        let ghost cfg = self.config;
        let ghost persisted = self.config_persisted;
        let mut ins = inputs;
        let mut survivors: Vec<Context> = Vec::new();
        let mut plans: Vec<RenderPlan> = Vec::new();
        let n = self.contexts.len();
        let mut k: usize = 0;
        while k < n
            invariant
                k <= n,
                n == orig.len(),
                insg.len() == orig.len(),
                self.contexts@ == orig.skip(k as int),
                ins@ == insg.skip(k as int),
                self.config == cfg,
                self.config_persisted == persisted,
                forall|i: int| 0 <= i < orig.len() ==>
                    (#[trigger] orig[i]).wf() && !orig[i].is_cleaned(),
                forall|i: int| 0 <= i < orig.len() ==> can_process(#[trigger] orig[i], insg[i]),
                survivors@.len() == survivor_indices(orig.take(k as int), insg.take(k as int)).len(),
                plans@.len() == survivors@.len(),
                forall|j: int| #![trigger survivors@[j]] 0 <= j < survivors@.len() ==> ({
                    let idx = survivor_indices(orig.take(k as int), insg.take(k as int));
                    &&& 0 <= idx[j] < orig.len()
                    &&& survivors@[j] == ctx_step(orig[idx[j]], insg[idx[j]].dt as int)
                    &&& survivors@[j].wf()
                    &&& !survivors@[j].is_cleaned()
                    &&& plan_matches(plans@[j], orig[idx[j]], insg[idx[j]].dt as int,
                        insg[idx[j]].time, insg[idx[j]].viewport)
                }),
            decreases n - k,
        {
            proof {
                assert(orig.skip(k as int).len() > 0);
                assert(orig.skip(k as int)[0] == orig[k as int]);
                assert(insg.skip(k as int)[0] == insg[k as int]);
            }
            let mut c = self.contexts.remove(0);
            let input = ins.remove(0);
            proof {
                assert(self.contexts@ =~= orig.skip(k as int + 1));
                assert(ins@ =~= insg.skip(k as int + 1));
            }
            let esc = wants_close(&input.events);
            if esc {
                c.set_should_close(true);
            }
            let ghost idx_next = survivor_indices(orig.take(k as int + 1), insg.take(k as int + 1));
            proof {
                assert(orig.take(k as int + 1).drop_last() =~= orig.take(k as int));
                assert(insg.take(k as int + 1).drop_last() =~= insg.take(k as int));
                assert(orig.take(k as int + 1).last() == orig[k as int]);
                assert(insg.take(k as int + 1)[k as int] == insg[k as int]);
            }
            if c.should_close() {
                c.clean_up();
                proof {
                    assert(closes(orig[k as int], insg[k as int]));
                    assert(idx_next =~= survivor_indices(orig.take(k as int), insg.take(k as int)));
                }
            } else {
                proof {
                    assert(!closes(orig[k as int], insg[k as int]));
                    assert(c == orig[k as int]);
                }
                let plan = c.update(input.dt, input.time, input.viewport);
                survivors.push(c);
                plans.push(plan);
                proof {
                    assert(idx_next =~= survivor_indices(orig.take(k as int), insg.take(k as int)).push(k as int));
                }
            }
            k = k + 1;
        }
        proof {
            assert(orig.take(n as int) =~= orig);
            assert(insg.take(n as int) =~= insg);
            let idx = survivor_indices(orig, insg);
            assert forall|j: int| #![trigger survivor_indices(orig, insg)[j]]
                0 <= j < idx.len() implies {
                &&& 0 <= idx[j] < orig.len()
                &&& survivors@[j] == ctx_step(orig[idx[j]], insg[idx[j]].dt as int)
                &&& survivors@[j].wf()
                &&& !survivors@[j].is_cleaned()
                &&& plan_matches(plans@[j], orig[idx[j]], insg[idx[j]].dt as int,
                    insg[idx[j]].time, insg[idx[j]].viewport)
            } by {
                assert(survivors@[j] == survivors@[j]);
            }
            assert(frame_result(orig, insg, survivors@, plans@));
        }
        self.contexts = survivors;
        plans
    }
}

} // verus!

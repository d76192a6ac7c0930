//! The buddy render component: owns the GL object handles (two shader
//! programs, a vertex array and a vertex buffer for the textured quad), an
//! animated texture basket for the body and an optional static background.
//! Each frame it advances the animation and plans the draws: the background
//! quad first when present, then the body quad blended over it.

use vstd::prelude::*;
use crate::config::Config;
use crate::render::{transparent_clear, ClearColor, DrawCall, RenderPlan};
use crate::texture::{basket_step, SizedTexture, TextureBasket, MAX_DT};
use crate::vec2::Vec2;

verus! {

/// The buddy sprite's render state.
pub struct Buddy {
    /// Shader program for the animated body quad.
    pub body_shader: u32,
    /// Shader program for the optional background quad.
    pub bg_shader: u32,
    /// Vertex array object of the shared textured quad.
    pub vertex_array: u32,
    /// Vertex buffer object of the shared textured quad.
    pub vertex_buffer: u32,
    /// The animated, time-driven texture provider for the body.
    pub body: TextureBasket,
    /// A static background texture, drawn under the body when present.
    pub background: Option<SizedTexture>,
    /// Output resolution, fixed at construction from configuration and sent
    /// to the body shader every frame.
    pub resolution: Vec2,
    /// True once `clean_up` released the GL objects; no further render.
    pub released: bool,
}

/// The buddy after one frame: only the animation clock moved.
pub open spec fn buddy_step(b: Buddy, dt: int) -> Buddy {
    Buddy { body: basket_step(b.body, dt), ..b }
}

/// The draw calls one frame issues, in order: the background quad when there
/// is one, then the body quad with its per-draw shader uniforms.
pub open spec fn buddy_draws(b: Buddy, viewport: Vec2, time: i64) -> Seq<DrawCall> {
    let body_draw = DrawCall::Body {
        shader: b.body_shader,
        texture: b.body.frames@[b.body.frame_index()].tex,
        sprite_size: b.resolution,
        resolution: viewport,
        time,
    };
    match b.background {
        None => seq![body_draw],
        Some(bg) => seq![
            DrawCall::Background { shader: b.bg_shader, texture: bg.tex },
            body_draw,
        ],
    }
}

/// What a frame's plan must say, given the buddy state after the animation
/// advanced: clear to transparent black, set the viewport, draw in order.
pub open spec fn buddy_plan_matches(plan: RenderPlan, b: Buddy, viewport: Vec2, time: i64) -> bool {
    &&& plan.clear == transparent_clear()
    &&& plan.viewport == Some(viewport)
    &&& plan.draws@ == buddy_draws(b, viewport, time)
}

impl Buddy {
    pub open spec fn wf(self) -> bool {
        self.body.wf()
    }

    /// Assembles the component from the GL objects the graphics layer
    /// compiled and allocated, and the textures the content source provides.
    /// The output resolution comes from configuration, once.
    pub fn new(
        config: &Config,
        body: TextureBasket,
        background: Option<SizedTexture>,
        body_shader: u32,
        bg_shader: u32,
        vertex_array: u32,
        vertex_buffer: u32,
    ) -> (b: Buddy)
        requires
            body.wf(),
        ensures
            b == (Buddy {
                body_shader,
                bg_shader,
                vertex_array,
                vertex_buffer,
                body,
                background,
                resolution: config.window_size,
                released: false,
            }),
            b.wf(),
    {
        Buddy {
            body_shader,
            bg_shader,
            vertex_array,
            vertex_buffer,
            body,
            background,
            resolution: config.window_size,
            released: false,
        }
    }

    /// The configured output resolution, the body shader's sprite size.
    pub fn funfriend_size(&self) -> (s: (i64, i64))
        ensures
            s.0 == self.resolution.x,
            s.1 == self.resolution.y,
    {
        (self.resolution.x, self.resolution.y)
    }

    /// One frame: advance the animation by `dt`, then plan the draws for a
    /// viewport of `window_width` by `window_height` pixels at wall-clock
    /// `time` milliseconds.
    pub fn render(&mut self, dt: i64, window_width: i64, window_height: i64, time: i64) -> (plan: RenderPlan)
        requires
            old(self).wf(),
            !old(self).released,
            0 <= dt <= MAX_DT,
        ensures
            *final(self) == buddy_step(*old(self), dt as int),
            final(self).wf(),
            !final(self).released,
            buddy_plan_matches(plan, *final(self), Vec2 { x: window_width, y: window_height }, time),
    {
        self.body.update(dt);
        let frame = self.body.texture();

        let mut draws: Vec<DrawCall> = Vec::new();
        match &self.background {
            None => {},
            Some(bg) => {
                draws.push(DrawCall::Background { shader: self.bg_shader, texture: bg.tex });
            },
        }
        let viewport = Vec2 { x: window_width, y: window_height };
        draws.push(DrawCall::Body {
            shader: self.body_shader,
            texture: frame.tex,
            sprite_size: self.resolution,
            resolution: viewport,
            time,
        });
        let plan = RenderPlan {
            clear: ClearColor { red: 0, green: 0, blue: 0, alpha: 0 },
            viewport: Some(viewport),
            draws,
        };
        proof {
            assert(plan.draws@ =~= buddy_draws(*self, viewport, time));
        }
        plan
    }

    /// Releases the vertex array, the vertex buffer and both shader programs
    /// together; must run exactly once, after which the scheduler never calls
    /// the buddy again.
    pub fn clean_up(&mut self)
        requires
            !old(self).released,
        ensures
            *final(self) == (Buddy { released: true, ..*old(self) }),
    {
        self.released = true;
    }
}

} // verus!

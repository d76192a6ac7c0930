//! Core of a desktop "virtual pet" overlay: a single-threaded cooperative
//! scheduler drives a set of window-owning contexts (an animated buddy sprite
//! and transient speech-bubble dialogs). Each frame the scheduler drains a
//! context's input events, retires contexts whose windows asked to close, and
//! updates the survivors, which reposition themselves and produce a render
//! plan for the graphics layer to execute.
//!
//! Positions and sizes are whole pixels; time is counted in milliseconds.
//! The windowing system and OpenGL live outside this crate: they hand plain
//! values (events, frame deltas, framebuffer sizes) in and take render plans
//! and window states back out.

pub mod buddy;
pub mod config;
pub mod dialog;
pub mod scheduler;
pub mod input;
pub mod render;
pub mod text_renderer;
pub mod texture;
pub mod vec2;
pub mod window;

//! The configuration value loaded once before the loop starts and persisted
//! once after it ends. Reading and writing the file is the driver's business;
//! the core passes the value into the constructors that need it.

use vstd::prelude::*;
use crate::vec2::Vec2;

verus! {

/// Startup configuration, treated as an opaque value by the loop itself.
#[derive(Clone, PartialEq, Debug)]
pub struct Config {
    /// Default window size; the buddy's output resolution.
    pub window_size: Vec2,
    /// Which buddy variant to show.
    pub buddy_type: String,
}

impl Config {
    pub fn new(window_size: Vec2, buddy_type: String) -> (c: Config)
        ensures
            c == (Config { window_size, buddy_type }),
    {
        Config { window_size, buddy_type }
    }
}

} // verus!

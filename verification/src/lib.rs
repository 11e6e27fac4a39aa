//! Verified core of a small 2D rendering engine: frame assembly, the
//! fixed-timestep clock and the plain data types shared with the platform
//! layer.

pub mod clock;
pub mod components;
pub mod events;
pub mod input;
pub mod mesh;
pub mod scene;
pub mod shape;
pub mod stats;

pub use clock::SimulationClock;
pub use mesh::Mesh;
pub use scene::Scene;

use vstd::prelude::*;

verus! {

/// How a window takes over the screen.
#[derive(Debug)]
pub enum Fullscreen {
    Exclusive,
    Borderless,
}

impl Default for Fullscreen {
    fn default() -> (mode: Self)
        ensures
            mode is Borderless,
    {
        Fullscreen::Borderless
    }
}

} // verus!

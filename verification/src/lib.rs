//! Core logic of a GPU-driven 2D cellular automaton: the double-buffered
//! state store, compute-dispatch geometry, lattice seeding, and the
//! frame-sequencing decisions, all verified. The unverified shell that owns
//! the actual device, surface and window drives this core and executes the
//! command plans it produces.

pub mod dispatch;
pub mod render;
pub mod seed;
pub mod swapper;

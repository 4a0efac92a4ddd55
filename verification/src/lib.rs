//! Game logic of a small terrain flying game: the landscape noise lattice,
//! the ground map layout, keyboard controls, screens and scoring, flight
//! plans of the enemy planes, and the lifetimes of bullets, pickups and
//! explosion fragments. Rendering and window handling live outside this crate.

pub mod generate_landscape;
pub mod ground_map;
pub mod runtime;
pub mod player;
pub mod randomness;
pub mod plane;
pub mod bullet;
pub mod pickup;
pub mod special_effects;
pub mod gl_helper;

use std::time::Instant;
use vstd::prelude::*;

verus! {

/// The monotonic clock reading of `std`; opaque here.
#[verifier::external_type_specification]
#[verifier::external_body]
pub struct ExInstant(Instant);

/// Calls `std::time::Instant::now`, which reads the monotonic clock. Nothing
/// is claimed of the reading.
#[verifier::external_body]
fn instant_now() -> Instant {
    Instant::now()
}

/// The moment a timed piece of work starts.
pub fn get_start_time() -> Instant {
    let start = instant_now();
    return start;
}

} // verus!

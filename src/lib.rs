//! Per-bone collision proxies of a skinned character: which scene nodes
//! compose into each bone's transform, when the proxies are created, which
//! proxies each frame poses, which bone a collider hit belongs to, and the
//! debug display of the proxies.
use vstd::prelude::*;

pub mod character;
pub mod ids;
pub mod laws;
pub mod skeleton;

verus! {

} // verus!

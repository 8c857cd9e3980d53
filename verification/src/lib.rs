//! Render-integration layer for an immediate-mode GUI drawn inside a foreign
//! Direct3D 11 present loop.
//!
//! The layer translates raw window messages into semantic input events,
//! converts tessellated draw lists into GPU-ready geometry, manages texture
//! resources addressed by opaque identifiers, snapshots and restores every
//! piece of pipeline state it touches, and tracks the swap-chain's back
//! buffer across resizes.
//!
//! All decisions are made here over plain values; the embedding application
//! performs the actual GPU and OS calls that the plans produced here call
//! for.

pub mod app;
pub mod backup;
pub mod input;
pub mod mesh;
pub mod render_target;
pub mod shader;
pub mod texture;

use vstd::prelude::*;

verus! {

} // verus!

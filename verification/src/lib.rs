//! A procedural animation and hit-testing library.
//!
//! The library covers the one pattern that click-driven demo scenes repeat:
//! a ray/sphere picker resolves a click to a target, a director activates the
//! timed animation curves bound to that target, and each frame every active
//! curve is advanced by the elapsed time and evaluated to a pose.
//!
//! All quantities are fixed-point numbers: an `i64` counts millionths of a
//! unit (seconds, world units, or radians), so every formula is exact integer
//! arithmetic and every result is pinned down by the contracts.
//!
//! The curve kinds are jiggle, flip, slide and orbit. A standing hover —
//! a plain sine of elapsed time with no start or end — is not a kind of its
//! own; a host that wants one composes it directly from [`trig::sin_fx`].

pub mod fx;
pub mod trig;
pub mod vec3;
pub mod picker;
pub mod trace;
pub mod curve;
pub mod director;

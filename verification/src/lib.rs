//! Verified core of the squarebob renderer: checked GPU layout arithmetic,
//! display-mode catalogues, hashing helpers, the path tracer's accumulation
//! and wavefront tiling decisions, and CPU-side bookkeeping.

pub mod accumulation;
pub mod cache;
pub mod defaults;
pub mod features;
pub mod frame;
pub mod gpu;
pub mod hashing;
pub mod layout;
pub mod library;
pub mod mapping;
pub mod materials;
pub mod modes;
pub mod pathguide;
pub mod picking;
pub mod sampling;
pub mod scan;
pub mod scene_cache;
mod stdext;
pub mod text;
pub mod uuids;
pub mod wavefront;

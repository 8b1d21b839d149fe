//! A terminal "digital rain" simulation: vertical trails of random glyphs fall
//! down a fixed viewport, fade through a three-tier colour gradient, spawn in
//! columns with enough vertical clearance, and are pruned once they have
//! scrolled fully past the bottom edge.
//!
//! The simulation core is verified: per-tick trail advancement, viewport
//! clipping, spawn-eligibility policy, and the translation of trail state into
//! a sequence of draw instructions (and further into the terminal escape
//! string that paints them).

pub mod instr;
pub mod rng;
pub mod trail;
pub mod glass;
pub mod escape;

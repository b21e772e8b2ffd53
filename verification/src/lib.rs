//! Direction and rotation for spinning around in 2 dimensions.
//!
//! A heading is kept in two redundant forms: a discretized angle ([`orientation::Rotation`])
//! and a unit-vector style heading ([`orientation::Direction`]). The [`partitioning`]
//! module snaps continuous headings onto small fixed sets of discrete directions, and
//! the [`sync`] module keeps the two local forms and an external transform consistent
//! across update cycles.

pub mod orientation;
pub mod partitioning;
pub mod sync;

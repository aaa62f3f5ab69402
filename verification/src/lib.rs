//! Core of a 3D voxel-grid artificial-life simulator.
//!
//! The grid holds packed 32-byte voxels; every tick advances the whole grid
//! through five phases (command application, temperature diffusion, intent
//! declaration, conflict resolution and execution, statistics reduction).
//! This crate holds the verified data model and simulation rules: voxel and
//! genome encodings, intent and command words, grid index arithmetic, the
//! sparse brick allocator, the fixed-step tick scheduler, the readback state
//! machines, and a complete executable model of the tick pipeline.

pub mod bridge;
pub mod commands;
pub mod engine;
pub mod genome;
pub mod grid;
pub mod intent;
pub mod params;
pub mod picker;
pub mod pipeline;
pub mod readback;
pub mod seeds;
pub mod sim;
pub mod sparse;
pub mod stats;
pub mod tier;
pub mod timing;
pub mod voxel;

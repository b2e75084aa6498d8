//! The voxel world: chunks, biomes and the terrain generator.

pub mod biomes;
pub mod caves;
pub mod chunk;
pub mod columns;
pub mod density;
pub mod features;
pub mod interpolation;
pub mod noise;
pub mod spawn;
pub mod terrain_generation;

//! Deterministic terrain generation for a voxel world, together with the
//! rules of the game around it: the chat, the players and the settings of
//! the server.
//!
//! Every scalar of the terrain pipeline is a fixed-point integer, so that a
//! chunk depends on nothing but the world seed, the chunk position and the
//! noise samples it is generated from.

pub mod chat;
pub mod players;
pub mod settings;
pub mod skybox;
pub mod world;

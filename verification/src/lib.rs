//! Procedural terrain core: seeded gradient-noise permutation tables, the
//! circular brush kernel used by hydraulic erosion, raw texture encoding, and
//! the per-tick dispatch state machine that decides which compute phases run.

pub mod brush;
pub mod erosion;
pub mod noise;
pub mod scheduler;
pub mod settings;
pub mod texture;

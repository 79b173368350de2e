//! The first generation of the agent's store: sessions and checkpoints that
//! hold a whole context snapshot each.
pub mod codec;
pub mod data_object;
pub mod entity;

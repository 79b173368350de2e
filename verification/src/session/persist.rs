//! What the session store keeps: sessions, checkpoints of agent contexts,
//! and the messages those are made of.
pub mod checkpoint;
pub mod codec;
pub mod data_object;
pub mod entity;

//! The first generation of in-process tools.
pub mod fs;
pub mod memory;
pub mod util;
pub mod web;

//! Resolver implementations for concrete model providers.
pub mod deepseek;

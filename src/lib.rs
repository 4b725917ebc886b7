//! Scoped override of a host's default gateway.
//!
//! The library decides which routing commands run, in which order, and what
//! their outcomes mean. Spawning the commands is left to the caller: every
//! command is handed out as an argument vector, and every result comes back
//! as a [`route::CommandOutcome`].
pub mod route;
pub mod table;
pub mod gateway;

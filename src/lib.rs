//! Change-driven process supervision: an ignore filter for changed paths, a
//! debouncer that turns bursts of changes into restart triggers, and a
//! restart protocol that reclaims a network port, stops the running
//! generation of processes and launches the next one.

pub mod text;
pub mod filter;
pub mod debounce;
pub mod supervisor;
pub mod config;
pub mod display;

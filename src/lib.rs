//! Window-close propagation and start-up configuration policy for a desktop
//! shell with a primary "main" window and a secondary "control" window.

pub mod label;
pub mod policy;
pub mod registry;
pub mod laws;
pub mod config;

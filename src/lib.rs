//! Decision logic of an unattended synchronisation daemon for a git working
//! directory: each tick scans the working tree, commits local changes,
//! reconciles with the remote branch and publishes what advanced locally.
//!
//! The repository itself is driven from outside this library; here every
//! decision of a tick is a verified function of plain values.

pub mod cli;
pub mod identity;
pub mod publish;
pub mod reconcile;
pub mod status;
pub mod tick;

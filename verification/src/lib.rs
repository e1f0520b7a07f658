//! Remote virtual-console automation: display capture and hashing, keyboard
//! input sequencing, screen-synchronization polling, scripted bootstrap
//! execution, and the build-lifecycle state machine that drives them.

pub mod actions;
pub mod artifact;
pub mod capture;
pub mod commands;
pub mod digest;
pub mod errors;
pub mod input;
pub mod orchestrator;
pub mod packer;
pub mod parse;
pub mod rng;
pub mod screenshot;
pub mod sequencer;
pub mod session;
pub mod templates;

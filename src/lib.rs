//! Start-up plan of the desktop/mobile application shell: which plugins are
//! attached to the application builder, in which order and with which
//! options, and how failures during start-up are decided.
pub mod plan;
pub mod setup;

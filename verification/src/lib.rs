//! Verified core of the `neon` developer-environment CLI: plan derivation,
//! report formatting, config-file editing and the decision logic of every
//! `neon setup` step.  Process spawning, file I/O and terminal UI live in the
//! companion binary.  Everything here carries a contract; apart from the
//! home and local-data directories and the clock (read by the theme step to
//! expand `~/` and to pick a background image), nothing reads or changes
//! the environment.
pub mod text;
pub mod json;
pub mod doctor;
pub mod repo;
pub mod install;
pub mod setup;

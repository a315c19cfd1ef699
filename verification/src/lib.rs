//! Decisions of a desktop shell that launches a bundled server process and
//! relays its console output.

pub mod failure;
pub mod mode;
pub mod paths;
pub mod plan;
pub mod relay;

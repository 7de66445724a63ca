//! Named teams of agents: the rules by which a team is created, run and disbanded.

pub mod clock;
pub mod create;
pub mod delete;
pub mod json;
pub mod laws;
pub mod names;
pub mod registry;
pub mod runner;
pub mod schema;
pub mod steps;
pub mod text;
pub mod tool;

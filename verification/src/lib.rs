pub mod access;
pub mod cli;
pub mod command;
pub mod git;
pub mod job;
pub mod text;
pub mod utilities;
pub mod website;
pub mod website_builders;
pub mod website_registry;

//! Service map validation, artifact rendering and deployment planning for a
//! small self-hosted site.
pub mod text;
pub mod env;
pub mod paths;
pub mod config;
pub mod process;
pub mod deploy;
pub mod render;
pub mod git;
pub mod cli;

//! Release management: version bumps, changelogs, configuration rules.

pub mod text;
pub mod version;
pub mod bump;
pub mod config;
pub mod project;
pub mod github;
pub mod file_change;
pub mod changelog;
pub mod version_files;
pub mod migrate;
pub mod command;
pub mod release;
pub mod git;
pub mod options_docs;
pub mod cli;
pub mod workspace;
pub mod commands;

//! Assembles conventional commit messages from a structured survey and
//! records them as commits in a git repository.

pub mod args;
pub mod config;
pub mod editor;
pub mod git;
pub mod message;
pub mod registry;
pub mod run;
pub mod survey;
pub mod text;

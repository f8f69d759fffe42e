//! A personal task tracker: tasks are written as free text with inline tags,
//! move through a small set of statuses, and are laid out in aligned columns.

pub mod cli;
pub mod config;
pub mod metadata;
pub mod paint;
pub mod subcmd;
pub mod task;
pub mod text;
pub mod uid;

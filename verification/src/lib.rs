//! A small library for organizing the files of a directory: each file is
//! routed to a destination subdirectory chosen from its name, either by its
//! extension or by a coarse file-type category.
//!
//! The library works on plain file names; reading the directory and moving
//! the files is left to the surrounding program.

pub mod classify;
pub mod plan;

//! Named environment files for a project directory, one of which at a time
//! is mirrored into the local file.
//!
//! A repository is a directory holding the marker directory `.envm`, which
//! keeps the configuration, the head file naming the environment in use, and
//! a backup of the local file taken when leaving the local environment. The
//! operations decide from plain values (paths, names, file contents) and
//! return the filesystem work left to do as a list of steps, whose effect on
//! a model of the filesystem is stated and reasoned about here. The steps are
//! whole-file writes and copies, with no locking: two processes switching at
//! once can interleave.
pub mod command;
pub mod config;
pub mod configuration;
pub mod env;
pub mod environment;
pub mod error;
pub mod gitignore;
pub mod listing;
pub mod path;
pub mod plan;
pub mod repository;
pub mod text;

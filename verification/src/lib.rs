//! Notes kept as plain text, one file per topic.
//!
//! The library decides; the program around it touches the disk. It holds
//! three things: which combinations of command-line flags are legal and what
//! each one asks for ([`cli`], [`intent`]); how the lines of a topic are laid
//! out in its file, how each operation changes them and which files of the
//! notes directory are topics ([`lines`], [`topic`], [`catalog`]); and how the
//! effective configuration follows from the defaults and an optional
//! configuration document, and what a run has to make on disk before it can
//! begin ([`config`], [`document`], [`startup`]).

pub mod catalog;
pub mod cli;
pub mod config;
pub mod document;
pub mod error;
mod home;
pub mod intent;
pub mod lines;
pub mod startup;
pub mod text;
pub mod topic;

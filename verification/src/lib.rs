//! Aliases for SSH hosts and for paths, and what a copy endpoint written
//! with them refers to.
//!
//! The store of aliases is a value ([`config::Config`]) that every operation
//! takes and, where it changes anything, changes in place. Nothing here reads
//! or writes a file, prints, or runs a program: an operation answers with
//! what happened, with the lines to show, or with the call to make.
//!
//! - [`resolve`]: what an endpoint such as `myhost:backup` refers to.
//! - [`hostname`]: the lexical checks on what may name a host.
//! - [`config`], [`table`]: the store and its tables.
//! - [`host`], [`path`]: adding, removing and listing aliases.
//! - [`transfer`]: the `scp` call for a copy between two endpoints.
//! - [`commands`]: the commands of the tool, handled against a store.
//! - [`interactive`]: the dialogs that add an alias step by step.
//! - [`text`], [`invocation`]: building blocks.

pub mod commands;
pub mod config;
pub mod host;
pub mod hostname;
pub mod interactive;
pub mod invocation;
pub mod path;
pub mod resolve;
pub mod table;
pub mod text;
pub mod transfer;

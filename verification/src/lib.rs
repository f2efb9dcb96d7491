//! Lifecycle management for game-server instances on a single host.
//!
//! The crate holds the rules of the manager as verified code: which lifecycle
//! transitions exist, when a backup fires, which ports and identities are
//! free, how an instance is provisioned step by step and what is rolled back
//! when a step fails. Everything that touches the machine (processes, files,
//! sockets, timers) is left to the caller, who feeds outcomes in and carries
//! the returned actions out.
//!
//! The modules, from the leaves up:
//!
//! - `error`: categories of errors and their details
//! - `text`: decimal numbers and lists of strings
//! - `identity`: identities of instances and their prefixes
//! - `lifecycle`: the state machine of an instance
//! - `port`: the table of claimed ports
//! - `backup`: the backup scheduler and the names of backups
//! - `config`: what an instance is set up with and what is kept of it
//! - `info`: the projection of an instance that callers see
//! - `events`: the notifications for the event bus
//! - `layout`: the files and directories of an instance
//! - `provision`: the provisioning pipeline
//! - `instance`: the lifecycle manager of one instance
//! - `listing`: the instances in the order of their creation
//! - `registry`: the instances of a host and their ports
//! - `creation`: how an instance comes into the registry
//! - `dependency_manager`: the table of installed dependencies
//!
//! Contracts speak of mathematical values. Every type with text in it has a
//! view that holds the text as a sequence of characters, and the functions
//! that decide something are mirrored by a function on those views, about
//! which the laws of the crate are proved.

pub mod backup;
pub mod config;
pub mod creation;
pub mod dependency_manager;
pub mod error;
pub mod events;
pub mod identity;
pub mod info;
pub mod instance;
pub mod layout;
pub mod lifecycle;
pub mod listing;
pub mod port;
pub mod provision;
pub mod registry;
pub mod text;

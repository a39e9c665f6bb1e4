//! Mod compatibility management between game-client and game-server
//! installations.
//!
//! The library inspects the mod archives of an installation, decides which
//! mods have to be present on each side, and plans what reconciles one
//! installation with another:
//!
//! - [`jar`] extracts the identity of a mod from what its archive holds;
//! - [`cache`] keeps extracted identities by the digest of their archive,
//!   within a budget and for a time to live;
//! - [`rules`] checks the inventory of a client against that of a server;
//! - [`manager`] turns the findings into a plan and the plan into
//!   operations on a transport;
//! - [`scanning`] holds the decisions of an inventory scan.
//!
//! Everything here is verified. What touches files, networks and
//! terminals lives outside and hands plain values in.

pub mod actions;
pub mod cache;
pub mod cli;
pub mod clock;
pub mod config;
pub mod connector;
pub mod error;
pub mod form;
pub mod format;
pub mod jar;
pub mod manager;
pub mod paths;
pub mod profiles;
pub mod progress;
pub mod rules;
pub mod scanning;
pub mod servers;
pub mod string_map;
pub mod structure;
pub mod text;
pub mod types;

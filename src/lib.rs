//! Building blocks of a command-line client for the Pocket read-it-later
//! service: output formats and sink, stored configuration, request builders
//! for every subcommand, mapping of service records into output models, and
//! the decisions of the browser-based login sequence.
pub mod text;
pub mod output;
pub mod config;
pub mod facade;
pub mod models;
pub mod add;
pub mod get;
pub mod send;
pub mod tags;
pub mod tag;
pub mod auth;

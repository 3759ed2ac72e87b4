//! A small library for describing a fleet of servers in a declarative
//! configuration file.  It can produce the fixed template document that a
//! fresh setup starts from, decide what a requested invocation should do,
//! and load a configuration document into structured server records.

pub mod dispatch;
pub mod doc;
pub mod fleet;
pub mod render;
pub mod schema;
pub mod template;
pub mod toml_read;

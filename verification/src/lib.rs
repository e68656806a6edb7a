//! Configuration model and validation layer for a dynamic-DNS update client.
//!
//! A configuration document (TOML text) describes which IP-resolution service
//! to use, the logging verbosity, and a list of per-provider DNS zones to
//! update.  The library parses such text into a strictly validated,
//! strongly typed tree (`DnsConfig`), or a classified error.  Validation is
//! strict: a field name that the schema does not declare fails the whole
//! load, and the error names the offending field.

pub mod config;
pub mod doc_tree;
pub mod errors;
pub mod laws;
pub mod text;
pub mod toml_input;
pub mod validate;

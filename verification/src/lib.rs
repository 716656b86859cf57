//! Functions that a template can call to fetch data from cloud services while it renders:
//! tags, instance metadata and secrets.
//!
//! Each function is split in two steps around the one thing it cannot do itself, the request
//! over the network. `request` decodes the loosely typed arguments of a call into what to ask
//! for, or fails with a typed [`error::Error`]; `respond` shapes what came back into a
//! structured [`value::Json`]. The caller sends the request in between.

pub mod args;
pub mod ec2;
pub mod error;
pub mod filter;
pub mod imds;
pub mod json;
pub mod secretsmanager;
pub mod text;
pub mod value;

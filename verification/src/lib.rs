//! A verified core for a command-line HTTP request tool: where the request
//! definitions of a namespace are stored, how a stored definition is combined
//! with the values of one run, and how a namespace is picked by walking the
//! storage tree.

pub mod dispatch;
pub mod error;
pub mod headers;
pub mod json;
pub mod location;
pub mod method;
pub mod navigator;
pub mod order;
pub mod plan;
pub mod record;
pub mod text;

//! Decoding layer for a chat platform's web API: compact namespaced identifiers,
//! dual-format timestamps and tagged-union dispatch over a JSON value model.

pub mod id;
pub mod timestamp;
pub mod json;
pub mod tagged;
pub mod types;
pub mod mods;
pub mod requests;

//! A dictionary lookup library: it normalises a provider's JSON answer into
//! one vocabulary record, lays that record out for a terminal, and decides
//! when a lookup is served from the cache and when it goes to the network.

pub mod args;
pub mod handler;
pub mod json;
pub mod meta;
pub mod progressbar;
pub mod query;
pub mod result;
pub mod text;
pub mod util;

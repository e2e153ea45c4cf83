//! A hierarchical name registry: record addressing, the record header and
//! operation codecs, and the authorization rules for create, update,
//! transfer and delete.

pub mod address;
pub mod error;
pub mod instruction;
pub mod processor;
pub mod state;

//! A volatile registry that associates user identifiers (email addresses)
//! with custodial key records, and the request contract built on it.

pub mod record;
pub mod registry;
pub mod request;
pub mod laws;

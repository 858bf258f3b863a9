//! Record keeping for suppliers and procurement transactions: the wire
//! records, their stored rows, an identity-assigning entity store, and the
//! services that create, list, look up and aggregate records.

pub mod codec;
pub mod error;
pub mod models;
pub mod store;
pub mod service;

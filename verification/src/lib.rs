//! In-memory registry for the connection parameters of a remote
//! secret-management backend, together with the pure logic of fetching a
//! named secret with those parameters.
//!
//! The live configuration is a single [`store::SecretStore`] value owned by
//! the embedding process; every reader receives an independent snapshot and
//! updates replace the whole value or nothing.

pub mod fetch;
pub mod store;

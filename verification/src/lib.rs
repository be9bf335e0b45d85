//! An actor-based bridge to an embedded, ordered key-value store whose
//! transaction and cursor handles must stay on the thread that created them.
//! The library verifies the command/reply protocol: transactions, point
//! reads and writes, and ordered range scans driven through rendezvous
//! channels.

pub mod actor;
pub mod protocol;
pub mod store;
pub mod wrapper;

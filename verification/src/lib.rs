//! A registry of typed procedure contracts.
//!
//! Every operation that a server exposes (a query, a mutation or a
//! subscription) is stored with the description of its argument, result and
//! error types. The registry keeps operation names free of collisions and of
//! reserved names, and hands out the contracts of all operations in
//! registration order.

pub mod datatype;
pub mod export;
pub mod names;
pub mod procedure;
pub mod store;

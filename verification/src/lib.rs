//! Transaction sessions for a remote SQL database client.
//!
//! A transaction is a sequence of independent calls that the caller ties
//! together with an id of its own choosing. This crate keeps, per id, what is
//! needed to continue the transaction on the server: a stream of a persistent
//! connection ([`hrana`]), or the continuation token that a stateless HTTP
//! server hands out with every reply ([`http`]).
//!
//! Nothing here performs I/O. Every operation is split at the point where the
//! network is involved: one function prepares what has to be sent, another one
//! takes what came back, updates the registry and gives the result.

pub mod address;
pub mod config;
pub mod error;
pub mod hrana;
pub mod http;
pub mod registry;
pub mod result_set;
pub mod statement;
pub mod wire;

pub use config::Config;
pub use error::{Error, ErrorKind};
pub use registry::Registry;
pub use result_set::{ResultSet, Row};
pub use statement::Statement;

//! A typed RPC framework: service schemas, the message shapes derived from
//! them, the client and server runtime, and the correlation protocol used
//! when many calls share one connection.

pub mod error;
pub mod format;
pub mod framing;
pub mod http;
pub mod message;
pub mod parse;
pub mod schema;
pub mod text;
pub mod client;
pub mod compiler;
pub mod connection;

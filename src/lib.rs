//! A JSON-RPC 2.0 dispatch core: validating calls, applying the protocol's rules,
//! invoking a handler, encoding responses, and the decisions of the worker loop.

pub mod envelope;
pub mod error;
pub mod wire;
pub mod dispatch;
pub mod worker;

pub use envelope::{Id, Request, Response, RpcError};
pub use error::{Error, InnerError};

//! Bridge between a caller that awaits a single result value and a host
//! transport that completes requests through callbacks on a one-shot
//! completion token.

pub mod bridge;
pub mod channel;
pub mod connector;
pub mod error;
pub mod request;
pub mod slot;
pub mod token;

pub use bridge::resolve;
pub use connector::{GqlConnectionImpl, JrpcConnector, ProtoConnector};
pub use error::QueryError;
pub use request::{GqlRequest, JrpcRequest, ProtoRequest};
pub use token::{BytesQuery, BytesQueryResult, StringQuery, StringQueryResult};

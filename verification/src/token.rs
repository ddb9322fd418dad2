use vstd::prelude::*;

use crate::channel::oneshot_send;
use crate::error::QueryError;

verus! {

/// The terminal outcome a completion token delivers for a text payload.
pub type StringQueryResult = Result<String, QueryError>;

/// The terminal outcome a completion token delivers for a binary payload.
pub type BytesQueryResult = Result<Vec<u8>, QueryError>;

/// The host-visible completion token for text payloads: a single-use
/// handle around the send half of the request's one-shot result channel.
/// Every completion operation takes the token by value, so a second
/// completion on the same token is ruled out by ownership; if the host
/// drops the token instead, the send half goes with it and the waiting
/// side observes "producer gone".
pub struct StringQuery {
    pub tx: tokio::sync::oneshot::Sender<StringQueryResult>,
}

impl StringQuery {
    /// Consumes the token, delivering `Ok` of the received payload.
    pub fn on_receive(self, data: String) {
        oneshot_send(self.tx, Ok(data));
    }

    /// Consumes the token, delivering a host-reported application
    /// failure. Any detail beyond the category stays on the host side.
    pub fn on_error(self) {
        oneshot_send(self.tx, Err(QueryError::RequestFailed));
    }

    /// Consumes the token, delivering a host-reported deadline expiry.
    pub fn on_timeout(self) {
        oneshot_send(self.tx, Err(QueryError::TimeoutReached));
    }
}

/// The host-visible completion token for binary payloads; the same
/// single-use handle as `StringQuery` with a byte-buffer payload.
pub struct BytesQuery {
    pub tx: tokio::sync::oneshot::Sender<BytesQueryResult>,
}

impl BytesQuery {
    /// Consumes the token, delivering `Ok` of the received payload.
    pub fn on_receive(self, data: Vec<u8>) {
        oneshot_send(self.tx, Ok(data));
    }

    /// Consumes the token, delivering a host-reported application
    /// failure. Any detail beyond the category stays on the host side.
    pub fn on_error(self) {
        oneshot_send(self.tx, Err(QueryError::RequestFailed));
    }

    /// Consumes the token, delivering a host-reported deadline expiry.
    pub fn on_timeout(self) {
        oneshot_send(self.tx, Err(QueryError::TimeoutReached));
    }
}

} // verus!

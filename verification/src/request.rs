use vstd::prelude::*;

verus! {

/// A request for the local-aware text connector: an opaque text payload
/// plus one delivery hint. Immutable once constructed and consumed by the
/// connector when posted.
pub struct GqlRequest {
    pub data: String,
    /// Hint to the transport that the request may take longer than a
    /// short default deadline.
    pub long_query: bool,
}

impl GqlRequest {
    /// Consumes the request into exactly the payload and flag handed to
    /// the transport's send call, both unchanged.
    pub fn into_send_args(self) -> (args: (String, bool))
        ensures
            args.0@ == self.data@,
            args.1 == self.long_query,
    {
        (self.data, self.long_query)
    }
}

/// A request for the plain text connector.
pub struct JrpcRequest {
    pub data: String,
    /// Hint to the transport that the request must be served by a durable
    /// backing store rather than a fast ephemeral cache.
    pub requires_db: bool,
}

impl JrpcRequest {
    /// Consumes the request into exactly the payload and flag handed to
    /// the transport's send call, both unchanged.
    pub fn into_send_args(self) -> (args: (String, bool))
        ensures
            args.0@ == self.data@,
            args.1 == self.requires_db,
    {
        (self.data, self.requires_db)
    }
}

/// A request for the binary connector: the same shape as `JrpcRequest`
/// with a byte-buffer payload for the denser wire encoding.
pub struct ProtoRequest {
    pub data: Vec<u8>,
    /// Hint to the transport that the request must be served by a durable
    /// backing store rather than a fast ephemeral cache.
    pub requires_db: bool,
}

impl ProtoRequest {
    /// Consumes the request into exactly the payload and flag handed to
    /// the transport's send call, both unchanged.
    pub fn into_send_args(self) -> (args: (Vec<u8>, bool))
        ensures
            args.0@ == self.data@,
            args.1 == self.requires_db,
    {
        (self.data, self.requires_db)
    }
}

} // verus!

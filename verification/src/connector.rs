use vstd::prelude::*;

use crate::channel::oneshot_pair;
use crate::request::{GqlRequest, JrpcRequest, ProtoRequest};
use crate::token::{BytesQuery, BytesQueryResult, StringQuery, StringQueryResult};

verus! {

/// The capability contract the host transport satisfies for the
/// local-aware text connector. The host environment implements it;
/// nothing is assumed of an implementation beyond its signatures: `send`
/// only schedules work and returns, and the host later invokes exactly
/// one completion operation on the token, or drops it.
pub trait GqlSender {
    /// Synchronous capability query with no side effects.
    fn is_local(&self) -> bool;

    /// Schedules the request on the host side; must not block.
    fn send(&self, data: &str, handler: StringQuery, long_query: bool);
}

/// The capability contract the host transport satisfies for the plain
/// text connector.
pub trait JrpcSender {
    /// Schedules the request on the host side; must not block.
    fn send(&self, data: &str, handler: StringQuery, requires_db: bool);
}

/// The capability contract the host transport satisfies for the binary
/// connector.
pub trait ProtoSender {
    /// Schedules the request on the host side; must not block.
    fn send(&self, data: &[u8], handler: BytesQuery, requires_db: bool);
}

/// The local-aware text connector: stateless besides the transport
/// handle, which is never mutated after construction, so one instance is
/// safely shared by concurrent callers.
pub struct GqlConnectionImpl<S: GqlSender> {
    sender: S,
}

impl<S: GqlSender> GqlConnectionImpl<S> {
    /// The transport handle behind this connector, fixed at construction
    /// and never mutated afterwards.
    pub closed spec fn transport(&self) -> S {
        self.sender
    }

    pub fn new(sender: S) -> (c: Self)
        ensures
            c.transport() == sender,
    {
        GqlConnectionImpl { sender }
    }

    /// Whether the transport serves from a local source; delegated to the
    /// host, which alone knows the answer.
    pub fn is_local(&self) -> bool {
        self.sender.is_local()
    }

    /// Opens one request: allocates a fresh completion token, hands the
    /// payload, the token and the flag to the transport unchanged
    /// (`GqlRequest::into_send_args` states that pass-through), consumes
    /// the request, and returns the paired wait half. Awaiting it and
    /// mapping what it observed through `crate::bridge::resolve` yields
    /// the caller's result; per-request state lives entirely in the
    /// token, so concurrent posts are independent.
    pub fn post(&self, req: GqlRequest) -> tokio::sync::oneshot::Receiver<StringQueryResult> {
        let (data, long_query) = req.into_send_args();
        let (tx, rx) = oneshot_pair();
        self.sender.send(data.as_str(), StringQuery { tx }, long_query);
        rx
    }
}

/// The plain text connector; same bridge as `GqlConnectionImpl` with the
/// durable-store flag in place of the long-query flag.
#[derive(Clone)]
pub struct JrpcConnector<S: JrpcSender> {
    sender: S,
}

impl<S: JrpcSender> JrpcConnector<S> {
    /// The transport handle behind this connector, fixed at construction
    /// and never mutated afterwards.
    pub closed spec fn transport(&self) -> S {
        self.sender
    }

    pub fn new(sender: S) -> (c: Self)
        ensures
            c.transport() == sender,
    {
        JrpcConnector { sender }
    }

    /// Opens one request, exactly as `GqlConnectionImpl::post` does, with
    /// the `requires_db` flag passed through unchanged.
    pub fn post(&self, req: JrpcRequest) -> tokio::sync::oneshot::Receiver<StringQueryResult> {
        let (data, requires_db) = req.into_send_args();
        let (tx, rx) = oneshot_pair();
        self.sender.send(data.as_str(), StringQuery { tx }, requires_db);
        rx
    }
}

/// The binary connector; identical in shape to `JrpcConnector` with a
/// byte-buffer payload.
#[derive(Clone)]
pub struct ProtoConnector<S: ProtoSender> {
    sender: S,
}

impl<S: ProtoSender> ProtoConnector<S> {
    /// The transport handle behind this connector, fixed at construction
    /// and never mutated afterwards.
    pub closed spec fn transport(&self) -> S {
        self.sender
    }

    pub fn new(sender: S) -> (c: Self)
        ensures
            c.transport() == sender,
    {
        ProtoConnector { sender }
    }

    /// Opens one request, exactly as `JrpcConnector::post` does, for the
    /// binary wire encoding.
    pub fn post(&self, req: ProtoRequest) -> tokio::sync::oneshot::Receiver<BytesQueryResult> {
        let (data, requires_db) = req.into_send_args();
        let (tx, rx) = oneshot_pair();
        self.sender.send(data.as_slice(), BytesQuery { tx }, requires_db);
        rx
    }
}

} // verus!

//! The client side shared by all interaction patterns: the client handle and
//! the typed update sink.

use crate::message::{encodes, to_wire, wire_of, Service};
use crate::transport::ConnectionErrors;
use std::marker::PhantomData;
use vstd::prelude::*;

verus! {

/// A client of service `S` over the transport family `C`.
pub struct RpcClient<S: Service, C: ConnectionErrors> {
    marker: PhantomData<(S, C)>,
}

impl<S: Service, C: ConnectionErrors> RpcClient<S, C> {
    /// A client handle.
    pub fn new() -> Self {
        RpcClient { marker: PhantomData }
    }
}

/// The typed update sink of one call: it accepts updates of type `T` and
/// says what to write for each on the outgoing half of the substream.
///
/// It holds nothing back: every accepted update is one write, in the order
/// of acceptance, and the outcome of that write is the outcome of the send.
pub struct UpdateSink<S: Service, C: ConnectionErrors, T: Into<S::Req>> {
    marker: PhantomData<(S, C, T)>,
}

impl<S: Service, C: ConnectionErrors, T: Into<S::Req>> UpdateSink<S, C, T> {
    /// The sink of a substream on which the request has been sent.
    pub(crate) fn new() -> Self {
        UpdateSink { marker: PhantomData }
    }

    /// Accepts one update and returns the wire message to write for it.
    pub fn encode(&self, update: T) -> (wire: S::Req)
        ensures
            encodes::<T, S::Req>() ==> wire == wire_of::<T, S::Req>(update),
    {
        to_wire(update)
    }
}

} // verus!

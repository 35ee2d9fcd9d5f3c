use vstd::prelude::*;
use bytes::Bytes;
use crate::addr::NodeAddr;
use crate::error::Error;
use crate::payload::{byte_content, payload_len};

verus! {

/// A live connection as this layer sees it: an opaque handle into the
/// transport engine's session table, the peer it reaches, and the
/// negotiated maximum message size used to validate inbound payloads.
/// Owned exclusively by its caller once returned.
#[derive(Clone, Copy, Debug, PartialEq, Eq, Structural)]
pub struct Connection {
    /// Token under which the transport collaborator keeps the
    /// engine's session object.
    pub handle: u64,
    /// The remote address this connection reaches.
    pub peer_addr: NodeAddr,
    /// Inbound payloads strictly larger than this are rejected.
    pub max_msg_size: usize,
}

impl Connection {
    /// Wrap a transport session, recording the size bound that later
    /// validates its inbound payloads.
    pub fn new(handle: u64, peer_addr: NodeAddr, max_msg_size: usize) -> (r: Self)
        ensures
            r == (Connection { handle, peer_addr, max_msg_size }),
    {
        Connection { handle, peer_addr, max_msg_size }
    }

    /// Accept or reject an inbound one-way payload: accepted exactly
    /// when it is no larger than the connection's maximum, arriving
    /// with identical bytes and the sender's address; otherwise
    /// rejected as too large, with the offending size and the bound.
    pub fn accept_uni(&self, payload: Bytes, src: NodeAddr) -> (r: Result<Message, Error>)
        ensures
            byte_content(payload).len() <= self.max_msg_size ==> r == Ok::<Message, Error>(
                Message::UniStream { bytes: payload, src },
            ),
            byte_content(payload).len() > self.max_msg_size ==> r == Err::<Message, Error>(
                Error::MessageTooLarge {
                    size: byte_content(payload).len() as usize,
                    max: self.max_msg_size,
                },
            ),
    {
        let size = payload_len(&payload);
        if size <= self.max_msg_size {
            Ok(Message::UniStream { bytes: payload, src })
        } else {
            Err(Error::MessageTooLarge { size, max: self.max_msg_size })
        }
    }

    /// Accept or reject an inbound two-way payload; on acceptance the
    /// message carries the reply capability for this exchange, on
    /// rejection that capability is discarded with the payload.
    pub fn accept_bi(&self, payload: Bytes, src: NodeAddr, send: SendStream) -> (r: Result<
        Message,
        Error,
    >)
        ensures
            byte_content(payload).len() <= self.max_msg_size ==> r == Ok::<Message, Error>(
                Message::BiStream { bytes: payload, src, send },
            ),
            byte_content(payload).len() > self.max_msg_size ==> r == Err::<Message, Error>(
                Error::MessageTooLarge {
                    size: byte_content(payload).len() as usize,
                    max: self.max_msg_size,
                },
            ),
    {
        let size = payload_len(&payload);
        if size <= self.max_msg_size {
            Ok(Message::BiStream { bytes: payload, src, send })
        } else {
            Err(Error::MessageTooLarge { size, max: self.max_msg_size })
        }
    }
}

/// The capability to answer one inbound two-way exchange. It is not
/// `Clone` and answering consumes it, so it can be used at most once;
/// the transport collaborator holds the engine's stream object under
/// `handle`.
#[derive(Debug, PartialEq, Eq, Structural)]
pub struct SendStream {
    /// Token under which the transport collaborator keeps the
    /// engine's reply stream.
    pub handle: u64,
    /// The peer the reply goes back to.
    pub peer_addr: NodeAddr,
}

impl SendStream {
    pub fn new(handle: u64, peer_addr: NodeAddr) -> (r: Self)
        ensures
            r == (SendStream { handle, peer_addr }),
    {
        SendStream { handle, peer_addr }
    }

    /// Consume the capability, yielding the token the transport
    /// collaborator needs to perform the reply send. Taking `self` by
    /// value is what enforces use-at-most-once.
    pub fn into_reply_token(self) -> (r: u64)
        ensures
            r == self.handle,
    {
        self.handle
    }
}

/// A message received from a peer: the payload bytes plus the sender's
/// address, and, for a two-way exchange, the capability to send one
/// reply.
pub enum Message {
    /// Sent on a one-way stream.
    UniStream { bytes: Bytes, src: NodeAddr },
    /// Sent on a two-way stream; `send` answers the exchange.
    BiStream { bytes: Bytes, src: NodeAddr, send: SendStream },
}

} // verus!

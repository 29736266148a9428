//! The two sides of a connection and the socket that they share.

use crate::api::front::{CommandHandler, HandlerView, Phase};
use crate::net::{share, SafeReceiver, SafeSender};
use vstd::prelude::*;

pub mod back;
pub mod command;
pub mod front;

verus! {

/// The two halves of one websocket.
struct Socket {
    send: SafeSender,
    recv: SafeReceiver,
}

/// One accepted connection.
pub struct SocketHandler {
    ws_id: u32,
    sock: Socket,
}

impl SocketHandler {
    /// The id of the connection, for diagnostics.
    pub closed spec fn spec_ws_id(&self) -> u32 {
        self.ws_id
    }

    /// The outbound channel.
    pub closed spec fn spec_send(&self) -> SafeSender {
        self.sock.send
    }

    /// The inbound channel.
    pub closed spec fn spec_recv(&self) -> SafeReceiver {
        self.sock.recv
    }

    /// The connection `ws_id` over the two halves `send` and `recv`.
    pub fn new(ws_id: u32, send: SafeSender, recv: SafeReceiver) -> (h: SocketHandler)
        ensures
            h.spec_ws_id() == ws_id,
            h.spec_send() == send,
            h.spec_recv() == recv,
    {
        SocketHandler { ws_id, sock: Socket { send, recv } }
    }

    /// A handler for the commands that come in on this connection.
    pub fn comm_handler(&self) -> (h: CommandHandler)
        ensures
            h@ == (HandlerView {
                ws_id: self.spec_ws_id(),
                phase: Phase::AwaitingInit,
                player_id: None,
                send: self.spec_send(),
            }),
    {
        CommandHandler::new(self.ws_id, share(&self.sock.send))
    }

    /// The outbound channel.
    pub fn send(&self) -> (send: &SafeSender)
        ensures
            *send == self.spec_send(),
    {
        &self.sock.send
    }

    /// The inbound channel.
    pub fn recv(&self) -> (recv: &SafeReceiver)
        ensures
            *recv == self.spec_recv(),
    {
        &self.sock.recv
    }
}

} // verus!

//! What a session tells a connection without being asked: the events that
//! other players cause.

use crate::game::Session;
use parking_lot::lock_api::Mutex;
use parking_lot::RawMutex;
use std::sync::mpsc::Receiver;
use std::sync::Arc;
use vstd::prelude::*;

verus! {

/// The receiving end of a channel between threads.
#[verifier::external_type_specification]
#[verifier::external_body]
#[verifier::reject_recursive_types(T)]
pub struct ExChannelReceiver<T>(Receiver<T>);

/// A chat message on its way to the other players.
#[derive(Debug, Clone, PartialEq, Eq)]
pub struct Message {
    username: String,
    msg: String,
}

/// Something that happened in the session.
#[derive(Debug, Clone, PartialEq, Eq)]
pub enum Event {
    Msg(Message),
}

/// What an `Event` stands for.
pub enum EventView {
    Msg { username: Seq<char>, msg: Seq<char> },
}

impl View for Message {
    type V = EventView;

    closed spec fn view(&self) -> EventView {
        EventView::Msg { username: self.username@, msg: self.msg@ }
    }
}

impl View for Event {
    type V = EventView;

    open spec fn view(&self) -> EventView {
        match self {
            Event::Msg(m) => m@,
        }
    }
}

impl EventView {
    /// The frame that tells a connection of the event, under the nonce `0`
    /// that no request of the client bears.
    pub open spec fn frame(self) -> Seq<char> {
        match self {
            EventView::Msg { username, msg } => "0\nCHAT\n"@ + username + "\n"@ + msg,
        }
    }
}

impl Message {
    /// The message `msg` of the player `username`.
    pub fn new(username: &String, msg: &String) -> (m: Message)
        ensures
            m@ == (EventView::Msg { username: username@, msg: msg@ }),
    {
        Message { username: username.clone(), msg: msg.clone() }
    }

    /// The name of the player who wrote the message.
    pub fn username(&self) -> (name: &String)
        ensures
            self@ matches EventView::Msg { username, .. } && name@ == username,
    {
        &self.username
    }

    /// The text of the message.
    pub fn msg(&self) -> (text: &String)
        ensures
            self@ matches EventView::Msg { msg, .. } && text@ == msg,
    {
        &self.msg
    }

    /// The frame that tells a connection of the message.
    pub fn respond(&self) -> (frame: String)
        ensures
            frame@ == self@.frame(),
    {
        let mut frame = "0\nCHAT\n".to_owned();
        frame.append(self.username.as_str());
        frame.append("\n");
        frame.append(self.msg.as_str());
        frame
    }
}

impl Event {
    /// The frame that tells a connection of the event.
    pub fn respond(&self) -> (frame: String)
        ensures
            frame@ == self@.frame(),
    {
        match self {
            Event::Msg(m) => m.respond(),
        }
    }
}

/// Whether an `EventHandler` still listens.
#[derive(Debug, Clone, Copy, PartialEq, Eq, Structural)]
pub enum EventState {
    Running,
    Killed,
}

/// The events' side of one connection: it takes events off a channel and
/// turns each into the frame that the connection is to get.
pub struct EventHandler {
    ws_id: u32,
    state: EventState,
    recv: Receiver<Event>,
    game: Arc<Mutex<RawMutex, Session>>,
}

/// `Receiver::recv` waits for the next value on the channel. It gives none
/// once every sender is gone and the channel is empty.
#[verifier::external_body]
fn recv_event(recv: &Receiver<Event>) -> (event: Option<Event>) {
    recv.recv().ok()
}

impl EventHandler {
    /// The id of the connection, for diagnostics.
    pub closed spec fn spec_ws_id(&self) -> u32 {
        self.ws_id
    }

    /// Whether the handler has stopped listening.
    pub closed spec fn spec_state(&self) -> EventState {
        self.state
    }

    /// The channel that the handler listens on.
    pub closed spec fn spec_recv(&self) -> Receiver<Event> {
        self.recv
    }

    /// The session that the handler belongs to.
    pub closed spec fn spec_game(&self) -> Arc<Mutex<RawMutex, Session>> {
        self.game
    }

    /// The handler after `received` came off its channel: it stops once the
    /// channel has nothing more to give.
    pub open spec fn after(&self, received: Option<Event>, next: &EventHandler) -> bool {
        &&& next.spec_ws_id() == self.spec_ws_id()
        &&& next.spec_recv() == self.spec_recv()
        &&& next.spec_game() == self.spec_game()
        &&& next.spec_state() == if received is None {
            EventState::Killed
        } else {
            self.spec_state()
        }
    }

    /// A running handler for connection `ws_id`, listening on `recv`.
    pub fn new(ws_id: u32, recv: Receiver<Event>, game: Arc<Mutex<RawMutex, Session>>) -> (h:
        EventHandler)
        ensures
            h.spec_ws_id() == ws_id,
            h.spec_state() == EventState::Running,
            h.spec_recv() == recv,
            h.spec_game() == game,
    {
        EventHandler { ws_id, state: EventState::Running, recv, game }
    }

    /// Takes note of what came off the channel and hands it on.
    pub fn accept(&mut self, received: Option<Event>) -> (event: Option<Event>)
        ensures
            event == received,
            old(self).after(received, final(self)),
    {
        if received.is_none() {
            self.state = EventState::Killed;
        }
        received
    }

    /// Waits for the next event. Without one the handler is done.
    pub fn pump_event(&mut self) -> (event: Option<Event>)
        ensures
            old(self).after(event, final(self)),
    {
        let received = recv_event(&self.recv);
        self.accept(received)
    }

    /// The frame that tells the connection of `event`.
    pub fn execute_event(&mut self, event: Event) -> (frame: String)
        ensures
            frame@ == event@.frame(),
            *final(self) == *old(self),
    {
        event.respond()
    }

    /// Whether the handler has stopped listening.
    pub fn is_kill(&self) -> (killed: bool)
        ensures
            killed == (self.spec_state() == EventState::Killed),
    {
        self.state == EventState::Killed
    }

    /// The id of the connection, for diagnostics.
    pub fn ws_id(&self) -> (id: u32)
        ensures
            id == self.spec_ws_id(),
    {
        self.ws_id
    }

    /// The session that the handler belongs to.
    pub fn game(&self) -> (game: &Arc<Mutex<RawMutex, Session>>)
        ensures
            *game == self.spec_game(),
    {
        &self.game
    }
}

} // verus!

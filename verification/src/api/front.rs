//! The commands' side of one connection: which commands it may run, what
//! running one does to the session, and what has to be sent afterwards.

use crate::api::back::{Event, EventView, Message};
use crate::api::command::{Chat, Command, CommandView, Echo, Error, ErrorCode, Init};
use crate::game::{Session, SessionView};
use crate::net::{share, SafeSender};
use crate::text::{decimal, decode, decoded, option_text, push_decimal};
use vstd::prelude::*;
use vstd::utf8::encode_utf8;

verus! {

/// Where a connection stands.
#[derive(Debug, Clone, Copy, PartialEq, Eq, Structural)]
pub enum Phase {
    /// Nobody has joined over this connection yet.
    AwaitingInit,
    /// The connection speaks for a player.
    Active,
    /// The connection is over.
    Closed,
}

/// What came in on a connection.
#[derive(Debug, Clone, PartialEq, Eq)]
pub enum Inbound {
    /// A text frame, as the bytes that arrived.
    Text(Vec<u8>),
    /// A binary frame.
    Binary(Vec<u8>),
    /// Nothing: the transport failed.
    Failed,
}

/// How the round trip through the probe endpoint went.
#[derive(Debug, Clone, PartialEq, Eq)]
pub enum Probe {
    /// The endpoint could not be reached.
    ConnectFailed,
    /// The request could not be written.
    WriteFailed,
    /// The reply could not be read.
    ReadFailed,
    /// The endpoint answered with this text.
    Reply(String),
}

/// An event and the connection that is to hear of it.
#[derive(Debug)]
pub struct Delivery {
    pub sock: SafeSender,
    pub event: Event,
}

/// What a `Delivery` stands for.
pub struct DeliveryView {
    pub sock: SafeSender,
    pub event: EventView,
}

impl View for Delivery {
    type V = DeliveryView;

    open spec fn view(&self) -> DeliveryView {
        DeliveryView { sock: self.sock, event: self.event@ }
    }
}

/// What running a command led to.
#[derive(Debug)]
pub struct Outcome {
    /// The command as it stands now; its frame is the answer to the client.
    pub command: Command,
    /// What the other connections are to hear. A delivery that fails takes
    /// nothing back from the command.
    pub deliveries: Vec<Delivery>,
}

/// What an `Outcome` stands for.
pub struct OutcomeView {
    pub command: CommandView,
    pub deliveries: Seq<DeliveryView>,
}

impl View for Outcome {
    type V = OutcomeView;

    open spec fn view(&self) -> OutcomeView {
        OutcomeView {
            command: self.command@,
            deliveries: self.deliveries@.map_values(|d: Delivery| d@),
        }
    }
}

/// One delivery of `event` to each of `socks`, in their order.
pub open spec fn addressed(socks: Seq<SafeSender>, event: EventView) -> Seq<DeliveryView> {
    socks.map_values(|sock: SafeSender| DeliveryView { sock, event })
}

impl OutcomeView {
    /// An outcome that only the client hears of.
    pub open spec fn quiet(command: CommandView) -> OutcomeView {
        OutcomeView { command, deliveries: Seq::empty() }
    }

    /// What the chat message `text` of player `author` comes to in `game`:
    /// the message is accepted and goes to every other player's connection.
    /// Where the session has no such player, the message is turned down.
    pub open spec fn chat(
        game: SessionView,
        nonce: Seq<char>,
        text: Seq<char>,
        author: nat,
    ) -> OutcomeView {
        match game.name_of(author) {
            Some(username) => OutcomeView {
                command: CommandView::Chat { nonce, text },
                deliveries: addressed(game.peers(author), EventView::Msg { username, msg: text }),
            },
            None => OutcomeView::quiet(
                CommandView::Error { nonce, code: ErrorCode::NotInitialized },
            ),
        }
    }
}

/// One connection's hold on the session.
#[derive(Debug)]
pub struct CommandHandler {
    ws_id: u32,
    player_id: Option<usize>,
    state: Phase,
    send: SafeSender,
}

/// What a `CommandHandler` stands for.
pub struct HandlerView {
    /// The id of the connection, for diagnostics.
    pub ws_id: u32,
    pub phase: Phase,
    /// The player that the connection speaks for.
    pub player_id: Option<nat>,
    /// The connection's own outbound channel.
    pub send: SafeSender,
}

impl View for CommandHandler {
    type V = HandlerView;

    closed spec fn view(&self) -> HandlerView {
        HandlerView {
            ws_id: self.ws_id,
            phase: self.state,
            player_id: match self.player_id {
                Some(id) => Some(id as nat),
                None => None,
            },
            send: self.send,
        }
    }
}

/// A handler, a session and an outcome: what one command leaves behind.
pub struct Step {
    pub handler: HandlerView,
    pub game: SessionView,
    pub outcome: OutcomeView,
}

impl CommandView {
    /// The `INIT` command after it was run on `game`: it bears the id of the
    /// player who joined, or it has become the error that kept the player out.
    pub open spec fn joined(self, game: SessionView) -> CommandView {
        match self {
            CommandView::Init { nonce, username, host_key, .. } => match game.join(
                username,
                host_key,
            ) {
                Ok(_) => CommandView::Init {
                    nonce,
                    username,
                    host_key,
                    player_id: Some(game.players.len()),
                },
                Err(code) => CommandView::Error { nonce, code },
            },
            other => other,
        }
    }

    /// The `ECHO` command after the round trip `probe`: it bears the reply,
    /// or it has become the error of the leg that failed.
    pub open spec fn probed(self, probe: Probe) -> CommandView {
        match self {
            CommandView::Echo { nonce, msg, resp } => match probe {
                Probe::ConnectFailed => CommandView::Error { nonce, code: ErrorCode::ConnectFailed },
                Probe::WriteFailed => CommandView::Error { nonce, code: ErrorCode::WriteFailed },
                Probe::ReadFailed => CommandView::Error { nonce, code: ErrorCode::ReadFailed },
                Probe::Reply(reply) => CommandView::Echo { nonce, msg, resp: reply@ },
            },
            other => other,
        }
    }

    /// The request that carries the payload `msg` to the probe endpoint.
    pub open spec fn probe_request(msg: Seq<char>) -> Seq<char> {
        "GET /api/internal/test HTTP/1.1\r\n"@ + "Host: 127.0.0.1\r\n"@ + "Connection: close\r\n"@
            + "Content-Type: text/plain\r\n"@ + "Content-Length: "@ + decimal(
            encode_utf8(msg).len(),
        ) + "\r\n\r\n"@ + msg
    }
}

impl HandlerView {
    /// A connection speaks for a player exactly while it is active or was so
    /// before it closed.
    pub open spec fn wf(self) -> bool {
        &&& self.phase == Phase::AwaitingInit ==> self.player_id is None
        &&& self.phase == Phase::Active ==> self.player_id is Some
    }

    /// Why a connection in this phase will not run `command`, if it will not.
    ///
    /// Before anyone has joined only `INIT` runs, and afterwards everything
    /// but `INIT`. An error passes as it is, and so does the command that
    /// closes the connection.
    pub open spec fn gate(self, command: CommandView) -> Option<ErrorCode> {
        match command {
            CommandView::Error { .. } => None,
            CommandView::Kill => None,
            CommandView::Init { .. } => if self.phase == Phase::AwaitingInit {
                None
            } else {
                Some(ErrorCode::AlreadyInitialized)
            },
            _ => if self.phase == Phase::AwaitingInit {
                Some(ErrorCode::NotInitialized)
            } else {
                None
            },
        }
    }

    /// What `command` leaves behind on a connection in this state and a
    /// session in the state `game`.
    pub open spec fn step(self, game: SessionView, command: CommandView) -> Step {
        if let Some(code) = self.gate(command) {
            Step {
                handler: self,
                game,
                outcome: OutcomeView::quiet(CommandView::Error { nonce: command.nonce(), code }),
            }
        } else {
            match command {
                CommandView::Init { username, host_key, .. } => match game.join(username, host_key) {
                    Ok(next) => Step {
                        handler: HandlerView {
                            phase: Phase::Active,
                            player_id: Some(game.players.len()),
                            ..self
                        },
                        game: next.assoc(game.players.len() as int, self.send),
                        outcome: OutcomeView::quiet(command.joined(game)),
                    },
                    Err(_) => Step {
                        handler: self,
                        game,
                        outcome: OutcomeView::quiet(command.joined(game)),
                    },
                },
                CommandView::Chat { nonce, text } => match self.player_id {
                    Some(author) => Step {
                        handler: self,
                        game: if game.name_of(author) is Some {
                            game.say(author, text)
                        } else {
                            game
                        },
                        outcome: OutcomeView::chat(game, nonce, text, author),
                    },
                    None => Step {
                        handler: self,
                        game,
                        outcome: OutcomeView::quiet(
                            CommandView::Error { nonce, code: ErrorCode::NotInitialized },
                        ),
                    },
                },
                CommandView::Kill => Step {
                    handler: HandlerView { phase: Phase::Closed, ..self },
                    game,
                    outcome: OutcomeView::quiet(command),
                },
                _ => Step { handler: self, game, outcome: OutcomeView::quiet(command) },
            }
        }
    }
}

impl Inbound {
    /// The text that the frame holds: that of a text frame whose bytes are
    /// well-formed UTF-8, and none otherwise.
    pub open spec fn text(self) -> Option<Seq<char>> {
        match self {
            Inbound::Text(bytes) => decoded(bytes@),
            _ => None,
        }
    }
}

impl Outcome {
    /// An outcome that only the client hears of.
    pub fn quiet(command: Command) -> (out: Outcome)
        ensures
            out@ == OutcomeView::quiet(command@),
    {
        let out = Outcome { command, deliveries: Vec::new() };
        assert(out@.deliveries =~= Seq::empty());
        out
    }
}

impl Init {
    /// Lets the player join `game`.
    pub fn execute(self, game: &mut Session) -> (done: Command)
        ensures
            done@ == self@.joined(old(game)@),
            match old(game)@.join(self.username@, option_text(self.host_key)) {
                Ok(next) => final(game)@ == next,
                Err(_) => final(game)@ == old(game)@,
            },
    {
        match game.add_player(&self.username, &self.host_key) {
            Ok(id) => Command::Init(
                Init {
                    nonce: self.nonce,
                    username: self.username,
                    host_key: self.host_key,
                    player_id: Some(id),
                },
            ),
            Err(code) => Error::new(&self.nonce, code),
        }
    }
}

impl Echo {
    /// The request that carries the payload to the probe endpoint.
    pub fn request(&self) -> (request: String)
        ensures
            request@ == CommandView::probe_request(self.msg@),
    {
        let mut request = "GET /api/internal/test HTTP/1.1\r\n".to_owned();
        request.append("Host: 127.0.0.1\r\n");
        request.append("Connection: close\r\n");
        request.append("Content-Type: text/plain\r\n");
        request.append("Content-Length: ");
        push_decimal(&mut request, self.msg.as_str().as_bytes().len());
        request.append("\r\n\r\n");
        request.append(self.msg.as_str());
        request
    }

    /// Closes the round trip: the reply becomes the answer, and a leg that
    /// failed becomes its error.
    pub fn execute(self, probe: Probe) -> (done: Command)
        ensures
            done@ == self@.probed(probe),
    {
        match probe {
            Probe::ConnectFailed => Error::new(&self.nonce, ErrorCode::ConnectFailed),
            Probe::WriteFailed => Error::new(&self.nonce, ErrorCode::WriteFailed),
            Probe::ReadFailed => Error::new(&self.nonce, ErrorCode::ReadFailed),
            Probe::Reply(reply) => Command::Echo(
                Echo { nonce: self.nonce, msg: self.msg, resp: reply },
            ),
        }
    }
}

impl Chat {
    /// Writes the message of player `author` to the log of `game` and
    /// addresses it to every other player's connection. Where `game` has no
    /// such player, nothing is written and the message is turned down.
    pub fn execute(self, game: &mut Session, author: usize) -> (out: Outcome)
        ensures
            final(game)@ == if old(game)@.name_of(author as nat) is Some {
                old(game)@.say(author as nat, self.text@)
            } else {
                old(game)@
            },
            out@ == OutcomeView::chat(old(game)@, self.nonce@, self.text@, author as nat),
    {
        let name = match game.player_username_by_id(author) {
            Some(name) => name,
            None => {
                return Outcome::quiet(Error::new(&self.nonce, ErrorCode::NotInitialized));
            },
        };
        let ghost before = game@;
        proof {
            use_type_invariant(&*game);
            assert(before.players[author as int].username == name@);
            let chosen = before.id_of(name@)->0 as int;
            assert(before.players[chosen].username == name@);
            assert(chosen == author);
        }
        game.add_message(name.as_str(), self.text.as_str());
        let socks = game.peers(author);
        let mut deliveries: Vec<Delivery> = Vec::new();
        let n: usize = socks.len();
        let mut i: usize = 0;
        let ghost event = EventView::Msg { username: name@, msg: self.text@ };
        while i < n
            invariant
                n == socks@.len(),
                i <= n,
                event == (EventView::Msg { username: name@, msg: self.text@ }),
                deliveries@.len() == i,
                forall|k: int|
                    0 <= k < i ==> (#[trigger] deliveries@[k])@ == (DeliveryView {
                        sock: socks@[k],
                        event,
                    }),
            decreases n - i,
        {
            deliveries.push(
                Delivery { sock: share(&socks[i]), event: Event::Msg(Message::new(&name, &self.text)) },
            );
            i += 1;
        }
        let out = Outcome { command: Command::Chat(self), deliveries };
        assert(out@.deliveries =~= addressed(socks@, event));
        out
    }
}

impl CommandHandler {
    /// Every handler is well formed.
    #[verifier::type_invariant]
    pub open spec fn inv(self) -> bool {
        self@.wf()
    }

    /// A handler for the connection `ws_id`, which sends on `send` and speaks
    /// for nobody yet.
    pub fn new(ws_id: u32, send: SafeSender) -> (h: CommandHandler)
        ensures
            h@ == (HandlerView { ws_id, phase: Phase::AwaitingInit, player_id: None, send }),
    {
        CommandHandler { ws_id, player_id: None, state: Phase::AwaitingInit, send }
    }

    /// Ends the connection, as when its transport has failed.
    pub fn close(&mut self)
        ensures
            final(self)@ == (HandlerView { phase: Phase::Closed, ..old(self)@ }),
    {
        self.state = Phase::Closed;
    }

    /// Takes what came in on the connection and hands on the text to run, if
    /// it holds any. A transport that failed closes the connection; a binary
    /// frame, and a text frame that is no UTF-8, are passed over.
    pub fn pump(&mut self, inbound: Inbound) -> (text: Option<String>)
        ensures
            option_text(text) == inbound.text(),
            final(self)@ == if inbound is Failed {
                HandlerView { phase: Phase::Closed, ..old(self)@ }
            } else {
                old(self)@
            },
    {
        match inbound {
            Inbound::Failed => {
                self.close();
                None
            },
            Inbound::Binary(_) => None,
            Inbound::Text(bytes) => decode(bytes.as_slice()),
        }
    }

    /// Takes what came in on the connection and hands on the command that it
    /// asks for, if it holds text.
    pub fn pump_command(&mut self, inbound: Inbound) -> (command: Option<Command>)
        ensures
            match inbound.text() {
                Some(text) => command matches Some(c) && c@ == CommandView::parse(text),
                None => command is None,
            },
            final(self)@ == if inbound is Failed {
                HandlerView { phase: Phase::Closed, ..old(self)@ }
            } else {
                old(self)@
            },
    {
        match self.pump(inbound) {
            Some(text) => Some(Command::new(text.as_str())),
            None => None,
        }
    }

    /// Runs `command` for this connection on `game`.
    pub fn execute(&mut self, command: Command, game: &mut Session) -> (out: Outcome)
        ensures
            ({
                let step = old(self)@.step(old(game)@, command@);
                final(self)@ == step.handler && final(game)@ == step.game && out@ == step.outcome
            }),
    {
        let awaiting = self.state == Phase::AwaitingInit;
        match command {
            Command::Error(e) => Outcome::quiet(Command::Error(e)),
            Command::Kill => {
                self.state = Phase::Closed;
                Outcome::quiet(Command::Kill)
            },
            Command::Init(init) => {
                if !awaiting {
                    return Outcome::quiet(Error::new(&init.nonce, ErrorCode::AlreadyInitialized));
                }
                let done = init.execute(game);
                if let Command::Init(joined) = &done {
                    if let Some(id) = joined.player_id {
                        game.assoc_sock(id, share(&self.send));
                        *self = CommandHandler {
                            ws_id: self.ws_id,
                            player_id: Some(id),
                            state: Phase::Active,
                            send: share(&self.send),
                        };
                    }
                }
                Outcome::quiet(done)
            },
            Command::Echo(echo) => {
                if awaiting {
                    return Outcome::quiet(Error::new(&echo.nonce, ErrorCode::NotInitialized));
                }
                Outcome::quiet(Command::Echo(echo))
            },
            Command::Chat(chat) => {
                if awaiting {
                    return Outcome::quiet(Error::new(&chat.nonce, ErrorCode::NotInitialized));
                }
                match self.player_id {
                    Some(author) => chat.execute(game, author),
                    None => Outcome::quiet(Error::new(&chat.nonce, ErrorCode::NotInitialized)),
                }
            },
        }
    }

    /// Reads the command that the frame `data` asks for and runs it for this
    /// connection on `game`.
    pub fn execute_command(&mut self, data: &str, game: &mut Session) -> (out: Outcome)
        ensures
            ({
                let step = old(self)@.step(old(game)@, CommandView::parse(data@));
                final(self)@ == step.handler && final(game)@ == step.game && out@ == step.outcome
            }),
    {
        let command = Command::new(data);
        self.execute(command, game)
    }

    /// Whether the connection is over.
    pub fn is_killed(&self) -> (killed: bool)
        ensures
            killed == (self@.phase == Phase::Closed),
    {
        self.state == Phase::Closed
    }

    /// The id of the connection, for diagnostics.
    pub fn ws_id(&self) -> (id: u32)
        ensures
            id == self@.ws_id,
    {
        self.ws_id
    }

    /// Where the connection stands.
    pub fn phase(&self) -> (phase: Phase)
        ensures
            phase == self@.phase,
    {
        self.state
    }

    /// The player that the connection speaks for.
    pub fn player_id(&self) -> (id: Option<usize>)
        ensures
            id matches Some(i) ==> self@.player_id == Some(i as nat),
            id is None ==> self@.player_id is None,
    {
        self.player_id
    }

    /// The connection's own outbound channel.
    pub fn send(&self) -> (send: &SafeSender)
        ensures
            *send == self@.send,
    {
        &self.send
    }
}

} // verus!

//! The state of one game session: who hosts it, who plays and what was said.

use crate::api::command::ErrorCode;
use crate::net::{share, SafeSender};
use crate::text::option_text;
use vstd::prelude::*;

verus! {

/// One player of a session.
#[derive(Debug)]
pub struct Player {
    id: usize,
    username: String,
    sock: Option<SafeSender>,
}

/// What a `Player` stands for.
pub struct PlayerView {
    pub id: nat,
    pub username: Seq<char>,
    pub sock: Option<SafeSender>,
}

impl View for Player {
    type V = PlayerView;

    closed spec fn view(&self) -> PlayerView {
        PlayerView { id: self.id as nat, username: self.username@, sock: self.sock }
    }
}

impl Player {
    /// The index that the player got on joining.
    pub fn id(&self) -> (id: usize)
        ensures
            id == self@.id,
    {
        self.id
    }

    /// The player's name.
    pub fn username(&self) -> (name: &String)
        ensures
            name@ == self@.username,
    {
        &self.username
    }

    /// The outbound channel of the player's connection, once it has one.
    pub fn sock(&self) -> (sock: &Option<SafeSender>)
        ensures
            *sock == self@.sock,
    {
        &self.sock
    }
}

/// One entry of the chat log.
#[derive(Debug)]
pub struct ChatEntry {
    user_id: usize,
    msg_id: usize,
    content: String,
}

/// What a `ChatEntry` stands for.
pub struct ChatEntryView {
    pub user_id: nat,
    pub msg_id: nat,
    pub content: Seq<char>,
}

impl View for ChatEntry {
    type V = ChatEntryView;

    closed spec fn view(&self) -> ChatEntryView {
        ChatEntryView {
            user_id: self.user_id as nat,
            msg_id: self.msg_id as nat,
            content: self.content@,
        }
    }
}

impl ChatEntry {
    /// The id of the player who wrote the entry.
    pub fn user_id(&self) -> (id: usize)
        ensures
            id == self@.user_id,
    {
        self.user_id
    }

    /// The place of the entry in the log.
    pub fn msg_id(&self) -> (id: usize)
        ensures
            id == self@.msg_id,
    {
        self.msg_id
    }

    /// What was written.
    pub fn content(&self) -> (text: &String)
        ensures
            text@ == self@.content,
    {
        &self.content
    }
}

/// What a `Session` stands for.
pub struct SessionView {
    /// The name of the player who hosts the session, once there is one.
    pub host: Option<Seq<char>>,
    /// The secret that makes a joining player the host.
    pub host_key: Seq<char>,
    /// The players, in the order in which they joined.
    pub players: Seq<PlayerView>,
    /// The chat log, oldest entry first.
    pub chat: Seq<ChatEntryView>,
}

impl SessionView {
    /// A session before anyone has joined.
    pub open spec fn fresh(host_key: Seq<char>) -> SessionView {
        SessionView { host: None, host_key, players: Seq::empty(), chat: Seq::empty() }
    }

    /// Some player goes by `name`.
    pub open spec fn has_username(self, name: Seq<char>) -> bool {
        exists|i: int| 0 <= i < self.players.len() && #[trigger] self.players[i].username == name
    }

    /// Ids count the players in joining order, no two players share a name,
    /// the chat log is numbered in order and written by players, and the
    /// host, if any, is one of the players.
    pub open spec fn wf(self) -> bool {
        &&& forall|i: int| 0 <= i < self.players.len() ==> (#[trigger] self.players[i]).id == i
        &&& forall|i: int, j: int|
            0 <= i < j < self.players.len() ==> (#[trigger] self.players[i]).username != (
            #[trigger] self.players[j]).username
        &&& forall|k: int|
            0 <= k < self.chat.len() ==> (#[trigger] self.chat[k]).msg_id == k && self.chat[k].user_id
                < self.players.len()
        &&& self.host matches Some(name) ==> self.has_username(name)
    }

    /// The session after `username` has asked to join, offering `key` as host
    /// credential, or the reason why it did not join.
    ///
    /// A taken name is turned down first. Any credential is turned down once
    /// the session has its host. Otherwise the player is added at the end,
    /// without a connection, and hosts the session if the credential is the
    /// session's.
    pub open spec fn join(self, username: Seq<char>, key: Option<Seq<char>>) -> Result<
        SessionView,
        ErrorCode,
    > {
        if self.has_username(username) {
            Err(ErrorCode::DuplicateUsername)
        } else if key is Some && self.host is Some {
            Err(ErrorCode::HostAlreadySet)
        } else {
            Ok(
                SessionView {
                    host: if key == Some(self.host_key) {
                        Some(username)
                    } else {
                        self.host
                    },
                    players: self.players.push(
                        PlayerView { id: self.players.len(), username, sock: None },
                    ),
                    ..self
                },
            )
        }
    }

    /// The session after player `id` got the connection `send`.
    pub open spec fn assoc(self, id: int, send: SafeSender) -> SessionView {
        SessionView {
            players: self.players.update(
                id,
                PlayerView { sock: Some(send), ..self.players[id] },
            ),
            ..self
        }
    }

    /// The name of player `id`, if there is such a player.
    pub open spec fn name_of(self, id: nat) -> Option<Seq<char>> {
        if id < self.players.len() {
            Some(self.players[id as int].username)
        } else {
            None
        }
    }

    /// The id of the player called `name`, if there is one.
    pub open spec fn id_of(self, name: Seq<char>) -> Option<nat> {
        if self.has_username(name) {
            Some(
                (choose|i: int|
                    0 <= i < self.players.len() && #[trigger] self.players[i].username
                        == name) as nat,
            )
        } else {
            None
        }
    }

    /// The connections of all players but `author`, in joining order.
    pub open spec fn peers(self, author: nat) -> Seq<SafeSender> {
        self.players.filter_map(
            |p: PlayerView|
                if p.id != author {
                    p.sock
                } else {
                    None
                },
        )
    }

    /// The session after the player `author` has said `content`.
    pub open spec fn say(self, author: nat, content: Seq<char>) -> SessionView {
        SessionView {
            chat: self.chat.push(
                ChatEntryView { user_id: author, msg_id: self.chat.len(), content },
            ),
            ..self
        }
    }
}

/// The authoritative record of one game.
#[derive(Debug)]
pub struct Session {
    host: Option<String>,
    players: Vec<Player>,
    host_key: String,
    chat: Vec<ChatEntry>,
}

impl View for Session {
    type V = SessionView;

    closed spec fn view(&self) -> SessionView {
        SessionView {
            host: match self.host {
                Some(name) => Some(name@),
                None => None,
            },
            host_key: self.host_key@,
            players: self.players@.map_values(|p: Player| p@),
            chat: self.chat@.map_values(|c: ChatEntry| c@),
        }
    }
}

impl Session {
    /// Every session is well formed.
    #[verifier::type_invariant]
    pub open spec fn inv(self) -> bool {
        self@.wf()
    }

    /// A session without players, to be hosted by whoever first offers
    /// `host_key`.
    pub fn new(host_key: String) -> (session: Session)
        ensures
            session@ == SessionView::fresh(host_key@),
    {
        let session = Session { host: None, players: Vec::new(), host_key, chat: Vec::new() };
        assert(session@.players =~= Seq::empty());
        assert(session@.chat =~= Seq::empty());
        session
    }

    /// Takes the session apart, to be put together again once its parts are
    /// changed. What stays behind is a session without players.
    fn take(&mut self) -> (taken: Session)
        ensures
            taken == *old(self),
    {
        let mut taken = Session::new(String::new());
        core::mem::swap(self, &mut taken);
        taken
    }

    /// Adds a player called `username`, who offers `host_key` as host
    /// credential, and returns the new player's id.
    pub fn add_player(&mut self, username: &String, host_key: &Option<String>) -> (r: Result<
        usize,
        ErrorCode,
    >)
        ensures
            match r {
                Ok(id) => old(self)@.join(username@, option_text(*host_key)) == Ok::<
                    SessionView,
                    ErrorCode,
                >(final(self)@) && id == old(self)@.players.len(),
                Err(code) => old(self)@.join(username@, option_text(*host_key)) == Err::<
                    SessionView,
                    ErrorCode,
                >(code) && final(self)@ == old(self)@,
            },
    {
        proof {
            use_type_invariant(&*self);
        }
        if self.player_id_by_username(username.as_str()).is_some() {
            return Err(ErrorCode::DuplicateUsername);
        }
        let mut hosts: bool = false;
        if let Some(key) = host_key {
            if self.host.is_some() {
                return Err(ErrorCode::HostAlreadySet);
            }
            hosts = self.host_key == *key;
        }
        let ghost before = self@;
        let Session { host, mut players, host_key, chat } = self.take();
        let id: usize = players.len();
        players.push(Player { id, username: username.clone(), sock: None });
        let host = if hosts {
            Some(username.clone())
        } else {
            host
        };
        proof {
            let after = SessionView {
                host: option_text(host),
                host_key: host_key@,
                players: players@.map_values(|p: Player| p@),
                chat: chat@.map_values(|c: ChatEntry| c@),
            };
            let joined = PlayerView { id: id as nat, username: username@, sock: None };
            assert(after.players =~= before.players.push(joined));
            assert(after.players[id as int].username == username@);
            assert forall|i: int, j: int| 0 <= i < j < after.players.len() implies (
            #[trigger] after.players[i]).username != (#[trigger] after.players[j]).username by {
                if j == id {
                    assert(before.players[i].username != username@);
                }
            }
            if let Some(name) = before.host {
                let k = choose|k: int|
                    0 <= k < before.players.len() && #[trigger] before.players[k].username == name;
                assert(after.players[k].username == name);
            }
            assert(after.wf());
        }
        *self = Session { host, players, host_key, chat };
        Ok(id)
    }

    /// The id of the player called `username`.
    pub fn player_id_by_username(&self, username: &str) -> (r: Option<usize>)
        ensures
            r matches Some(id) ==> id < self@.players.len() && self@.players[id as int].username
                == username@,
            r is None ==> !self@.has_username(username@),
            r == option_index(self@.id_of(username@)),
    {
        proof {
            use_type_invariant(self);
        }
        let name = username.to_owned();
        let n: usize = self.players.len();
        let mut i: usize = 0;
        while i < n
            invariant
                self@.wf(),
                n == self.players@.len(),
                i <= n,
                name@ == username@,
                forall|k: int| 0 <= k < i ==> (#[trigger] self@.players[k]).username != username@,
            decreases n - i,
        {
            if self.players[i].username == name {
                proof {
                    let found = self@.players[i as int];
                    assert(found.username == username@);
                    assert(found.id == i);
                    let chosen = self@.id_of(username@)->0 as int;
                    assert(self@.players[chosen].username == username@);
                    assert(chosen == i);
                }
                return Some(self.players[i].id);
            }
            i += 1;
        }
        None
    }

    /// Gives player `id` the connection `send`, in place of any that the
    /// player had.
    pub fn assoc_sock(&mut self, id: usize, send: SafeSender)
        requires
            id < old(self)@.players.len(),
        ensures
            final(self)@ == old(self)@.assoc(id as int, send),
    {
        proof {
            use_type_invariant(&*self);
        }
        let ghost before = self@;
        let Session { host, mut players, host_key, chat } = self.take();
        players[id].sock = Some(send);
        proof {
            let after = SessionView {
                host: option_text(host),
                host_key: host_key@,
                players: players@.map_values(|p: Player| p@),
                chat: chat@.map_values(|c: ChatEntry| c@),
            };
            assert(after.players =~= before.players.update(
                id as int,
                PlayerView { sock: Some(send), ..before.players[id as int] },
            ));
            if let Some(name) = before.host {
                let k = choose|k: int|
                    0 <= k < before.players.len() && #[trigger] before.players[k].username == name;
                assert(after.players[k].username == name);
            }
            assert(after.wf());
        }
        *self = Session { host, players, host_key, chat };
    }

    /// The players, in the order in which they joined.
    pub fn players(&self) -> (players: &Vec<Player>)
        ensures
            players@.map_values(|p: Player| p@) == self@.players,
    {
        &self.players
    }

    /// The chat log, oldest entry first.
    pub fn chat(&self) -> (chat: &Vec<ChatEntry>)
        ensures
            chat@.map_values(|c: ChatEntry| c@) == self@.chat,
    {
        &self.chat
    }

    /// The name of the host, once there is one.
    pub fn host(&self) -> (host: &Option<String>)
        ensures
            option_text(*host) == self@.host,
    {
        &self.host
    }

    /// The name of player `id`.
    pub fn player_username_by_id(&self, id: usize) -> (r: Option<String>)
        ensures
            option_text(r) == self@.name_of(id as nat),
    {
        if id < self.players.len() {
            Some(self.players[id].username.clone())
        } else {
            None
        }
    }

    /// Appends what `username` said to the chat log and returns the entry's
    /// place in it.
    pub fn add_message(&mut self, username: &str, content: &str) -> (msg_id: usize)
        requires
            old(self)@.has_username(username@),
        ensures
            msg_id == old(self)@.chat.len(),
            final(self)@ == old(self)@.say(old(self)@.id_of(username@)->0, content@),
    {
        proof {
            use_type_invariant(&*self);
        }
        let id: usize = match self.player_id_by_username(username) {
            Some(id) => id,
            None => 0,
        };
        let ghost before = self@;
        let Session { host, players, host_key, mut chat } = self.take();
        let msg_id: usize = chat.len();
        chat.push(ChatEntry { user_id: id, msg_id, content: content.to_owned() });
        proof {
            let after = SessionView {
                host: option_text(host),
                host_key: host_key@,
                players: players@.map_values(|p: Player| p@),
                chat: chat@.map_values(|c: ChatEntry| c@),
            };
            assert(after.chat =~= before.chat.push(
                ChatEntryView { user_id: id as nat, msg_id: msg_id as nat, content: content@ },
            ));
            assert(after.wf());
        }
        *self = Session { host, players, host_key, chat };
        msg_id
    }

    /// The connections of all players but `author`, in joining order.
    pub fn peers(&self, author: usize) -> (socks: Vec<SafeSender>)
        ensures
            socks@ == self@.peers(author as nat),
    {
        let mut socks: Vec<SafeSender> = Vec::new();
        let n: usize = self.players.len();
        let mut i: usize = 0;
        let ghost pick = |p: PlayerView|
            if p.id != author as nat {
                p.sock
            } else {
                None
            };
        while i < n
            invariant
                n == self.players@.len(),
                i <= n,
                pick == |p: PlayerView|
                    if p.id != author as nat {
                        p.sock
                    } else {
                        None
                    },
                socks@ == self@.players.take(i as int).filter_map(pick),
            decreases n - i,
        {
            let ghost upto = self@.players.take(i + 1);
            assert(upto.drop_last() =~= self@.players.take(i as int));
            assert(upto.last() == self.players@[i as int]@);
            if self.players[i].id != author {
                if let Some(sock) = &self.players[i].sock {
                    socks.push(share(sock));
                }
            }
            i += 1;
            assert(socks@ =~= upto.filter_map(pick));
        }
        assert(self@.players.take(n as int) =~= self@.players);
        socks
    }
}

/// An optional index as a machine integer.
pub open spec fn option_index(i: Option<nat>) -> Option<usize> {
    match i {
        Some(i) => Some(i as usize),
        None => None,
    }
}

} // verus!

//! The commands of the wire protocol and their text form.

use crate::text::{
    concat, concat_from, decimal, lines, option_text, push_decimal, rest, split_lines, texts,
};
use vstd::prelude::*;

verus! {

/// Why a command was turned down.
#[derive(Debug, Clone, Copy, PartialEq, Eq, Structural)]
pub enum ErrorCode {
    /// The frame ends after its nonce.
    NoCommand,
    /// `INIT` without a username.
    MissingUsername,
    /// The username is taken.
    DuplicateUsername,
    /// `ECHO` without a payload.
    MissingPayload,
    /// The probe endpoint could not be reached.
    ConnectFailed,
    /// The probe request could not be written.
    WriteFailed,
    /// The probe reply could not be read.
    ReadFailed,
    /// A host credential was offered to a session that has its host.
    HostAlreadySet,
    /// A command other than `INIT` on a connection that has not joined.
    NotInitialized,
    /// `INIT` on a connection that has joined.
    AlreadyInitialized,
    /// The keyword is none of the protocol's.
    UnknownCommand,
    /// `CHAT` without text.
    EmptyChat,
    /// `CHAT` with more text than a message may hold.
    ChatTooLong,
}

impl ErrorCode {
    /// The number that stands for the code on the wire.
    pub open spec fn spec_number(self) -> nat {
        match self {
            ErrorCode::NoCommand => 0,
            ErrorCode::MissingUsername => 1,
            ErrorCode::DuplicateUsername => 2,
            ErrorCode::MissingPayload => 3,
            ErrorCode::ConnectFailed => 4,
            ErrorCode::WriteFailed => 5,
            ErrorCode::ReadFailed => 6,
            ErrorCode::HostAlreadySet => 7,
            ErrorCode::NotInitialized => 8,
            ErrorCode::AlreadyInitialized => 9,
            ErrorCode::UnknownCommand => 10,
            ErrorCode::EmptyChat => 11,
            ErrorCode::ChatTooLong => 12,
        }
    }

    /// The number that stands for the code on the wire.
    pub fn number(self) -> (n: usize)
        ensures
            n == self.spec_number(),
    {
        match self {
            ErrorCode::NoCommand => 0,
            ErrorCode::MissingUsername => 1,
            ErrorCode::DuplicateUsername => 2,
            ErrorCode::MissingPayload => 3,
            ErrorCode::ConnectFailed => 4,
            ErrorCode::WriteFailed => 5,
            ErrorCode::ReadFailed => 6,
            ErrorCode::HostAlreadySet => 7,
            ErrorCode::NotInitialized => 8,
            ErrorCode::AlreadyInitialized => 9,
            ErrorCode::UnknownCommand => 10,
            ErrorCode::EmptyChat => 11,
            ErrorCode::ChatTooLong => 12,
        }
    }
}

/// The most characters that a chat message may hold.
pub const MAX_CHAT_LEN: usize = 12;

/// A request to join the session.
#[derive(Debug, Clone, PartialEq, Eq)]
pub struct Init {
    pub nonce: String,
    pub username: String,
    pub host_key: Option<String>,
    /// The id that the player got; set when the command has been executed.
    pub player_id: Option<usize>,
}

/// A round trip through the probe endpoint.
#[derive(Debug, Clone, PartialEq, Eq)]
pub struct Echo {
    pub nonce: String,
    pub msg: String,
    /// What the probe endpoint answered; set when the command has been
    /// executed.
    pub resp: String,
}

/// A chat message to the other players.
#[derive(Debug, Clone, PartialEq, Eq)]
pub struct Chat {
    pub nonce: String,
    pub text: String,
}

/// A command that was turned down.
#[derive(Debug, Clone, PartialEq, Eq)]
pub struct Error {
    pub nonce: String,
    pub code: ErrorCode,
}

/// What one frame from a client asks for.
#[derive(Debug, Clone, PartialEq, Eq)]
pub enum Command {
    Init(Init),
    Echo(Echo),
    Chat(Chat),
    Error(Error),
    /// The frame held not even a nonce: the connection is to be closed.
    Kill,
}

/// What a `Command` stands for.
pub enum CommandView {
    Init { nonce: Seq<char>, username: Seq<char>, host_key: Option<Seq<char>>, player_id: Option<nat> },
    Echo { nonce: Seq<char>, msg: Seq<char>, resp: Seq<char> },
    Chat { nonce: Seq<char>, text: Seq<char> },
    Error { nonce: Seq<char>, code: ErrorCode },
    Kill,
}

impl View for Init {
    type V = CommandView;

    open spec fn view(&self) -> CommandView {
        CommandView::Init {
            nonce: self.nonce@,
            username: self.username@,
            host_key: option_text(self.host_key),
            player_id: match self.player_id {
                Some(id) => Some(id as nat),
                None => None,
            },
        }
    }
}

impl View for Echo {
    type V = CommandView;

    open spec fn view(&self) -> CommandView {
        CommandView::Echo { nonce: self.nonce@, msg: self.msg@, resp: self.resp@ }
    }
}

impl View for Chat {
    type V = CommandView;

    open spec fn view(&self) -> CommandView {
        CommandView::Chat { nonce: self.nonce@, text: self.text@ }
    }
}

impl View for Error {
    type V = CommandView;

    open spec fn view(&self) -> CommandView {
        CommandView::Error { nonce: self.nonce@, code: self.code }
    }
}

impl View for Command {
    type V = CommandView;

    open spec fn view(&self) -> CommandView {
        match self {
            Command::Init(c) => c@,
            Command::Echo(c) => c@,
            Command::Chat(c) => c@,
            Command::Error(c) => c@,
            Command::Kill => CommandView::Kill,
        }
    }
}

impl CommandView {
    /// The command that a frame with the lines `request` asks for.
    ///
    /// The first line is the nonce and the second the keyword. What follows
    /// depends on the keyword: `INIT` takes a username and may take a host
    /// credential, `ECHO` takes a payload, and `CHAT` takes all further lines
    /// together as its text.
    pub open spec fn of_lines(request: Seq<Seq<char>>) -> CommandView {
        if request.len() == 0 {
            CommandView::Kill
        } else if request.len() == 1 {
            CommandView::Error { nonce: request[0], code: ErrorCode::NoCommand }
        } else if request[1] == "INIT"@ {
            CommandView::init_of(request[0], request)
        } else if request[1] == "ECHO"@ {
            CommandView::echo_of(request[0], request)
        } else if request[1] == "CHAT"@ {
            CommandView::chat_of(request[0], request)
        } else {
            CommandView::Error { nonce: request[0], code: ErrorCode::UnknownCommand }
        }
    }

    /// The `INIT` command of a frame with the lines `request`.
    pub open spec fn init_of(nonce: Seq<char>, request: Seq<Seq<char>>) -> CommandView {
        if request.len() < 3 {
            CommandView::Error { nonce, code: ErrorCode::MissingUsername }
        } else {
            CommandView::Init {
                nonce,
                username: request[2],
                host_key: if request.len() >= 4 {
                    Some(request[3])
                } else {
                    None
                },
                player_id: None,
            }
        }
    }

    /// The `ECHO` command of a frame with the lines `request`.
    pub open spec fn echo_of(nonce: Seq<char>, request: Seq<Seq<char>>) -> CommandView {
        if request.len() < 3 {
            CommandView::Error { nonce, code: ErrorCode::MissingPayload }
        } else {
            CommandView::Echo { nonce, msg: request[2], resp: Seq::empty() }
        }
    }

    /// The `CHAT` command of a frame with the lines `request`.
    pub open spec fn chat_of(nonce: Seq<char>, request: Seq<Seq<char>>) -> CommandView {
        let text = concat(rest(request, 2));
        if text.len() == 0 {
            CommandView::Error { nonce, code: ErrorCode::EmptyChat }
        } else if text.len() > MAX_CHAT_LEN {
            CommandView::Error { nonce, code: ErrorCode::ChatTooLong }
        } else {
            CommandView::Chat { nonce, text }
        }
    }

    /// The nonce of the command; a command to close the connection has none.
    pub open spec fn nonce(self) -> Seq<char> {
        match self {
            CommandView::Init { nonce, .. } => nonce,
            CommandView::Echo { nonce, .. } => nonce,
            CommandView::Chat { nonce, .. } => nonce,
            CommandView::Error { nonce, .. } => nonce,
            CommandView::Kill => Seq::empty(),
        }
    }

    /// The command that the frame `data` asks for.
    pub open spec fn parse(data: Seq<char>) -> CommandView {
        CommandView::of_lines(lines(data))
    }

    /// The frame that answers the command.
    ///
    /// Success is the nonce and a payload on the next line; failure is the
    /// nonce behind a minus sign and the error's number on the next line. A
    /// connection that is being closed gets a last notice.
    pub open spec fn frame(self) -> Seq<char> {
        match self {
            CommandView::Init { nonce, .. } => nonce + "\nSUCCESS"@,
            CommandView::Echo { nonce, resp, .. } => nonce + "\n"@ + resp,
            CommandView::Chat { nonce, .. } => nonce + "\nSUCCESS"@,
            CommandView::Error { nonce, code } => "-"@ + nonce + "\n"@ + decimal(code.spec_number()),
            CommandView::Kill => "0\nEMPTY\n0"@,
        }
    }
}

/// Whether `line` is the keyword `word`.
fn is_keyword(line: &String, word: &str) -> (same: bool)
    ensures
        same == (line@ == word@),
{
    let word = word.to_owned();
    *line == word
}

impl Error {
    /// The command that answers `nonce` with the error `code`.
    pub fn new(nonce: &String, code: ErrorCode) -> (c: Command)
        ensures
            c@ == (CommandView::Error { nonce: nonce@, code }),
    {
        Command::Error(Error { nonce: nonce.clone(), code })
    }
}

impl Init {
    /// The `INIT` command of a frame with the lines `request`.
    pub fn new(nonce: &String, request: &Vec<String>) -> (c: Command)
        ensures
            c@ == CommandView::init_of(nonce@, texts(request@)),
    {
        if request.len() < 3 {
            return Error::new(nonce, ErrorCode::MissingUsername);
        }
        let host_key = if request.len() >= 4 {
            Some(request[3].clone())
        } else {
            None
        };
        Command::Init(
            Init { nonce: nonce.clone(), username: request[2].clone(), host_key, player_id: None },
        )
    }
}

impl Echo {
    /// The `ECHO` command of a frame with the lines `request`.
    pub fn new(nonce: &String, request: &Vec<String>) -> (c: Command)
        ensures
            c@ == CommandView::echo_of(nonce@, texts(request@)),
    {
        if request.len() < 3 {
            return Error::new(nonce, ErrorCode::MissingPayload);
        }
        Command::Echo(Echo { nonce: nonce.clone(), msg: request[2].clone(), resp: String::new() })
    }
}

impl Chat {
    /// The `CHAT` command of a frame with the lines `request`.
    pub fn new(nonce: &String, request: &Vec<String>) -> (c: Command)
        ensures
            c@ == CommandView::chat_of(nonce@, texts(request@)),
    {
        let text = concat_from(request, 2);
        let len: usize = text.as_str().unicode_len();
        if len == 0 {
            Error::new(nonce, ErrorCode::EmptyChat)
        } else if len > MAX_CHAT_LEN {
            Error::new(nonce, ErrorCode::ChatTooLong)
        } else {
            Command::Chat(Chat { nonce: nonce.clone(), text })
        }
    }
}

impl Command {
    /// Reads the command that the frame `data` asks for.
    pub fn new(data: &str) -> (c: Command)
        ensures
            c@ == CommandView::parse(data@),
    {
        let request = split_lines(data);
        if request.len() == 0 {
            return Command::Kill;
        }
        let nonce = request[0].clone();
        if request.len() == 1 {
            return Error::new(&nonce, ErrorCode::NoCommand);
        }
        if is_keyword(&request[1], "INIT") {
            Init::new(&nonce, &request)
        } else if is_keyword(&request[1], "ECHO") {
            Echo::new(&nonce, &request)
        } else if is_keyword(&request[1], "CHAT") {
            Chat::new(&nonce, &request)
        } else {
            Error::new(&nonce, ErrorCode::UnknownCommand)
        }
    }

    /// The nonce under which the client sent the command. The command that
    /// closes the connection has none.
    pub fn nonce(&self) -> (nonce: Option<&String>)
        ensures
            match nonce {
                Some(n) => !(self is Kill) && n@ == self@.nonce(),
                None => self is Kill,
            },
    {
        match self {
            Command::Init(c) => Some(&c.nonce),
            Command::Echo(c) => Some(&c.nonce),
            Command::Chat(c) => Some(&c.nonce),
            Command::Error(c) => Some(&c.nonce),
            Command::Kill => None,
        }
    }

    /// Whether the command asks to join the session.
    pub fn is_init(&self) -> (b: bool)
        ensures
            b == (self is Init),
    {
        match self {
            Command::Init(_) => true,
            _ => false,
        }
    }

    /// Whether the command was turned down.
    pub fn is_error(&self) -> (b: bool)
        ensures
            b == (self is Error),
    {
        match self {
            Command::Error(_) => true,
            _ => false,
        }
    }

    /// Whether the command closes the connection.
    pub fn is_kill(&self) -> (b: bool)
        ensures
            b == (self is Kill),
    {
        match self {
            Command::Kill => true,
            _ => false,
        }
    }

    /// Why the command was turned down, if it was.
    pub fn error_code(&self) -> (code: Option<ErrorCode>)
        ensures
            code == match self@ {
                CommandView::Error { code, .. } => Some(code),
                _ => None,
            },
    {
        match self {
            Command::Error(e) => Some(e.code),
            _ => None,
        }
    }

    /// The frame that answers the command.
    pub fn respond(&self) -> (frame: String)
        ensures
            frame@ == self@.frame(),
    {
        match self {
            Command::Init(c) => {
                let mut frame = c.nonce.clone();
                frame.append("\nSUCCESS");
                frame
            },
            Command::Echo(c) => {
                let mut frame = c.nonce.clone();
                frame.append("\n");
                frame.append(c.resp.as_str());
                frame
            },
            Command::Chat(c) => {
                let mut frame = c.nonce.clone();
                frame.append("\nSUCCESS");
                frame
            },
            Command::Error(c) => {
                let mut frame = "-".to_owned();
                frame.append(c.nonce.as_str());
                frame.append("\n");
                push_decimal(&mut frame, c.code.number());
                frame
            },
            Command::Kill => "0\nEMPTY\n0".to_owned(),
        }
    }
}

} // verus!

//! What holds of a session and its connections whatever the clients send.

use crate::api::command::{CommandView, ErrorCode};
use crate::api::front::{HandlerView, OutcomeView, Phase};
use crate::game::SessionView;
use crate::text::{
    concat, join_lines, lemma_lines_of_join, lemma_lines_prepend, lemma_lines_single, lines,
    lines_from, one_line, rest, separable, trim_cr,
};
use vstd::prelude::*;

verus! {

/// A request to join: a username and the host credential that comes with it,
/// if any.
pub struct Join {
    pub username: Seq<char>,
    pub host_key: Option<Seq<char>>,
}

/// The session after the requests `joins` were made of it, one after the
/// other. A request that is turned down leaves the session as it was.
pub open spec fn after_joins(game: SessionView, joins: Seq<Join>) -> SessionView
    decreases joins.len(),
{
    if joins.len() == 0 {
        game
    } else {
        let before = after_joins(game, joins.drop_last());
        match before.join(joins.last().username, joins.last().host_key) {
            Ok(next) => next,
            Err(_) => before,
        }
    }
}

/// What the request `joins[i]` comes to when the requests `joins` are made of
/// `game`, one after the other: the id of the new player, or the reason why
/// there is none.
pub open spec fn join_result(game: SessionView, joins: Seq<Join>, i: int) -> Result<nat, ErrorCode> {
    let before = after_joins(game, joins.take(i));
    match before.join(joins[i].username, joins[i].host_key) {
        Ok(_) => Ok(before.players.len()),
        Err(code) => Err(code),
    }
}

/// No two of the requests bear the same username.
pub open spec fn distinct_usernames(joins: Seq<Join>) -> bool {
    forall|i: int, j: int|
        0 <= i < j < joins.len() ==> (#[trigger] joins[i]).username != (#[trigger] joins[j]).username
}

/// No request comes with a credential after one that came with the
/// session's own.
pub open spec fn no_late_credential(joins: Seq<Join>, host_key: Seq<char>) -> bool {
    forall|i: int, j: int|
        0 <= i < j < joins.len() && (#[trigger] joins[j]).host_key is Some ==> (
        #[trigger] joins[i]).host_key != Some(host_key)
}

/// Joining keeps a session well formed.
pub proof fn lemma_join_wf(game: SessionView, username: Seq<char>, host_key: Option<Seq<char>>)
    requires
        game.wf(),
    ensures
        game.join(username, host_key) matches Ok(next) ==> next.wf(),
{
    if let Ok(next) = game.join(username, host_key) {
        assert(next.players[game.players.len() as int].username == username);
        assert forall|i: int, j: int| 0 <= i < j < next.players.len() implies (
        #[trigger] next.players[i]).username != (#[trigger] next.players[j]).username by {
            if j == game.players.len() {
                assert(game.players[i].username != username);
            }
        }
        if let Some(name) = game.host {
            let k = choose|k: int|
                0 <= k < game.players.len() && #[trigger] game.players[k].username == name;
            assert(next.players[k].username == name);
        }
    }
}

/// What is known of a session without players after requests under names
/// all different, with no credential after the one that found the host.
proof fn lemma_joins_in_order(game: SessionView, joins: Seq<Join>)
    requires
        game.wf(),
        game.players.len() == 0,
        distinct_usernames(joins),
        no_late_credential(joins, game.host_key),
    ensures
        after_joins(game, joins).wf(),
        after_joins(game, joins).host_key == game.host_key,
        after_joins(game, joins).players.len() == joins.len(),
        forall|k: int|
            0 <= k < joins.len() ==> (#[trigger] after_joins(game, joins).players[k]).username
                == joins[k].username,
        after_joins(game, joins).host is Some ==> exists|k: int|
            0 <= k < joins.len() && (#[trigger] joins[k]).host_key == Some(game.host_key),
    decreases joins.len(),
{
    if joins.len() > 0 {
        let front = joins.drop_last();
        let last = joins.last();
        assert forall|i: int, j: int| 0 <= i < j < front.len() implies (#[trigger] front[i]).username
            != (#[trigger] front[j]).username by {
            assert(front[i] == joins[i] && front[j] == joins[j]);
        }
        assert forall|i: int, j: int|
            0 <= i < j < front.len() && (#[trigger] front[j]).host_key is Some implies (
        #[trigger] front[i]).host_key != Some(game.host_key) by {
            assert(front[i] == joins[i] && front[j] == joins[j]);
        }
        lemma_joins_in_order(game, front);
        let before = after_joins(game, front);
        if before.has_username(last.username) {
            let k = choose|k: int|
                0 <= k < before.players.len() && #[trigger] before.players[k].username
                    == last.username;
            assert(joins[k].username == front[k].username);
            assert(joins[joins.len() - 1] == last);
            assert(false);
        }
        if last.host_key is Some && before.host is Some {
            let k = choose|k: int|
                0 <= k < front.len() && (#[trigger] front[k]).host_key == Some(game.host_key);
            assert(front[k] == joins[k]);
            assert(joins[joins.len() - 1] == last);
            assert(false);
        }
        lemma_join_wf(before, last.username, last.host_key);
        let after = after_joins(game, joins);
        assert forall|k: int| 0 <= k < joins.len() implies (#[trigger] after.players[k]).username
            == joins[k].username by {
            if k < front.len() {
                assert(after.players[k] == before.players[k]);
                assert(front[k] == joins[k]);
            }
        }
        if after.host is Some {
            if before.host is Some {
                let k = choose|k: int|
                    0 <= k < front.len() && (#[trigger] front[k]).host_key == Some(game.host_key);
                assert(joins[k] == front[k]);
            } else {
                assert(joins[joins.len() - 1].host_key == Some(game.host_key));
            }
        }
    }
}

/// Players who join a session without players under names that are all
/// different get the ids 0, 1, 2 and so on, in the order in which they ask,
/// and stand in the roster in that order. This is said of requests none of
/// which comes with a credential after one that came with the session's own:
/// such a request is turned down, since the session has its host.
pub proof fn lemma_ids_follow_join_order(game: SessionView, joins: Seq<Join>)
    requires
        game.wf(),
        game.players.len() == 0,
        distinct_usernames(joins),
        no_late_credential(joins, game.host_key),
    ensures
        forall|i: int|
            0 <= i < joins.len() ==> #[trigger] join_result(game, joins, i) == Ok::<nat, ErrorCode>(
                i as nat,
            ),
        after_joins(game, joins).players.len() == joins.len(),
        forall|i: int|
            0 <= i < joins.len() ==> {
                &&& (#[trigger] after_joins(game, joins).players[i]).id == i
                &&& after_joins(game, joins).players[i].username == joins[i].username
            },
{
    lemma_joins_in_order(game, joins);
    assert forall|i: int| 0 <= i < joins.len() implies #[trigger] join_result(game, joins, i)
        == Ok::<nat, ErrorCode>(i as nat) by {
        let upto = joins.take(i + 1);
        assert forall|a: int, b: int| 0 <= a < b < upto.len() implies (#[trigger] upto[a]).username
            != (#[trigger] upto[b]).username by {
            assert(upto[a] == joins[a] && upto[b] == joins[b]);
        }
        assert forall|a: int, b: int|
            0 <= a < b < upto.len() && (#[trigger] upto[b]).host_key is Some implies (
        #[trigger] upto[a]).host_key != Some(game.host_key) by {
            assert(upto[a] == joins[a] && upto[b] == joins[b]);
        }
        lemma_joins_in_order(game, upto);
        assert(upto.drop_last() =~= joins.take(i));
        assert(upto.last() == joins[i]);
        let before = after_joins(game, joins.take(i));
        let front = joins.take(i);
        assert forall|a: int, b: int| 0 <= a < b < front.len() implies (#[trigger] front[a]).username
            != (#[trigger] front[b]).username by {
            assert(front[a] == joins[a] && front[b] == joins[b]);
        }
        assert forall|a: int, b: int|
            0 <= a < b < front.len() && (#[trigger] front[b]).host_key is Some implies (
        #[trigger] front[a]).host_key != Some(game.host_key) by {
            assert(front[a] == joins[a] && front[b] == joins[b]);
        }
        lemma_joins_in_order(game, front);
        assert(after_joins(game, upto).players.len() == i + 1);
        assert(before.players.len() == i);
    }
}

/// A request to join under a name that a player of the session bears is
/// turned down as a duplicate, whatever credential comes with it, and on a
/// connection that nobody has joined over yet the client is told so while
/// session and connection stay as they were.
pub proof fn lemma_duplicate_username_rejected(
    handler: HandlerView,
    game: SessionView,
    nonce: Seq<char>,
    username: Seq<char>,
    host_key: Option<Seq<char>>,
)
    requires
        game.has_username(username),
    ensures
        game.join(username, host_key) == Err::<SessionView, ErrorCode>(ErrorCode::DuplicateUsername),
        handler.phase == Phase::AwaitingInit ==> {
            let step = handler.step(
                game,
                CommandView::Init { nonce, username, host_key, player_id: None },
            );
            &&& step.handler == handler
            &&& step.game == game
            &&& step.outcome == OutcomeView::quiet(
                CommandView::Error { nonce, code: ErrorCode::DuplicateUsername },
            )
        },
{
}

/// A session that has its host keeps it: no command changes who hosts, and a
/// request to join under a new name that comes with a credential, even the
/// right one, is turned down because the host is set.
pub proof fn lemma_host_is_set_once(
    handler: HandlerView,
    game: SessionView,
    command: CommandView,
    username: Seq<char>,
    host_key: Seq<char>,
)
    requires
        game.host is Some,
    ensures
        handler.step(game, command).game.host == game.host,
        !game.has_username(username) ==> game.join(username, Some(host_key)) == Err::<
            SessionView,
            ErrorCode,
        >(ErrorCode::HostAlreadySet),
        game.join(username, None) matches Ok(next) ==> next.host == game.host,
{
}

/// Only a request that comes with the session's own credential makes a
/// player the host, and then the host is that player.
pub proof fn lemma_host_needs_the_credential(
    game: SessionView,
    username: Seq<char>,
    host_key: Option<Seq<char>>,
)
    requires
        game.host is None,
    ensures
        game.join(username, host_key) matches Ok(next) ==> next.host == if host_key == Some(
            game.host_key,
        ) {
            Some(username)
        } else {
            None
        },
{
}

/// On a connection that nobody has joined over yet, `ECHO` and `CHAT` are
/// answered with the error that the connection is not initialized, and
/// session and connection stay as they were. Once a player has joined over
/// the connection, the same command is accepted: `ECHO` goes on to its round
/// trip, and `CHAT` is answered as sent and stands last in the log.
pub proof fn lemma_commands_wait_for_init(
    handler: HandlerView,
    game: SessionView,
    init: CommandView,
    command: CommandView,
)
    requires
        game.wf(),
        handler.phase == Phase::AwaitingInit,
        init is Init,
        command is Echo || command is Chat,
    ensures
        handler.step(game, command).handler == handler,
        handler.step(game, command).game == game,
        handler.step(game, command).outcome == OutcomeView::quiet(
            CommandView::Error { nonce: command.nonce(), code: ErrorCode::NotInitialized },
        ),
        handler.step(game, init).outcome.command is Init ==> {
            let joined = handler.step(game, init);
            let then = joined.handler.step(joined.game, command);
            &&& joined.handler.phase == Phase::Active
            &&& joined.handler.player_id == Some(game.players.len())
            &&& then.outcome.command == command
            &&& then.handler == joined.handler
            &&& command is Echo ==> then.game == joined.game
            &&& command matches CommandView::Chat { text, .. } ==> {
                &&& then.game.chat.len() == joined.game.chat.len() + 1
                &&& then.game.chat.last().content == text
                &&& then.game.chat.last().user_id == game.players.len()
            }
        },
{
    let joined = handler.step(game, init);
    if joined.outcome.command is Init {
        let id = game.players.len();
        match init {
            CommandView::Init { username, host_key, .. } => {
                let next = game.join(username, host_key)->Ok_0;
                assert(joined.game == next.assoc(id as int, handler.send));
                assert(joined.game.players.len() == id + 1);
                assert(joined.game.name_of(id) is Some);
            },
            _ => {},
        }
    }
}

/// A `CHAT` whose text has no characters is turned down as empty, and one
/// with more than twelve as too long. One with up to twelve is accepted, and
/// on a connection that speaks for a player of the session it adds exactly
/// one entry to the log: what was said, under the player's id.
pub proof fn lemma_chat_length(
    handler: HandlerView,
    game: SessionView,
    nonce: Seq<char>,
    request: Seq<Seq<char>>,
    author: nat,
)
    ensures
        ({
            let text = concat(rest(request, 2));
            let command = CommandView::chat_of(nonce, request);
            &&& text.len() == 0 ==> command == (CommandView::Error {
                nonce,
                code: ErrorCode::EmptyChat,
            })
            &&& text.len() > 12 ==> command == (CommandView::Error {
                nonce,
                code: ErrorCode::ChatTooLong,
            })
            &&& 0 < text.len() <= 12 ==> {
                &&& command == (CommandView::Chat { nonce, text })
                &&& handler.phase != Phase::AwaitingInit && handler.player_id == Some(author)
                    && author < game.players.len() ==> {
                    let step = handler.step(game, command);
                    &&& step.outcome.command == command
                    &&& step.game.chat == game.chat.push(
                        crate::game::ChatEntryView {
                            user_id: author,
                            msg_id: game.chat.len(),
                            content: text,
                        },
                    )
                    &&& step.game.players == game.players
                    &&& step.game.host == game.host
                }
            }
        }),
{
}

/// The frame that a client sends to say `text` under `nonce`, both without
/// line feed: it is turned down as empty where the text has no characters and
/// as too long where it has more than twelve, as with thirteen, and asks for
/// the chat message otherwise, as with twelve.
pub proof fn lemma_chat_frame(nonce: Seq<char>, text: Seq<char>)
    requires
        one_line(nonce),
        one_line(text),
        nonce.len() == 0 || nonce.last() != '\r',
    ensures
        CommandView::parse(nonce + "\nCHAT\n"@ + text) == if text.len() == 0 {
            CommandView::Error { nonce, code: ErrorCode::EmptyChat }
        } else if text.len() > 12 {
            CommandView::Error { nonce, code: ErrorCode::ChatTooLong }
        } else {
            CommandView::Chat { nonce, text }
        },
{
    reveal_strlit("\nCHAT\n");
    reveal_strlit("CHAT");
    reveal_strlit("INIT");
    reveal_strlit("ECHO");
    let keyword = "CHAT"@;
    let frame = nonce + "\nCHAT\n"@ + text;
    assert("\nCHAT\n"@ =~= seq!['\n'] + keyword + seq!['\n']);
    assert(frame =~= nonce + seq!['\n'] + (keyword + seq!['\n'] + text));
    lemma_lines_prepend(nonce, keyword + seq!['\n'] + text);
    lemma_lines_prepend(keyword, text);
    lemma_lines_single(text);
    assert(trim_cr(keyword) == keyword);
    assert(trim_cr(nonce) == nonce);
    let request = lines(frame);
    assert(keyword != "INIT"@) by {
        assert(keyword[0] == 'C');
        assert("INIT"@[0] == 'I');
    }
    assert(keyword != "ECHO"@) by {
        assert(keyword[0] == 'C');
        assert("ECHO"@[0] == 'E');
    }
    if text.len() == 0 {
        assert(request =~= seq![nonce, keyword]);
        assert(rest(request, 2) =~= Seq::<Seq<char>>::empty());
    } else {
        assert(request =~= seq![nonce, keyword, text]);
        assert(rest(request, 2) =~= seq![text]);
        assert(seq![text].drop_last() =~= Seq::<Seq<char>>::empty());
        assert(concat(seq![text]) =~= text) by {
            reveal_with_fuel(concat, 2);
        }
    }
}

/// A frame made of lines that can be told apart asks for what its lines say.
/// So the frame of a nonce, `INIT`, a username and a credential asks that
/// the player join with that credential, and the frame of a nonce, `ECHO`
/// and a payload asks for the round trip of that payload.
pub proof fn lemma_frame_of_lines(request: Seq<Seq<char>>)
    requires
        separable(request),
    ensures
        CommandView::parse(join_lines(request)) == CommandView::of_lines(request),
        request.len() == 4 && request[1] == "INIT"@ ==> CommandView::parse(join_lines(request))
            == (CommandView::Init {
            nonce: request[0],
            username: request[2],
            host_key: Some(request[3]),
            player_id: None,
        }),
        request.len() == 3 && request[1] == "INIT"@ ==> CommandView::parse(join_lines(request))
            == (CommandView::Init {
            nonce: request[0],
            username: request[2],
            host_key: None,
            player_id: None,
        }),
        request.len() == 3 && request[1] == "ECHO"@ ==> CommandView::parse(join_lines(request))
            == (CommandView::Echo { nonce: request[0], msg: request[2], resp: Seq::empty() }),
{
    lemma_lines_of_join(request);
    reveal_strlit("INIT");
    reveal_strlit("ECHO");
    assert("ECHO"@ != "INIT"@) by {
        assert("ECHO"@[0] == 'E');
        assert("INIT"@[0] == 'I');
    }
}

/// `ECHO` never touches the session, however its round trip ends.
pub proof fn lemma_echo_leaves_the_session(handler: HandlerView, game: SessionView, echo: CommandView)
    requires
        echo is Echo,
    ensures
        handler.step(game, echo).game == game,
        handler.step(game, echo).outcome.deliveries.len() == 0,
{
}

/// A frame has no lines exactly when it has no characters. Such a frame, and
/// no other, asks to close the connection: whatever the connection's phase,
/// it is closed, the session stays as it was, and the client gets the last
/// notice.
pub proof fn lemma_empty_frame_kills(handler: HandlerView, game: SessionView, data: Seq<char>)
    ensures
        lines(data).len() == 0 <==> data.len() == 0,
        CommandView::parse(data) is Kill <==> data.len() == 0,
        data.len() == 0 ==> {
            let step = handler.step(game, CommandView::parse(data));
            &&& step.handler == (HandlerView { phase: Phase::Closed, ..handler })
            &&& step.game == game
            &&& step.outcome == OutcomeView::quiet(CommandView::Kill)
            &&& step.outcome.command.frame() == "0\nEMPTY\n0"@
        },
{
    if data.len() > 0 {
        crate::text::lemma_line_end_bounds(data, 0);
        assert(lines_from(data, 0).len() > 0);
    }
}

/// No command reopens a closed connection.
pub proof fn lemma_closed_is_terminal(handler: HandlerView, game: SessionView, command: CommandView)
    requires
        handler.phase == Phase::Closed,
    ensures
        handler.step(game, command).handler == handler,
{
}

/// A command leaves a well-formed session well formed, keeps its credential
/// and its players as they are, and takes nothing out of the chat log nor
/// changes what stands in it. At most one player is added, and then it is
/// the player that the connection speaks for from now on, reached over the
/// connection's own channel. A connection that speaks for a player goes on
/// to do so.
pub proof fn lemma_step_keeps_history(handler: HandlerView, game: SessionView, command: CommandView)
    requires
        game.wf(),
    ensures
        handler.step(game, command).game.wf(),
        handler.wf() ==> handler.step(game, command).handler.wf(),
        handler.step(game, command).game.host_key == game.host_key,
        game.players.len() <= handler.step(game, command).game.players.len() <= game.players.len()
            + 1,
        forall|i: int|
            0 <= i < game.players.len() ==> #[trigger] handler.step(game, command).game.players[i]
                == game.players[i],
        handler.step(game, command).game.players.len() > game.players.len() ==> {
            let step = handler.step(game, command);
            &&& handler.phase == Phase::AwaitingInit
            &&& step.handler.phase == Phase::Active
            &&& step.handler.player_id == Some(game.players.len())
            &&& step.game.players.last().id == game.players.len()
            &&& step.game.players.last().sock == Some(handler.send)
        },
        game.chat.len() <= handler.step(game, command).game.chat.len(),
        forall|k: int|
            0 <= k < game.chat.len() ==> #[trigger] handler.step(game, command).game.chat[k]
                == game.chat[k],
        handler.wf() && handler.player_id is Some ==> handler.step(game, command).handler.player_id
            == handler.player_id,
{
    let step = handler.step(game, command);
    if handler.gate(command) is None {
        match command {
            CommandView::Init { username, host_key, .. } => {
                lemma_join_wf(game, username, host_key);
                if let Ok(next) = game.join(username, host_key) {
                    let id = game.players.len() as int;
                    let last = next.assoc(id, handler.send);
                    assert(last.chat == game.chat);
                    if let Some(name) = next.host {
                        let k = choose|k: int|
                            0 <= k < next.players.len() && #[trigger] next.players[k].username
                                == name;
                        assert(last.players[k].username == name);
                    }
                    assert(last.wf());
                }
            },
            CommandView::Chat { nonce, text } => {
                if let Some(author) = handler.player_id {
                    if game.name_of(author) is Some {
                        let last = game.say(author, text);
                        if let Some(name) = game.host {
                            let k = choose|k: int|
                                0 <= k < game.players.len() && #[trigger] game.players[k].username
                                    == name;
                            assert(last.players[k].username == name);
                        }
                        assert(last.wf());
                    }
                }
            },
            _ => {},
        }
    }
}

} // verus!

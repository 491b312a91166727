//! The chat application above the engine: a book of the peers it has
//! connected to, with what the last probe said of each, and the history of
//! the messages it has sent.
use vstd::prelude::*;
use vstd::string::*;
use crate::command::{
    command_spec,
    connect_reply,
    connect_reply_spec,
    history_line,
    history_line_spec,
    history_reply,
    history_reply_spec,
    nick_reply,
    nick_reply_spec,
    parse_command,
    peer_line,
    peer_line_spec,
    peers_reply,
    peers_reply_spec,
    reply_spec,
    send_reply,
    send_reply_spec,
    status_reply,
    status_reply_spec,
    Command,
    CommandView,
};
use crate::config::Config;
use crate::engine::ReachEngine;
use crate::identity::UserCredentials;
use crate::message::{EncryptedMessage, Message, MessageView};
use crate::network::{
    connect_done,
    names_peer,
    network_error_text,
    send_prepared,
    sent_confirmed,
    NetworkError,
};
use crate::peer::{Peer, PeerPingStatus};
use crate::stamp::{id_text, id_text_spec, time_text, time_text_spec};
use crate::text::{
    copy_optional_text,
    copy_text,
    optional_view,
    or_empty,
    text_or_empty,
    texts_view,
    words_spec,
};

verus! {

/// A message as the application remembers it.
#[derive(Debug)]
pub struct ChatMessage {
    pub id: String,
    pub from_user_id: String,
    pub to_user_id: String,
    pub content: String,
    pub timestamp: i64,
    pub encrypted: bool,
    pub message_type: String,
}

/// The mathematical value of a [`ChatMessage`].
pub struct ChatMessageView {
    pub id: Seq<char>,
    pub from_user_id: Seq<char>,
    pub to_user_id: Seq<char>,
    pub content: Seq<char>,
    pub timestamp: i64,
    pub encrypted: bool,
    pub message_type: Seq<char>,
}

impl View for ChatMessage {
    type V = ChatMessageView;

    open spec fn view(&self) -> ChatMessageView {
        ChatMessageView {
            id: self.id@,
            from_user_id: self.from_user_id@,
            to_user_id: self.to_user_id@,
            content: self.content@,
            timestamp: self.timestamp,
            encrypted: self.encrypted,
            message_type: self.message_type@,
        }
    }
}

impl Clone for ChatMessage {
    fn clone(&self) -> (copy: ChatMessage)
        ensures
            copy@ == self@,
    {
        ChatMessage {
            id: copy_text(&self.id),
            from_user_id: copy_text(&self.from_user_id),
            to_user_id: copy_text(&self.to_user_id),
            content: copy_text(&self.content),
            timestamp: self.timestamp,
            encrypted: self.encrypted,
            message_type: copy_text(&self.message_type),
        }
    }
}

/// A peer as the application remembers it.
#[derive(Debug)]
pub struct ConnectedPeer {
    pub id: String,
    pub email: String,
    pub nickname: Option<String>,
    pub is_online: bool,
    pub last_seen: i64,
    pub response_time: Option<u64>,
}

/// The view of an optional text.
pub open spec fn nickname_view(nickname: Option<String>) -> Option<Seq<char>> {
    match nickname {
        Some(name) => Some(name@),
        None => None,
    }
}

/// The mathematical value of a [`ConnectedPeer`].
pub struct ConnectedPeerView {
    pub id: Seq<char>,
    pub email: Seq<char>,
    pub nickname: Option<Seq<char>>,
    pub is_online: bool,
    pub last_seen: i64,
    pub response_time: Option<u64>,
}

impl View for ConnectedPeer {
    type V = ConnectedPeerView;

    open spec fn view(&self) -> ConnectedPeerView {
        ConnectedPeerView {
            id: self.id@,
            email: self.email@,
            nickname: nickname_view(self.nickname),
            is_online: self.is_online,
            last_seen: self.last_seen,
            response_time: self.response_time,
        }
    }
}

impl Clone for ConnectedPeer {
    fn clone(&self) -> (copy: ConnectedPeer)
        ensures
            copy@ == self@,
    {
        ConnectedPeer {
            id: copy_text(&self.id),
            email: copy_text(&self.email),
            nickname: copy_optional_text(&self.nickname),
            is_online: self.is_online,
            last_seen: self.last_seen,
            response_time: self.response_time,
        }
    }
}

/// Why the application did not send a message.
#[derive(Debug, Clone, Copy, PartialEq, Eq, Structural)]
pub enum ChatError {
    /// The peer is not connected or did not answer the probe.
    PeerOffline,
    /// The network refused.
    Network(NetworkError),
}

/// What the application shows of its user.
#[derive(Debug)]
pub struct UserSummary {
    pub user_id: String,
    pub email: String,
    pub nickname: Option<String>,
    pub public_key: String,
}

/// No two entries of the book have the same identifier.
pub open spec fn book_distinct(book: Seq<ConnectedPeer>) -> bool {
    forall|i: int, j: int| 0 <= i < j < book.len() ==> book[i].id@ != book[j].id@
}

/// Some entry of the book has the identifier `id`.
pub open spec fn in_book(book: Seq<ConnectedPeer>, id: Seq<char>) -> bool {
    exists|i: int| 0 <= i < book.len() && #[trigger] book[i].id@ == id
}

/// Where the entry with the identifier `id` stands.
pub open spec fn book_slot(book: Seq<ConnectedPeer>, id: Seq<char>) -> int {
    choose|i: int| 0 <= i < book.len() && #[trigger] book[i].id@ == id
}

/// An entry that stands at `slot` is the one that `book_slot` names.
pub proof fn lemma_book_slot_unique(book: Seq<ConnectedPeer>, id: Seq<char>, slot: int)
    requires
        book_distinct(book),
        0 <= slot < book.len(),
        book[slot].id@ == id,
    ensures
        in_book(book, id),
        book_slot(book, id) == slot,
{
    let found = book_slot(book, id);
    assert(0 <= found < book.len() && book[found].id@ == id);
    if found < slot {
        assert(book[found].id@ != book[slot].id@);
    } else if slot < found {
        assert(book[slot].id@ != book[found].id@);
    }
}

/// The entry that the book holds of a peer that has just connected at
/// `now`.
pub open spec fn connected_entry_spec(peer: Peer, now: i64) -> ConnectedPeerView {
    ConnectedPeerView {
        id: id_text_spec(peer.id),
        email: peer.email@,
        nickname: Some(peer.display_name@),
        is_online: true,
        last_seen: now,
        response_time: None,
    }
}

/// `after` is the book `before` with the entry `entry`: in the place of an
/// earlier entry with the same identifier, or else behind all others.
pub open spec fn entered(
    before: Seq<ConnectedPeer>,
    after: Seq<ConnectedPeer>,
    entry: ConnectedPeerView,
) -> bool {
    if in_book(before, entry.id) {
        let slot = book_slot(before, entry.id);
        &&& after.len() == before.len()
        &&& after[slot]@ == entry
        &&& forall|j: int| 0 <= j < before.len() && j != slot ==> after[j] == before[j]
    } else {
        &&& after.len() == before.len() + 1
        &&& after.drop_last() == before
        &&& after.last()@ == entry
    }
}

/// `after` is the book `before` in which the entry of `peer_id`, if there
/// is one, says what a probe at `now` said: whether the peer is online, and
/// how fast it answered.
pub open spec fn probed(
    before: Seq<ConnectedPeer>,
    after: Seq<ConnectedPeer>,
    peer_id: Seq<char>,
    is_online: bool,
    response_time: Option<u64>,
    now: i64,
) -> bool {
    &&& after.len() == before.len()
    &&& if in_book(before, peer_id) {
        let slot = book_slot(before, peer_id);
        &&& after[slot]@ == (ConnectedPeerView {
            is_online,
            last_seen: now,
            response_time,
            ..before[slot]@
        })
        &&& forall|j: int| 0 <= j < before.len() && j != slot ==> after[j] == before[j]
    } else {
        after == before
    }
}

/// What a probe says of the peer that `peer_id` names: it is online if it
/// is in the table and answered.
pub open spec fn online_spec(app: ChatApp, peer_id: Seq<char>, probe: Option<u64>) -> bool {
    names_peer(app.engine.network.connections@, peer_id) && probe is Some
}

/// How fast a peer answered, if it is online.
pub open spec fn response_spec(is_online: bool, probe: Option<u64>) -> Option<u64> {
    if is_online {
        probe
    } else {
        None
    }
}

/// What went wrong, in words.
pub open spec fn chat_error_text(error: ChatError) -> Seq<char> {
    match error {
        ChatError::PeerOffline => "Peer is offline"@,
        ChatError::Network(e) => network_error_text(e),
    }
}

/// The reason of a failure in words, nothing for a success.
pub open spec fn failure_text<T>(outcome: Result<T, NetworkError>) -> Option<Seq<char>> {
    match outcome {
        Ok(_) => None,
        Err(e) => Some(network_error_text(e)),
    }
}

/// What the book records of a message that was sent.
pub open spec fn sent_record_spec(message: MessageView) -> ChatMessageView {
    ChatMessageView {
        id: id_text_spec(message.id),
        from_user_id: id_text_spec(message.sender_id),
        to_user_id: match message.recipient_id {
            Some(id) => id_text_spec(id),
            None => Seq::empty(),
        },
        content: message.content,
        timestamp: message.timestamp,
        encrypted: true,
        message_type: "text"@,
    }
}

/// The number of messages that `/history` shows.
pub const HISTORY_SHOWN: usize = 20;

/// The format of the time of day in the answer to `/history`.
pub open spec fn clock_format() -> Seq<char> {
    "%H:%M:%S"@
}

/// The format of the time in the answer to `/status`.
pub open spec fn seen_format() -> Seq<char> {
    "%Y-%m-%d %H:%M:%S UTC"@
}

/// The lines of the answer to `/history`: one for each of the first twenty
/// messages, with the time of day, the sender and the content.
pub open spec fn history_lines_spec(history: Seq<ChatMessage>) -> Seq<Seq<char>> {
    Seq::new(
        if history.len() < HISTORY_SHOWN {
            history.len()
        } else {
            HISTORY_SHOWN as nat
        },
        |i: int|
            history_line_spec(
                or_empty(time_text_spec(history[i].timestamp, clock_format())),
                history[i].from_user_id@,
                history[i].content@,
            ),
    )
}

/// A text as JSON writes it, between quotes and with what must be escaped
/// escaped, as `serde_json::to_string` gives it.
pub uninterp spec fn json_text_spec(text: Seq<char>) -> Option<Seq<char>>;

/// Calls `serde_json::to_string` on a text. Trusted: the result is the
/// named text, nothing where serde_json refuses.
#[verifier::external_body]
fn json_text(text: &str) -> (out: Option<String>)
    ensures
        optional_view(out) == json_text_spec(text@),
{
    serde_json::to_string(text).ok()
}

/// An optional text as JSON writes it: `null` for none.
pub open spec fn json_optional_spec(text: Option<Seq<char>>) -> Seq<char> {
    match text {
        Some(t) => or_empty(json_text_spec(t)),
        None => "null"@,
    }
}

/// The answer to `/id`: what the application shows of its user, as an
/// indented JSON object with its keys in the order of the alphabet.
pub open spec fn id_reply_spec(
    user_id: Seq<char>,
    email: Seq<char>,
    nickname: Option<Seq<char>>,
    public_key: Seq<char>,
) -> Seq<char> {
    "User Info:\n{\n  \"email\": "@ + or_empty(json_text_spec(email)) + ",\n  \"nickname\": "@
        + json_optional_spec(nickname) + ",\n  \"public_key\": "@ + or_empty(
        json_text_spec(public_key),
    ) + ",\n  \"user_id\": "@ + or_empty(json_text_spec(user_id)) + "\n}"@
}

/// The line of each entry of the book in the answer to `/peers`.
pub open spec fn book_lines_spec(book: Seq<ConnectedPeer>) -> Seq<Seq<char>> {
    Seq::new(book.len(), |i: int| peer_line_spec(book[i].email@, book[i].id@, book[i].is_online))
}

impl ChatError {
    /// What went wrong, in words.
    pub fn describe(&self) -> (text: String)
        ensures
            text@ == chat_error_text(*self),
    {
        match self {
            ChatError::PeerOffline => "Peer is offline".to_string(),
            ChatError::Network(e) => e.describe(),
        }
    }
}

/// The application.
#[derive(Debug)]
pub struct ChatApp {
    pub config: Config,
    pub engine: ReachEngine,
    pub message_history: Vec<ChatMessage>,
    pub peers: Vec<ConnectedPeer>,
}

impl ChatApp {
    /// The engine is well formed and every peer is in the book once.
    pub open spec fn wf(&self) -> bool {
        &&& self.engine.wf()
        &&& book_distinct(self.peers@)
    }

    /// An application for a new identity made from an email address and a
    /// password, with an empty book and an empty history. It always
    /// succeeds.
    pub fn new(email: String, password: String) -> (app: Result<ChatApp, NetworkError>)
        ensures
            app is Ok,
            app.unwrap().wf(),
            app.unwrap().engine.identity.email@ == email@,
            app.unwrap().engine.identity.password_matches(password@),
            app.unwrap().config.identity.same_as(&app.unwrap().engine.identity),
            app.unwrap().peers@.len() == 0,
            app.unwrap().message_history@.len() == 0,
            app.unwrap().engine.network.connections@.len() == 0,
            app.unwrap().engine.network.listening_port is None,
    {
        match ReachEngine::new(UserCredentials { email, password }) {
            Err(e) => Err(e),
            Ok(engine) => {
                let config = Config::new(engine.identity.clone());
                Ok(ChatApp { config, engine, message_history: Vec::new(), peers: Vec::new() })
            },
        }
    }

    /// An application with the settings `config`, and an engine for a new
    /// identity with the email address of those settings. It always
    /// succeeds.
    pub fn from_config(config: Config) -> (app: Result<ChatApp, NetworkError>)
        ensures
            app is Ok,
            app.unwrap().wf(),
            app.unwrap().config == config,
            app.unwrap().engine.identity.email@ == config.identity.email@,
            app.unwrap().peers@.len() == 0,
            app.unwrap().message_history@.len() == 0,
            app.unwrap().engine.network.connections@.len() == 0,
    {
        let credentials = UserCredentials {
            email: copy_text(&config.identity.email),
            password: String::new(),
        };
        match ReachEngine::new(credentials) {
            Err(e) => Err(e),
            Ok(engine) => Ok(
                ChatApp { config, engine, message_history: Vec::new(), peers: Vec::new() },
            ),
        }
    }

    /// An application with the settings `config` and an engine for the
    /// identity of those settings. An identity whose private key cannot be
    /// read is refused.
    pub fn for_identity(config: Config) -> (app: Result<ChatApp, NetworkError>)
        ensures
            app is Ok <==> crate::identity::key_bytes_spec(
                config.identity.keypair.private_key@,
            ) is Ok,
            app is Err ==> app.unwrap_err() == NetworkError::InvalidIdentity,
            app is Ok ==> {
                &&& app.unwrap().wf()
                &&& app.unwrap().config == config
                &&& app.unwrap().engine.identity.same_as(&config.identity)
                &&& app.unwrap().engine.network.identity.same_as(&config.identity)
                &&& app.unwrap().peers@.len() == 0
                &&& app.unwrap().message_history@.len() == 0
                &&& app.unwrap().engine.network.connections@.len() == 0
                &&& app.unwrap().engine.network.listening_port is None
            },
    {
        match ReachEngine::from_identity(config.identity.clone()) {
            Err(e) => Err(e),
            Ok(engine) => Ok(
                ChatApp { config, engine, message_history: Vec::new(), peers: Vec::new() },
            ),
        }
    }

    /// Records that the node listens on `port`: see
    /// [`ReachEngine::start_server`].
    pub fn start_server(&mut self, port: u16) -> (out: Result<(), NetworkError>)
        requires
            old(self).wf(),
        ensures
            final(self).wf(),
            final(self).config == old(self).config,
            final(self).peers == old(self).peers,
            final(self).message_history == old(self).message_history,
            final(self).engine.network.connections == old(self).engine.network.connections,
            out is Ok <==> old(self).engine.network.listening_port is None,
            out is Ok ==> final(self).engine.network.listening_port == Some(port),
            out is Err ==> out.unwrap_err() == NetworkError::Bind && *final(self) == *old(self),
    {
        self.engine.start_server(port)
    }

    /// Where the entry of `id` stands in the book, if there is one.
    pub fn position(&self, id: &str) -> (slot: Option<usize>)
        requires
            book_distinct(self.peers@),
        ensures
            slot is Some <==> in_book(self.peers@, id@),
            slot is Some ==> slot.unwrap() == book_slot(self.peers@, id@) && slot.unwrap()
                < self.peers@.len() && self.peers@[slot.unwrap() as int].id@ == id@,
    {
        let key = id.to_string();
        let mut i: usize = 0;
        while i < self.peers.len()
            invariant
                i <= self.peers@.len(),
                book_distinct(self.peers@),
                key@ == id@,
                forall|j: int| 0 <= j < i ==> self.peers@[j].id@ != id@,
            decreases self.peers@.len() - i,
        {
            if self.peers[i].id == key {
                proof {
                    lemma_book_slot_unique(self.peers@, id@, i as int);
                }
                return Some(i);
            }
            i += 1;
        }
        None
    }

    /// Completes an outgoing connection through the engine and enters the
    /// peer in the book as online. What becomes of the network is what
    /// [`ReachEngine::connect_to_peer`] makes of it; a failure changes
    /// nothing.
    pub fn connect_to_peer(
        &mut self,
        address: &str,
        dialed: bool,
        first: Option<&Message>,
        now: i64,
    ) -> (out: Result<(), NetworkError>)
        requires
            old(self).wf(),
        ensures
            final(self).wf(),
            final(self).config == old(self).config,
            final(self).message_history == old(self).message_history,
            out is Err ==> *final(self) == *old(self),
            exists|outcome: Result<Peer, NetworkError>|
                {
                    &&& #[trigger] connect_done(
                        old(self).engine.network,
                        final(self).engine.network,
                        dialed,
                        first,
                        address@,
                        now,
                        outcome,
                    )
                    &&& match outcome {
                        Err(e) => out is Err && out.unwrap_err() == e,
                        Ok(peer) => out is Ok && entered(
                            old(self).peers@,
                            final(self).peers@,
                            connected_entry_spec(peer, now),
                        ),
                    }
                },
    {
        let outcome = self.engine.connect_to_peer(address, dialed, first, now);
        let ghost witness = outcome;
        match outcome {
            Err(e) => Err(e),
            Ok(peer) => {
                let entry = ConnectedPeer {
                    id: id_text(peer.id),
                    email: copy_text(&peer.email),
                    nickname: Some(copy_text(&peer.display_name)),
                    is_online: true,
                    last_seen: now,
                    response_time: None,
                };
                self.enter(entry);
                assert(connect_done(
                    old(self).engine.network,
                    self.engine.network,
                    dialed,
                    first,
                    address@,
                    now,
                    witness,
                ));
                Ok(())
            },
        }
    }

    /// Puts an entry into the book: in the place of an earlier one with the
    /// same identifier, or else behind all others.
    fn enter(&mut self, entry: ConnectedPeer)
        requires
            book_distinct(old(self).peers@),
        ensures
            book_distinct(final(self).peers@),
            entered(old(self).peers@, final(self).peers@, entry@),
            final(self).config == old(self).config,
            final(self).engine == old(self).engine,
            final(self).message_history == old(self).message_history,
    {
        let ghost before = self.peers@;
        match self.position(entry.id.as_str()) {
            Some(slot) => {
                self.peers.set(slot, entry);
                assert forall|i: int, j: int|
                    0 <= i < j < self.peers@.len() implies self.peers@[i].id@
                    != self.peers@[j].id@ by {
                    assert(before[i].id@ != before[j].id@);
                }
            },
            None => {
                self.peers.push(entry);
                assert(self.peers@.drop_last() =~= before);
                assert forall|i: int, j: int|
                    0 <= i < j < self.peers@.len() implies self.peers@[i].id@
                    != self.peers@[j].id@ by {
                    if j < before.len() {
                        assert(before[i].id@ != before[j].id@);
                    } else {
                        assert(before[i].id@ != entry.id@);
                    }
                }
            },
        }
    }

    /// Asks the engine at `now` whether the peer that `peer_id` names is
    /// online, given the answer to a probe (see [`ReachEngine::ping_peer`]),
    /// and notes the answer in the book if the peer has an entry there.
    /// Nothing else changes.
    pub fn check_peer_status(&mut self, peer_id: &str, probe: Option<u64>, now: i64) -> (status:
        PeerPingStatus)
        requires
            old(self).wf(),
        ensures
            final(self).wf(),
            final(self).config == old(self).config,
            final(self).engine == old(self).engine,
            final(self).message_history == old(self).message_history,
            status.user_id@ == peer_id@,
            status.is_online == online_spec(*old(self), peer_id@, probe),
            status.last_seen == now,
            status.response_time == response_spec(status.is_online, probe),
            probed(
                old(self).peers@,
                final(self).peers@,
                peer_id@,
                status.is_online,
                status.response_time,
                now,
            ),
    {
        let status = self.engine.ping_peer(peer_id, probe, now);
        match self.position(peer_id) {
            None => {},
            Some(slot) => {
                let ghost before = self.peers@;
                let mut entry = self.peers.remove(slot);
                entry.is_online = status.is_online;
                entry.last_seen = status.last_seen;
                entry.response_time = status.response_time;
                self.peers.insert(slot, entry);
                assert forall|i: int, j: int|
                    0 <= i < j < self.peers@.len() implies self.peers@[i].id@
                    != self.peers@[j].id@ by {
                    assert(self.peers@[i].id@ == before[i].id@);
                    assert(self.peers@[j].id@ == before[j].id@);
                }
            },
        }
        status
    }

    /// Prepares `content` at `now` for the peer that `peer_id` names, if
    /// the peer is online.
    ///
    /// The peer is probed first, and the book notes the answer: see
    /// [`Self::check_peer_status`]. A peer that is offline gets nothing: the
    /// result is `PeerOffline`. For one that is online the message is
    /// prepared as [`ReachEngine::send_message`] prepares it. Engine,
    /// settings and history are not changed; [`Self::confirm_sent`] is told
    /// what became of the message.
    pub fn send_message(
        &mut self,
        peer_id: &str,
        content: &str,
        probe: Option<u64>,
        now: i64,
    ) -> (out: Result<(Message, EncryptedMessage), ChatError>)
        requires
            old(self).wf(),
        ensures
            final(self).wf(),
            final(self).config == old(self).config,
            final(self).engine == old(self).engine,
            final(self).message_history == old(self).message_history,
            probed(
                old(self).peers@,
                final(self).peers@,
                peer_id@,
                online_spec(*old(self), peer_id@, probe),
                response_spec(online_spec(*old(self), peer_id@, probe), probe),
                now,
            ),
            !online_spec(*old(self), peer_id@, probe) ==> out is Err && out.unwrap_err()
                == ChatError::PeerOffline,
            online_spec(*old(self), peer_id@, probe) ==> exists|
                prepared: Result<(Message, EncryptedMessage), NetworkError>,
            |
                {
                    &&& #[trigger] send_prepared(
                        old(self).engine.network,
                        peer_id@,
                        content@,
                        now,
                        prepared,
                    )
                    &&& match prepared {
                        Err(e) => out is Err && out.unwrap_err() == ChatError::Network(e),
                        Ok(pair) => out is Ok && out.unwrap() == pair,
                    }
                },
    {
        let status = self.check_peer_status(peer_id, probe, now);
        if !status.is_online {
            return Err(ChatError::PeerOffline);
        }
        let prepared = self.engine.send_message(peer_id, content, now);
        let ghost witness = prepared;
        assert(send_prepared(old(self).engine.network, peer_id@, content@, now, witness));
        match prepared {
            Err(e) => Err(ChatError::Network(e)),
            Ok(pair) => Ok(pair),
        }
    }

    /// Takes note at `now` of what became of a prepared message on the
    /// wire. The network does as [`ReachEngine::confirm_sent`] says; and a
    /// message that was written is recorded at the end of the history, while
    /// one that was not leaves the history as it was.
    pub fn confirm_sent(&mut self, message: Message, written: bool, now: i64) -> (out: Result<
        String,
        NetworkError,
    >)
        requires
            old(self).wf(),
        ensures
            final(self).wf(),
            final(self).config == old(self).config,
            final(self).peers == old(self).peers,
            sent_confirmed(
                old(self).engine.network,
                final(self).engine.network,
                message,
                written,
                out,
            ),
            !written ==> final(self).message_history == old(self).message_history,
            written ==> {
                &&& final(self).message_history@.len() == old(self).message_history@.len() + 1
                &&& final(self).message_history@.drop_last() == old(self).message_history@
                &&& final(self).message_history@.last()@ == sent_record_spec(message@)
            },
    {
        let record = ChatMessage {
            id: id_text(message.id),
            from_user_id: id_text(message.sender_id),
            to_user_id: match message.recipient_id {
                Some(id) => id_text(id),
                None => String::new(),
            },
            content: copy_text(&message.content),
            timestamp: message.timestamp,
            encrypted: true,
            message_type: "text".to_string(),
        };
        let out = self.engine.confirm_sent(message, written, now);
        if written {
            let ghost history = self.message_history@;
            self.message_history.push(record);
            assert(self.message_history@.drop_last() =~= history);
        }
        out
    }

    /// Carries out `/connect`: completes the connection as
    /// [`Self::connect_to_peer`] does and answers with the outcome in
    /// words, a failure with its reason. With the answer comes the
    /// identifier of the peer that was registered, if one was.
    pub fn connect_command(
        &mut self,
        address: &str,
        dialed: bool,
        first: Option<&Message>,
        now: i64,
    ) -> (out: (String, Option<u128>))
        requires
            old(self).wf(),
        ensures
            final(self).wf(),
            final(self).config == old(self).config,
            final(self).message_history == old(self).message_history,
            exists|outcome: Result<Peer, NetworkError>|
                {
                    &&& #[trigger] connect_done(
                        old(self).engine.network,
                        final(self).engine.network,
                        dialed,
                        first,
                        address@,
                        now,
                        outcome,
                    )
                    &&& out.0@ == connect_reply_spec(address@, failure_text(outcome))
                    &&& match outcome {
                        Err(_) => out.1 is None && *final(self) == *old(self),
                        Ok(peer) => out.1 == Some(peer.id) && entered(
                            old(self).peers@,
                            final(self).peers@,
                            connected_entry_spec(peer, now),
                        ),
                    }
                },
    {
        match self.connect_to_peer(address, dialed, first, now) {
            Ok(()) => {
                let registered = match first {
                    Some(message) => Some(message.sender_id),
                    None => None,
                };
                (connect_reply(address, None), registered)
            },
            Err(e) => {
                let reason = e.describe();
                (connect_reply(address, Some(reason.as_str())), None)
            },
        }
    }

    /// Carries out the first half of `/send`: prepares the message as
    /// [`Self::send_message`] does. A failure is answered in words, with
    /// its reason; a message that was prepared is returned with its
    /// envelope, and [`Self::sent_command`] makes the answer once the
    /// envelope was written, or could not be.
    pub fn send_command(
        &mut self,
        peer_id: &str,
        content: &str,
        probe: Option<u64>,
        now: i64,
    ) -> (out: Result<(Message, EncryptedMessage), String>)
        requires
            old(self).wf(),
        ensures
            final(self).wf(),
            final(self).config == old(self).config,
            final(self).engine == old(self).engine,
            final(self).message_history == old(self).message_history,
            probed(
                old(self).peers@,
                final(self).peers@,
                peer_id@,
                online_spec(*old(self), peer_id@, probe),
                response_spec(online_spec(*old(self), peer_id@, probe), probe),
                now,
            ),
            !online_spec(*old(self), peer_id@, probe) ==> out is Err && out.unwrap_err()@
                == send_reply_spec(peer_id@, Some(chat_error_text(ChatError::PeerOffline))),
            online_spec(*old(self), peer_id@, probe) ==> exists|
                prepared: Result<(Message, EncryptedMessage), NetworkError>,
            |
                {
                    &&& #[trigger] send_prepared(
                        old(self).engine.network,
                        peer_id@,
                        content@,
                        now,
                        prepared,
                    )
                    &&& match prepared {
                        Err(e) => out is Err && out.unwrap_err()@ == send_reply_spec(
                            peer_id@,
                            Some(network_error_text(e)),
                        ),
                        Ok(pair) => out is Ok && out.unwrap() == pair,
                    }
                },
    {
        match self.send_message(peer_id, content, probe, now) {
            Ok(pair) => Ok(pair),
            Err(e) => {
                let reason = e.describe();
                Err(send_reply(peer_id, Some(reason.as_str())))
            },
        }
    }

    /// Carries out the second half of `/send`: takes note of what became
    /// of the message as [`Self::confirm_sent`] does and answers in words, a
    /// failure with its reason.
    pub fn sent_command(
        &mut self,
        peer_id: &str,
        message: Message,
        written: bool,
        now: i64,
    ) -> (reply: String)
        requires
            old(self).wf(),
        ensures
            final(self).wf(),
            final(self).config == old(self).config,
            final(self).peers == old(self).peers,
            reply@ == send_reply_spec(
                peer_id@,
                if written {
                    None
                } else {
                    Some(network_error_text(NetworkError::Transport))
                },
            ),
            exists|out: Result<String, NetworkError>| #[trigger]
                sent_confirmed(
                    old(self).engine.network,
                    final(self).engine.network,
                    message,
                    written,
                    out,
                ),
            !written ==> final(self).message_history == old(self).message_history,
            written ==> {
                &&& final(self).message_history@.len() == old(self).message_history@.len() + 1
                &&& final(self).message_history@.drop_last() == old(self).message_history@
                &&& final(self).message_history@.last()@ == sent_record_spec(message@)
            },
    {
        let out = self.confirm_sent(message, written, now);
        let ghost witness = out;
        assert(sent_confirmed(
            old(self).engine.network,
            self.engine.network,
            message,
            written,
            witness,
        ));
        match out {
            Ok(_) => send_reply(peer_id, None),
            Err(e) => {
                let reason = e.describe();
                send_reply(peer_id, Some(reason.as_str()))
            },
        }
    }

    /// Carries out `/status` at `now`: probes the peer as
    /// [`Self::check_peer_status`] does and answers in words.
    pub fn status_command(&mut self, peer_id: &str, probe: Option<u64>, now: i64) -> (reply: String)
        requires
            old(self).wf(),
        ensures
            final(self).wf(),
            final(self).config == old(self).config,
            final(self).engine == old(self).engine,
            final(self).message_history == old(self).message_history,
            reply@ == status_reply_spec(
                peer_id@,
                online_spec(*old(self), peer_id@, probe),
                or_empty(time_text_spec(now, seen_format())),
            ),
            probed(
                old(self).peers@,
                final(self).peers@,
                peer_id@,
                online_spec(*old(self), peer_id@, probe),
                response_spec(online_spec(*old(self), peer_id@, probe), probe),
                now,
            ),
    {
        let status = self.check_peer_status(peer_id, probe, now);
        let seen = text_or_empty(time_text(status.last_seen, "%Y-%m-%d %H:%M:%S UTC"));
        status_reply(peer_id, status.is_online, seen.as_str())
    }

    /// The answer to `/history`: the first twenty messages of the history.
    pub fn history_command(&self) -> (reply: String)
        ensures
            reply@ == history_reply_spec(history_lines_spec(self.message_history@)),
    {
        let shown = if self.message_history.len() < HISTORY_SHOWN {
            self.message_history.len()
        } else {
            HISTORY_SHOWN
        };
        let mut lines: Vec<String> = Vec::new();
        let mut i: usize = 0;
        while i < shown
            invariant
                i <= shown <= self.message_history@.len(),
                shown == history_lines_spec(self.message_history@).len(),
                lines@.len() == i,
                forall|j: int|
                    0 <= j < i ==> (#[trigger] lines@[j])@ == history_lines_spec(
                        self.message_history@,
                    )[j],
            decreases shown - i,
        {
            let message = &self.message_history[i];
            let time = text_or_empty(time_text(message.timestamp, "%H:%M:%S"));
            lines.push(
                history_line(
                    time.as_str(),
                    message.from_user_id.as_str(),
                    message.content.as_str(),
                ),
            );
            i += 1;
        }
        assert(texts_view(lines@) =~= history_lines_spec(self.message_history@));
        history_reply(&lines)
    }

    /// The answer to `/id`: what the application shows of its user.
    pub fn id_command(&self) -> (reply: String)
        ensures
            reply@ == id_reply_spec(
                id_text_spec(self.config.identity.user_id),
                self.config.identity.email@,
                nickname_view(self.config.identity.display_name),
                self.config.identity.keypair.public_key@,
            ),
    {
        let info = self.get_user_info();
        let nickname = match &info.nickname {
            Some(name) => text_or_empty(json_text(name.as_str())),
            None => "null".to_string(),
        };
        String::from_str("User Info:\n{\n  \"email\": ").concat(
            text_or_empty(json_text(info.email.as_str())).as_str(),
        ).concat(",\n  \"nickname\": ").concat(nickname.as_str()).concat(
            ",\n  \"public_key\": ",
        ).concat(text_or_empty(json_text(info.public_key.as_str())).as_str()).concat(
            ",\n  \"user_id\": ",
        ).concat(text_or_empty(json_text(info.user_id.as_str())).as_str()).concat("\n}")
    }

    /// The answer to `/peers`: the line of each entry of the book.
    pub fn peers_command(&self) -> (reply: String)
        ensures
            reply@ == peers_reply_spec(book_lines_spec(self.peers@)),
    {
        let mut lines: Vec<String> = Vec::new();
        let mut i: usize = 0;
        while i < self.peers.len()
            invariant
                i <= self.peers@.len(),
                lines@.len() == i,
                forall|j: int|
                    0 <= j < i ==> (#[trigger] lines@[j])@ == book_lines_spec(self.peers@)[j],
            decreases self.peers@.len() - i,
        {
            let entry = &self.peers[i];
            lines.push(peer_line(entry.email.as_str(), entry.id.as_str(), entry.is_online));
            i += 1;
        }
        assert(texts_view(lines@) =~= book_lines_spec(self.peers@));
        peers_reply(&lines)
    }

    /// Carries out `/nick`: changes the name as [`Self::set_nickname`]
    /// does and answers in words.
    pub fn nick_command(&mut self, nickname: &str) -> (reply: String)
        requires
            old(self).wf(),
        ensures
            final(self).wf(),
            reply@ == nick_reply_spec(nickname@, None),
            final(self).engine.network.identity.display_name is Some,
            final(self).engine.network.identity.display_name.unwrap()@ == nickname@,
            final(self).engine.network.connections == old(self).engine.network.connections,
            final(self).engine.network.inbox == old(self).engine.network.inbox,
            final(self).config == old(self).config,
            final(self).peers == old(self).peers,
            final(self).message_history == old(self).message_history,
    {
        match self.set_nickname(nickname.to_string()) {
            Ok(()) => nick_reply(nickname, None),
            Err(e) => {
                let reason = e.describe();
                nick_reply(nickname, Some(reason.as_str()))
            },
        }
    }

    /// Copies of the entries of the book, in its order.
    pub fn get_connected_peers(&self) -> (peers: Vec<ConnectedPeer>)
        ensures
            peers@.len() == self.peers@.len(),
            forall|i: int| 0 <= i < peers@.len() ==> (#[trigger] peers@[i])@ == self.peers@[i]@,
    {
        let mut peers: Vec<ConnectedPeer> = Vec::new();
        let mut i: usize = 0;
        while i < self.peers.len()
            invariant
                i <= self.peers@.len(),
                peers@.len() == i,
                forall|j: int| 0 <= j < i ==> (#[trigger] peers@[j])@ == self.peers@[j]@,
            decreases self.peers@.len() - i,
        {
            peers.push(self.peers[i].clone());
            i += 1;
        }
        peers
    }

    /// Copies of the messages sent, oldest first.
    pub fn get_message_history(&self) -> (history: Vec<ChatMessage>)
        ensures
            history@.len() == self.message_history@.len(),
            forall|i: int|
                0 <= i < history@.len() ==> (#[trigger] history@[i])@ == self.message_history@[i]@,
    {
        let mut history: Vec<ChatMessage> = Vec::new();
        let mut i: usize = 0;
        while i < self.message_history.len()
            invariant
                i <= self.message_history@.len(),
                history@.len() == i,
                forall|j: int|
                    0 <= j < i ==> (#[trigger] history@[j])@ == self.message_history@[j]@,
            decreases self.message_history@.len() - i,
        {
            history.push(self.message_history[i].clone());
            i += 1;
        }
        history
    }

    /// Changes the name under which the local user appears to its peers.
    pub fn set_nickname(&mut self, nickname: String) -> (out: Result<(), NetworkError>)
        requires
            old(self).wf(),
        ensures
            final(self).wf(),
            out is Ok,
            final(self).engine.network.identity.display_name == Some(nickname),
            final(self).engine.network.connections == old(self).engine.network.connections,
            final(self).engine.network.inbox == old(self).engine.network.inbox,
            final(self).config == old(self).config,
            final(self).peers == old(self).peers,
            final(self).message_history == old(self).message_history,
    {
        self.engine.set_nickname(nickname)
    }

    /// What the application shows of its user: the identifier, the email
    /// address, the chosen name if any, and the public key of the settings.
    pub fn get_user_info(&self) -> (info: UserSummary)
        ensures
            info.user_id@ == id_text_spec(self.config.identity.user_id),
            info.email@ == self.config.identity.email@,
            nickname_view(info.nickname) == nickname_view(self.config.identity.display_name),
            info.public_key@ == self.config.identity.keypair.public_key@,
    {
        UserSummary {
            user_id: id_text(self.config.identity.user_id),
            email: copy_text(&self.config.identity.email),
            nickname: copy_optional_text(&self.config.identity.display_name),
            public_key: copy_text(&self.config.identity.keypair.public_key),
        }
    }

    /// The lines of the help text: see [`crate::command::list_commands`].
    pub fn list_commands(&self) -> (lines: Vec<String>)
        ensures
            crate::text::texts_view(lines@) == crate::command::commands_spec(),
    {
        crate::command::list_commands()
    }

    /// Reads a line of the prompt and carries out what needs no socket.
    ///
    /// A line that is no command, an unknown command, one that lacks an
    /// argument, `/help` and `/quit` are answered as [`Command::reply`]
    /// answers them. `/nick` changes the name, `/peers` lists the book,
    /// `/history` the messages sent and `/id` shows the user, and all four
    /// are answered. Every other command is returned, to be carried
    /// out by the functions named after it once the socket has been
    /// written or read. Nothing but the name is ever changed.
    pub fn handle_command(&mut self, input: &str) -> (out: Result<String, Command>)
        requires
            old(self).wf(),
        ensures
            final(self).wf(),
            final(self).config == old(self).config,
            final(self).peers == old(self).peers,
            final(self).message_history == old(self).message_history,
            final(self).engine.network.connections == old(self).engine.network.connections,
            final(self).engine.network.inbox == old(self).engine.network.inbox,
            match command_spec(words_spec(input@)) {
                CommandView::Nick(name) => {
                    &&& out is Ok
                    &&& out.unwrap()@ == nick_reply_spec(name, None)
                    &&& final(self).engine.network.identity.display_name is Some
                    &&& final(self).engine.network.identity.display_name.unwrap()@ == name
                },
                CommandView::Peers => {
                    &&& out is Ok
                    &&& out.unwrap()@ == peers_reply_spec(book_lines_spec(old(self).peers@))
                    &&& *final(self) == *old(self)
                },
                CommandView::History(_) => {
                    &&& out is Ok
                    &&& out.unwrap()@ == history_reply_spec(
                        history_lines_spec(old(self).message_history@),
                    )
                    &&& *final(self) == *old(self)
                },
                CommandView::Id => {
                    &&& out is Ok
                    &&& out.unwrap()@ == id_reply_spec(
                        id_text_spec(old(self).config.identity.user_id),
                        old(self).config.identity.email@,
                        nickname_view(old(self).config.identity.display_name),
                        old(self).config.identity.keypair.public_key@,
                    )
                    &&& *final(self) == *old(self)
                },
                command => {
                    &&& *final(self) == *old(self)
                    &&& match reply_spec(command) {
                        Some(reply) => out is Ok && out.unwrap()@ == reply,
                        None => out is Err && out.unwrap_err()@ == command,
                    }
                },
            },
    {
        let command = parse_command(input);
        match command {
            Command::Nick(name) => Ok(self.nick_command(name.as_str())),
            Command::Peers => Ok(self.peers_command()),
            Command::History(_) => Ok(self.history_command()),
            Command::Id => Ok(self.id_command()),
            other => match other.reply() {
                Some(reply) => Ok(reply),
                None => Err(other),
            },
        }
    }

    /// Shuts the engine down at `now`: see [`ReachEngine::shutdown`]. The
    /// book and the history stay.
    pub fn shutdown(&mut self, now: i64)
        requires
            old(self).wf(),
        ensures
            final(self).wf(),
            final(self).engine.network.connections@.len() == 0,
            final(self).engine.network.listening_port is None,
            final(self).config == old(self).config,
            final(self).peers == old(self).peers,
            final(self).message_history == old(self).message_history,
    {
        self.engine.shutdown(now);
    }
}

} // verus!

//! A chat session: the port a node listens on, the peers it talks to and
//! the history of its messages, on top of a [`NetworkManager`].
use vstd::prelude::*;
use vstd::string::*;
use crate::identity::{key_bytes_spec, Identity};
use crate::message::{EncryptedMessage, Message, MessageType, MessageView};
use crate::network::{
    connect_done,
    handshake_key_spec,
    optional_message_view,
    send_prepared,
    sent_confirmed,
    NetworkError,
    NetworkManager,
};
use crate::peer::Peer;
use crate::stamp::{fresh_id, parse_id_spec, parse_id};

verus! {

/// The character of a decimal digit.
pub open spec fn digit_spec(digit: nat) -> char {
    (48 + digit) as u8 as char
}

/// The decimal digits of a number, without leading zeros.
pub open spec fn digits_spec(value: nat) -> Seq<char>
    decreases value,
{
    if value < 10 {
        seq![digit_spec(value)]
    } else {
        digits_spec(value / 10).push(digit_spec(value % 10))
    }
}

/// The decimal text of an integer: a minus sign if it is negative, then
/// its digits.
pub open spec fn decimal_text_spec(value: i64) -> Seq<char> {
    if value < 0 {
        seq!['-'] + digits_spec((-value) as nat)
    } else {
        digits_spec(value as nat)
    }
}

/// Calls `i64::to_string`. Trusted: the result is the decimal text of the
/// value.
#[verifier::external_body]
fn decimal_text(value: i64) -> (text: String)
    ensures
        text@ == decimal_text_spec(value),
{
    value.to_string()
}

/// A count as an `i64`, held within its range.
pub open spec fn count_spec(count: nat) -> i64 {
    if count > i64::MAX {
        i64::MAX
    } else {
        count as i64
    }
}

/// The answer to `/info` for a session.
pub open spec fn session_info_spec(id: Seq<char>, port: u16, peers: nat) -> Seq<char> {
    "Session Info:\n   ID: "@ + id + "\n   Port: "@ + decimal_text_spec(port as i64)
        + "\n   Connected peers: "@ + decimal_text_spec(count_spec(peers))
}

/// The name of the session started at the millisecond `now`.
pub open spec fn session_id_spec(now: i64) -> Seq<char> {
    "session_"@ + decimal_text_spec(now)
}

/// No two peers have the same identifier.
pub open spec fn peers_distinct(peers: Seq<Peer>) -> bool {
    forall|i: int, j: int| 0 <= i < j < peers.len() ==> peers[i].id != peers[j].id
}

/// Some peer has the identifier `id`.
pub open spec fn has_peer(peers: Seq<Peer>, id: u128) -> bool {
    exists|i: int| 0 <= i < peers.len() && #[trigger] peers[i].id == id
}

/// Where the peer with the identifier `id` stands.
pub open spec fn peer_slot(peers: Seq<Peer>, id: u128) -> int {
    choose|i: int| 0 <= i < peers.len() && #[trigger] peers[i].id == id
}

/// Where the last `limit` of `len` messages begin.
pub open spec fn recent_start(len: nat, limit: nat) -> nat {
    if len > limit {
        (len - limit) as nat
    } else {
        0
    }
}

/// A peer that stands at `slot` is the one that `peer_slot` names.
pub proof fn lemma_peer_slot_unique(peers: Seq<Peer>, id: u128, slot: int)
    requires
        peers_distinct(peers),
        0 <= slot < peers.len(),
        peers[slot].id == id,
    ensures
        has_peer(peers, id),
        peer_slot(peers, id) == slot,
{
    let found = peer_slot(peers, id);
    assert(0 <= found < peers.len() && peers[found].id == id);
    if found < slot {
        assert(peers[found].id != peers[slot].id);
    } else if slot < found {
        assert(peers[slot].id != peers[found].id);
    }
}

/// `after` is the session `before` with `peer` listed: in the place of an
/// earlier entry with the same identifier, or else behind all others.
/// Without a session there is nothing to list.
pub open spec fn peer_listed(before: Option<ChatSession>, after: Option<ChatSession>, peer: Peer)
    -> bool {
    match before {
        None => after is None,
        Some(session) => {
            &&& after is Some
            &&& after.unwrap().id == session.id
            &&& after.unwrap().current_port == session.current_port
            &&& after.unwrap().message_history == session.message_history
            &&& after.unwrap().active_peers@ == if has_peer(session.active_peers@, peer.id) {
                session.active_peers@.update(peer_slot(session.active_peers@, peer.id), peer)
            } else {
                session.active_peers@.push(peer)
            }
        },
    }
}

/// `after` is the session `before` with one message more at the end of
/// its history, which is `message` but for its identifier. Without a
/// session there is nothing to note.
pub open spec fn message_noted(
    before: Option<ChatSession>,
    after: Option<ChatSession>,
    message: MessageView,
) -> bool {
    match before {
        None => after is None,
        Some(session) => {
            &&& after is Some
            &&& after.unwrap().id == session.id
            &&& after.unwrap().current_port == session.current_port
            &&& after.unwrap().active_peers == session.active_peers
            &&& after.unwrap().message_history@.len() == session.message_history@.len() + 1
            &&& after.unwrap().message_history@.drop_last() == session.message_history@
            &&& after.unwrap().message_history@.last()@ == (MessageView {
                id: after.unwrap().message_history@.last().id,
                ..message
            })
        },
    }
}

/// One session of chat.
#[derive(Debug)]
pub struct ChatSession {
    pub id: String,
    pub active_peers: Vec<Peer>,
    pub message_history: Vec<Message>,
    pub current_port: u16,
}

impl ChatSession {
    /// Every peer is listed once.
    pub open spec fn wf(&self) -> bool {
        peers_distinct(self.active_peers@)
    }

    /// A session without peers and without history.
    pub fn new(id: String, port: u16) -> (session: ChatSession)
        ensures
            session.wf(),
            session.id == id,
            session.current_port == port,
            session.active_peers@.len() == 0,
            session.message_history@.len() == 0,
    {
        ChatSession {
            id,
            active_peers: Vec::new(),
            message_history: Vec::new(),
            current_port: port,
        }
    }

    /// Where the peer `id` stands, if it is listed.
    pub fn position(&self, id: u128) -> (slot: Option<usize>)
        requires
            self.wf(),
        ensures
            slot is Some <==> has_peer(self.active_peers@, id),
            slot is Some ==> slot.unwrap() == peer_slot(self.active_peers@, id) && slot.unwrap()
                < self.active_peers@.len() && self.active_peers@[slot.unwrap() as int].id == id,
    {
        let mut i: usize = 0;
        while i < self.active_peers.len()
            invariant
                i <= self.active_peers@.len(),
                self.wf(),
                forall|j: int| 0 <= j < i ==> self.active_peers@[j].id != id,
            decreases self.active_peers@.len() - i,
        {
            if self.active_peers[i].id == id {
                proof {
                    lemma_peer_slot_unique(self.active_peers@, id, i as int);
                }
                return Some(i);
            }
            i += 1;
        }
        None
    }

    /// Lists a peer: in the place of an earlier entry with the same
    /// identifier, or else behind all others. The history is not touched.
    pub fn add_peer(&mut self, peer: Peer)
        requires
            old(self).wf(),
        ensures
            final(self).wf(),
            final(self).id == old(self).id,
            final(self).current_port == old(self).current_port,
            final(self).message_history == old(self).message_history,
            final(self).active_peers@ == if has_peer(old(self).active_peers@, peer.id) {
                old(self).active_peers@.update(peer_slot(old(self).active_peers@, peer.id), peer)
            } else {
                old(self).active_peers@.push(peer)
            },
    {
        let ghost before = self.active_peers@;
        match self.position(peer.id) {
            Some(slot) => {
                self.active_peers.set(slot, peer);
                assert forall|i: int, j: int|
                    0 <= i < j < self.active_peers@.len() implies self.active_peers@[i].id
                    != self.active_peers@[j].id by {
                    assert(before[i].id != before[j].id);
                }
            },
            None => {
                self.active_peers.push(peer);
                assert forall|i: int, j: int|
                    0 <= i < j < self.active_peers@.len() implies self.active_peers@[i].id
                    != self.active_peers@[j].id by {
                    if j < before.len() {
                        assert(before[i].id != before[j].id);
                    } else {
                        assert(before[i].id != peer.id);
                    }
                }
            },
        }
    }

    /// Takes the peer that `peer_id` names off the list and returns it. A
    /// text that names no listed peer changes nothing.
    pub fn remove_peer(&mut self, peer_id: &str) -> (removed: Option<Peer>)
        requires
            old(self).wf(),
        ensures
            final(self).wf(),
            final(self).id == old(self).id,
            final(self).current_port == old(self).current_port,
            final(self).message_history == old(self).message_history,
            match parse_id_spec(peer_id@) {
                Some(id) if has_peer(old(self).active_peers@, id) => {
                    let slot = peer_slot(old(self).active_peers@, id);
                    &&& removed == Some(old(self).active_peers@[slot])
                    &&& final(self).active_peers@ == old(self).active_peers@.remove(slot)
                    &&& !has_peer(final(self).active_peers@, id)
                },
                _ => removed is None && final(self).active_peers == old(self).active_peers,
            },
    {
        let id = match parse_id(peer_id) {
            None => {
                return None;
            },
            Some(id) => id,
        };
        let slot = match self.position(id) {
            None => {
                return None;
            },
            Some(slot) => slot,
        };
        let ghost before = self.active_peers@;
        let peer = self.active_peers.remove(slot);
        assert forall|i: int, j: int|
            0 <= i < j < self.active_peers@.len() implies self.active_peers@[i].id
            != self.active_peers@[j].id by {
            let oi = if i < slot { i } else { i + 1 };
            let oj = if j < slot { j } else { j + 1 };
            assert(before[oi].id != before[oj].id);
        }
        assert(!has_peer(self.active_peers@, id)) by {
            assert forall|i: int| 0 <= i < self.active_peers@.len() implies self.active_peers@[i].id
                != id by {
                let oi = if i < slot { i } else { i + 1 };
                if oi < slot {
                    assert(before[oi].id != before[slot as int].id);
                } else {
                    assert(before[slot as int].id != before[oi].id);
                }
            }
        }
        Some(peer)
    }

    /// Appends a message to the history. Nothing else changes, and nothing
    /// ever leaves the history.
    pub fn add_message(&mut self, message: Message)
        ensures
            final(self).message_history@ == old(self).message_history@.push(message),
            final(self).id == old(self).id,
            final(self).current_port == old(self).current_port,
            final(self).active_peers == old(self).active_peers,
    {
        self.message_history.push(message);
    }

    /// The listed peers, in order.
    pub fn get_peers(&self) -> (peers: Vec<&Peer>)
        ensures
            peers@.len() == self.active_peers@.len(),
            forall|i: int|
                0 <= i < peers@.len() ==> *(#[trigger] peers@[i]) == self.active_peers@[i],
    {
        let mut peers: Vec<&Peer> = Vec::new();
        let mut i: usize = 0;
        while i < self.active_peers.len()
            invariant
                i <= self.active_peers@.len(),
                peers@.len() == i,
                forall|j: int| 0 <= j < i ==> *(#[trigger] peers@[j]) == self.active_peers@[j],
            decreases self.active_peers@.len() - i,
        {
            peers.push(&self.active_peers[i]);
            i += 1;
        }
        peers
    }

    /// The peer that `peer_id` names, if it is listed.
    pub fn get_peer(&self, peer_id: &str) -> (peer: Option<&Peer>)
        requires
            self.wf(),
        ensures
            match parse_id_spec(peer_id@) {
                Some(id) if has_peer(self.active_peers@, id) => peer is Some && *peer.unwrap()
                    == self.active_peers@[peer_slot(self.active_peers@, id)],
                _ => peer is None,
            },
    {
        match parse_id(peer_id) {
            None => None,
            Some(id) => match self.position(id) {
                None => None,
                Some(slot) => Some(&self.active_peers[slot]),
            },
        }
    }

    /// The last `limit` messages of the history, oldest first; all of them
    /// where there are fewer.
    pub fn get_recent_messages(&self, limit: usize) -> (recent: Vec<&Message>)
        ensures
            recent@.len() == self.message_history@.len() - recent_start(
                self.message_history@.len(),
                limit as nat,
            ),
            forall|i: int|
                0 <= i < recent@.len() ==> *(#[trigger] recent@[i]) == self.message_history@[recent_start(
                    self.message_history@.len(),
                    limit as nat,
                ) + i],
    {
        let len = self.message_history.len();
        let start: usize = if len > limit {
            len - limit
        } else {
            0
        };
        let mut recent: Vec<&Message> = Vec::new();
        let mut i: usize = start;
        while i < len
            invariant
                start <= i <= len,
                len == self.message_history@.len(),
                recent@.len() == i - start,
                forall|j: int|
                    0 <= j < i - start ==> *(#[trigger] recent@[j]) == self.message_history@[start
                        + j],
            decreases len - i,
        {
            recent.push(&self.message_history[i]);
            i += 1;
        }
        recent
    }
}

/// The session of a node and the manager that carries its traffic.
#[derive(Debug)]
pub struct SessionManager {
    pub identity: Identity,
    pub network: NetworkManager,
    pub current_session: Option<ChatSession>,
}

impl SessionManager {
    /// The manager, its session if any, and its network are well formed.
    pub open spec fn wf(&self) -> bool {
        &&& self.network.wf()
        &&& self.current_session is Some ==> self.current_session.unwrap().wf()
    }

    /// The history of the current session; empty where there is none.
    pub open spec fn history(&self) -> Seq<Message> {
        match self.current_session {
            Some(session) => session.message_history@,
            None => Seq::empty(),
        }
    }

    /// A manager for `identity` without a session. An identity whose
    /// private key cannot be read is refused.
    pub fn new(identity: Identity) -> (manager: Result<SessionManager, NetworkError>)
        ensures
            manager is Ok <==> key_bytes_spec(identity.keypair.private_key@) is Ok,
            manager is Err ==> manager.unwrap_err() == NetworkError::InvalidIdentity,
            manager is Ok ==> manager.unwrap().wf() && manager.unwrap().current_session is None
                && manager.unwrap().network.connections@.len() == 0
                && manager.unwrap().identity.same_as(&identity),
    {
        let copy = identity.clone();
        match NetworkManager::new(copy) {
            Err(e) => Err(e),
            Ok(network) => Ok(SessionManager { identity, network, current_session: None }),
        }
    }

    /// Starts a session on `port` at `now` (milliseconds) and has the
    /// network listen there. Where the network listens already, the result
    /// is `Bind` and nothing changes. The name of the session is returned.
    pub fn start_session(&mut self, port: u16, now: i64) -> (out: Result<String, NetworkError>)
        requires
            old(self).wf(),
        ensures
            final(self).wf(),
            final(self).identity == old(self).identity,
            old(self).network.listening_port is Some ==> out is Err && out.unwrap_err()
                == NetworkError::Bind && *final(self) == *old(self),
            old(self).network.listening_port is None ==> {
                &&& out is Ok
                &&& out.unwrap()@ == session_id_spec(now)
                &&& final(self).network.listening_port == Some(port)
                &&& final(self).network.connections == old(self).network.connections
                &&& final(self).current_session is Some
                &&& final(self).current_session.unwrap().id@ == session_id_spec(now)
                &&& final(self).current_session.unwrap().current_port == port
                &&& final(self).current_session.unwrap().active_peers@.len() == 0
                &&& final(self).current_session.unwrap().message_history@.len() == 0
            },
    {
        match self.network.start_listening(port) {
            Err(e) => Err(e),
            Ok(()) => {
                let name = String::from_str("session_").concat(
                    decimal_text(now).as_str(),
                );
                let copy = String::from_str("session_").concat(
                    decimal_text(now).as_str(),
                );
                self.current_session = Some(ChatSession::new(name, port));
                Ok(copy)
            },
        }
    }

    /// Completes an outgoing connection through the network and lists the
    /// peer in the current session, if there is one. What becomes of the
    /// network is what [`NetworkManager::connect_to_peer`] makes of it; a
    /// failure changes nothing. The history is never touched.
    pub fn connect_to_peer(
        &mut self,
        address: &str,
        dialed: bool,
        first: Option<&Message>,
        now: i64,
    ) -> (out: Result<(), NetworkError>)
        requires
            old(self).wf(),
        ensures
            final(self).wf(),
            final(self).identity == old(self).identity,
            final(self).history() == old(self).history(),
            out is Ok <==> dialed && handshake_key_spec(optional_message_view(first)) is Ok,
            out is Err ==> *final(self) == *old(self),
            exists|outcome: Result<Peer, NetworkError>|
                {
                    &&& #[trigger] connect_done(
                        old(self).network,
                        final(self).network,
                        dialed,
                        first,
                        address@,
                        now,
                        outcome,
                    )
                    &&& match outcome {
                        Err(e) => out is Err && out.unwrap_err() == e,
                        Ok(peer) => out is Ok && peer_listed(
                            old(self).current_session,
                            final(self).current_session,
                            peer,
                        ),
                    }
                },
    {
        let outcome = self.network.connect_to_peer(address, dialed, first, now);
        let ghost witness = outcome;
        match outcome {
            Err(e) => Err(e),
            Ok(peer) => {
                match self.current_session.take() {
                    None => {},
                    Some(mut session) => {
                        session.add_peer(peer);
                        self.current_session = Some(session);
                    },
                }
                assert(connect_done(
                    old(self).network,
                    self.network,
                    dialed,
                    first,
                    address@,
                    now,
                    witness,
                ));
                Ok(())
            },
        }
    }

    /// Sends `content` at `now`.
    ///
    /// With a target the message is prepared for the peer that the target
    /// names, as [`NetworkManager::send_message`] prepares it, and returned
    /// with its envelope; nothing is changed, and [`Self::confirm_sent`] is
    /// told what became of it. Without a target the message is a note to the
    /// session itself: it is appended to the history of the current session,
    /// if there is one, and nothing is returned.
    pub fn send_message(&mut self, content: String, target_peer: Option<&str>, now: i64) -> (out:
        Result<Option<(Message, EncryptedMessage)>, NetworkError>)
        requires
            old(self).wf(),
        ensures
            final(self).wf(),
            final(self).identity == old(self).identity,
            final(self).network == old(self).network,
            match target_peer {
                Some(target) => {
                    &&& final(self).current_session == old(self).current_session
                    &&& exists|prepared: Result<(Message, EncryptedMessage), NetworkError>|
                        {
                            &&& #[trigger] send_prepared(
                                old(self).network,
                                target@,
                                content@,
                                now,
                                prepared,
                            )
                            &&& match prepared {
                                Err(e) => out is Err && out.unwrap_err() == e,
                                Ok(pair) => out is Ok && out.unwrap() == Some(pair),
                            }
                        }
                },
                None => {
                    &&& out is Ok
                    &&& out.unwrap() is None
                    &&& message_noted(
                        old(self).current_session,
                        final(self).current_session,
                        MessageView {
                            id: 0,
                            sender_id: old(self).network.identity.user_id,
                            recipient_id: None,
                            message_type: MessageType::Text,
                            content: content@,
                            timestamp: now,
                            sender_name: old(self).network.identity.display_name_spec(),
                        },
                    )
                },
            },
    {
        match target_peer {
            Some(target) => {
                let prepared = self.network.send_message(target, content.as_str(), now);
                let ghost witness = prepared;
                assert(send_prepared(old(self).network, target@, content@, now, witness));
                match prepared {
                    Err(e) => Err(e),
                    Ok(pair) => Ok(Some(pair)),
                }
            },
            None => {
                let note = Message::with_parts(
                    fresh_id(),
                    now,
                    self.network.identity.user_id,
                    None,
                    MessageType::Text,
                    content,
                    self.network.identity.get_display_name(),
                );
                self.note(note);
                Ok(None)
            },
        }
    }

    /// Appends a message to the history of the current session, if there
    /// is one.
    fn note(&mut self, message: Message)
        requires
            old(self).wf(),
        ensures
            final(self).wf(),
            final(self).identity == old(self).identity,
            final(self).network == old(self).network,
            message_noted(old(self).current_session, final(self).current_session, message@),
            final(self).current_session is Some ==> final(self).history().last().id == message.id,
    {
        match self.current_session.take() {
            None => {},
            Some(mut session) => {
                let ghost before = session.message_history@;
                session.add_message(message);
                assert(session.message_history@.drop_last() =~= before);
                self.current_session = Some(session);
            },
        }
    }

    /// Takes note at `now` of what became of a prepared message on the
    /// wire. The network does as [`NetworkManager::confirm_sent`] says; and
    /// a message that was written is appended to the history of the current
    /// session, if there is one, while one that was not leaves the session
    /// as it was.
    pub fn confirm_sent(&mut self, message: Message, written: bool, now: i64) -> (out: Result<
        String,
        NetworkError,
    >)
        requires
            old(self).wf(),
        ensures
            final(self).wf(),
            final(self).identity == old(self).identity,
            sent_confirmed(old(self).network, final(self).network, message, written, out),
            written ==> message_noted(
                old(self).current_session,
                final(self).current_session,
                message@,
            ) && (final(self).current_session is Some ==> final(self).history().last().id
                == message.id),
            !written ==> final(self).current_session == old(self).current_session,
    {
        let copy = message.clone();
        let out = self.network.confirm_sent(message, written, now);
        if written {
            self.note(copy);
        }
        out
    }

    /// Copies of the peers of the current session; none without a session.
    pub fn get_active_peers(&self) -> (peers: Vec<Peer>)
        ensures
            match self.current_session {
                None => peers@.len() == 0,
                Some(session) => peers@.len() == session.active_peers@.len() && forall|i: int|
                    0 <= i < peers@.len() ==> (#[trigger] peers@[i])@ == session.active_peers@[i]@,
            },
    {
        let mut peers: Vec<Peer> = Vec::new();
        match &self.current_session {
            None => {},
            Some(session) => {
                let mut i: usize = 0;
                while i < session.active_peers.len()
                    invariant
                        i <= session.active_peers@.len(),
                        peers@.len() == i,
                        forall|j: int|
                            0 <= j < i ==> (#[trigger] peers@[j])@ == session.active_peers@[j]@,
                    decreases session.active_peers@.len() - i,
                {
                    peers.push(session.active_peers[i].clone());
                    i += 1;
                }
            },
        }
        peers
    }

    /// Name, port and number of peers of the current session.
    pub fn get_session_info(&self) -> (info: Option<(String, u16, usize)>)
        ensures
            match self.current_session {
                None => info is None,
                Some(session) => info is Some && info.unwrap().0@ == session.id@ && info.unwrap().1
                    == session.current_port && info.unwrap().2 == session.active_peers@.len(),
            },
    {
        match &self.current_session {
            None => None,
            Some(session) => Some(
                (session.id.clone(), session.current_port, session.active_peers.len()),
            ),
        }
    }

    /// The answer to `/info`: name, port and number of peers of the
    /// current session; nothing without a session.
    pub fn info_command(&self) -> (reply: Option<String>)
        ensures
            crate::text::optional_view(reply) == match self.current_session {
                None => None,
                Some(session) => Some(
                    session_info_spec(
                        session.id@,
                        session.current_port,
                        session.active_peers@.len(),
                    ),
                ),
            },
    {
        match &self.current_session {
            None => None,
            Some(session) => {
                let peers = session.active_peers.len();
                let count: i64 = if peers as u64 > i64::MAX as u64 {
                    i64::MAX
                } else {
                    peers as i64
                };
                Some(
                    String::from_str("Session Info:\n   ID: ").concat(session.id.as_str()).concat(
                        "\n   Port: ",
                    ).concat(decimal_text(session.current_port as i64).as_str()).concat(
                        "\n   Connected peers: ",
                    ).concat(decimal_text(count).as_str()),
                )
            },
        }
    }

    /// Ends the session at `now`: the session is dropped, and the network
    /// stops listening and closes its connections.
    pub fn end_session(&mut self, now: i64) -> (out: Result<(), NetworkError>)
        ensures
            out is Ok,
            final(self).current_session is None,
            final(self).network.listening_port is None,
            final(self).network.connections@.len() == 0,
            final(self).identity == old(self).identity,
            final(self).network.identity == old(self).network.identity,
    {
        self.current_session = None;
        self.network.stop_listening(now)
    }

    /// Copies of the last `limit` messages of the history, oldest first;
    /// none without a session.
    pub fn list_recent_messages(&self, limit: usize) -> (recent: Vec<Message>)
        ensures
            recent@.len() == self.history().len() - recent_start(
                self.history().len(),
                limit as nat,
            ),
            forall|i: int|
                0 <= i < recent@.len() ==> (#[trigger] recent@[i])@ == self.history()[recent_start(
                    self.history().len(),
                    limit as nat,
                ) + i]@,
    {
        let mut recent: Vec<Message> = Vec::new();
        match &self.current_session {
            None => {},
            Some(session) => {
                let found = session.get_recent_messages(limit);
                let ghost start = recent_start(session.message_history@.len(), limit as nat);
                let mut i: usize = 0;
                while i < found.len()
                    invariant
                        i <= found@.len(),
                        recent@.len() == i,
                        found@.len() == session.message_history@.len() - start,
                        forall|j: int|
                            0 <= j < found@.len() ==> *(#[trigger] found@[j])
                                == session.message_history@[start + j],
                        forall|j: int|
                            0 <= j < i ==> (#[trigger] recent@[j])@
                                == session.message_history@[start + j]@,
                    decreases found@.len() - i,
                {
                    recent.push(found[i].clone());
                    i += 1;
                }
            },
        }
        recent
    }

    /// Number of peers of the current session; zero without a session.
    pub fn get_peer_count(&self) -> (count: usize)
        ensures
            count == match self.current_session {
                Some(session) => session.active_peers@.len(),
                None => 0,
            },
    {
        match &self.current_session {
            None => 0,
            Some(session) => session.active_peers.len(),
        }
    }
}

} // verus!

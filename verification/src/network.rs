//! One encrypted connection to a peer, and the table of connections from
//! which a node routes its messages.
//!
//! Sockets are not held here. The caller reads and writes them and reports
//! what happened: a first message that arrived or did not, a payload that
//! arrived, a peer that went away. Each function decides, from the state and
//! such an event, the next state and what is to be sent or surfaced.
use vstd::prelude::*;
use vstd::string::*;
use vstd::utf8::*;
use crate::crypto::{
    carries,
    decrypt_spec,
    encrypt_spec,
    sealable,
    shared_secret_spec,
    CryptoEngine,
    CryptoError,
    NONCE_LEN,
};
use crate::identity::{decode_key, key_bytes_spec, Identity};
use crate::message::{envelope_spec, EncryptedMessage, Message, MessageType, MessageView};
use crate::peer::{Peer, PeerPingStatus, PeerStatus, PeerView};
use crate::stamp::{id_text, fresh_id, id_text_spec, parse_id_spec, parse_id, NIL_ID};
use crate::text::{copy_text};

verus! {

/// Why a handshake did not complete.
#[derive(Debug, Clone, Copy, PartialEq, Eq, Structural)]
pub enum HandshakeError {
    /// The first message of the peer was not a handshake.
    UnexpectedMessageKind,
    /// The key in the handshake is not a base64 text of 32 bytes.
    InvalidPublicKey,
    /// No first message arrived in time.
    Timeout,
}

/// Why an operation of the connection layer failed.
#[derive(Debug, Clone, Copy, PartialEq, Eq, Structural)]
pub enum NetworkError {
    /// The listener could not be set up.
    Bind,
    /// The peer could not be reached.
    Dial,
    /// The handshake failed.
    Handshake(HandshakeError),
    /// Encryption or decryption failed.
    Crypto(CryptoError),
    /// Reading or writing the socket failed.
    Transport,
    /// No connection to that peer is in the table.
    PeerNotFound,
    /// The connection has no shared secret.
    NotAuthenticated,
    /// The peer closed the connection.
    ConnectionClosed,
    /// The private key of the local identity cannot be read.
    InvalidIdentity,
}

/// The email recorded for a peer whose handshake carries none.
pub open spec fn unknown_email() -> Seq<char> {
    "unknown@peer.local"@
}

/// What reading the socket of a connection gave.
#[derive(Debug, Clone, Copy)]
pub enum Incoming<'a> {
    /// A whole frame arrived; this is the encrypted content that it carried.
    Payload(&'a str),
    /// The peer has closed the connection.
    Closed,
    /// Reading failed.
    Failed,
}

/// The mathematical value of an [`Incoming`].
pub enum IncomingView {
    Payload(Seq<char>),
    Closed,
    Failed,
}

impl<'a> View for Incoming<'a> {
    type V = IncomingView;

    open spec fn view(&self) -> IncomingView {
        match self {
            Incoming::Payload(payload) => IncomingView::Payload(payload@),
            Incoming::Closed => IncomingView::Closed,
            Incoming::Failed => IncomingView::Failed,
        }
    }
}

/// The view of an optional message.
pub open spec fn optional_message_view(message: Option<&Message>) -> Option<MessageView> {
    match message {
        Some(m) => Some(m@),
        None => None,
    }
}

/// The view of the outcome of an operation that yields text.
pub open spec fn net_text_view(value: Result<String, NetworkError>) -> Result<
    Seq<char>,
    NetworkError,
> {
    match value {
        Ok(text) => Ok(text@),
        Err(e) => Err(e),
    }
}

/// A cryptographic outcome as an outcome of the connection layer.
pub open spec fn lift_crypto(value: Result<Seq<char>, CryptoError>) -> Result<
    Seq<char>,
    NetworkError,
> {
    match value {
        Ok(text) => Ok(text),
        Err(e) => Err(NetworkError::Crypto(e)),
    }
}

/// What a connection that holds `secret` makes of what reading its socket
/// gave.
pub open spec fn receive_spec(secret: Option<Seq<u8>>, incoming: IncomingView) -> Result<
    Seq<char>,
    NetworkError,
> {
    match secret {
        None => Err(NetworkError::NotAuthenticated),
        Some(key) => match incoming {
            IncomingView::Closed => Err(NetworkError::ConnectionClosed),
            IncomingView::Failed => Err(NetworkError::Transport),
            IncomingView::Payload(payload) => lift_crypto(decrypt_spec(payload, key)),
        },
    }
}

/// `payload` is what encrypting `message` under `key` gave: the text that
/// some nonce yields, which stands for that nonce and the sealed message; or
/// `EncryptFailed`, exactly where the cipher does not seal the message.
pub open spec fn sent_under(key: Seq<u8>, message: Seq<char>, payload: Result<String, NetworkError>)
    -> bool {
    &&& payload is Ok <==> sealable(message)
    &&& exists|nonce: Seq<u8>|
        {
            &&& nonce.len() == NONCE_LEN
            &&& net_text_view(payload) == lift_crypto(#[trigger] encrypt_spec(message, key, nonce))
            &&& payload is Ok ==> carries(payload.unwrap()@, nonce, encode_utf8(message).len())
        }
}

/// One encrypted channel to one peer. It alone holds the secret shared with
/// that peer.
#[derive(Debug)]
pub struct PeerConnection {
    pub peer: Peer,
    pub shared_secret: Option<[u8; 32]>,
}

impl PeerConnection {
    /// The shared secret is held exactly while the peer is authenticated.
    pub open spec fn wf(&self) -> bool {
        self.shared_secret is Some <==> self.peer.status.is_established()
    }

    /// The shared secret as bytes.
    pub open spec fn secret_view(&self) -> Option<Seq<u8>> {
        match self.shared_secret {
            Some(key) => Some(key@),
            None => None,
        }
    }

    /// A connection to `peer` on which no secret has been agreed.
    pub fn new(peer: Peer) -> (connection: PeerConnection)
        ensures
            connection.peer == peer,
            connection.shared_secret is None,
    {
        PeerConnection { peer, shared_secret: None }
    }

    /// Derives and keeps the secret shared with the peer.
    pub fn establish_shared_secret(&mut self, our_private: &[u8; 32], their_public: &[u8; 32])
        ensures
            final(self).peer == old(self).peer,
            final(self).secret_view() == Some(shared_secret_spec(our_private@, their_public@)),
    {
        self.shared_secret = Some(
            CryptoEngine::generate_shared_secret(our_private, their_public),
        );
    }

    /// Completes the handshake at `now`: keeps the shared secret and marks
    /// the peer authenticated. A connection that has ended stays ended: it
    /// is refused as `ConnectionClosed` and nothing changes.
    pub fn authenticate(
        &mut self,
        our_private: &[u8; 32],
        their_public: &[u8; 32],
        now: i64,
    ) -> (out: Result<(), NetworkError>)
        ensures
            out is Err <==> old(self).peer.status == PeerStatus::Disconnected,
            out is Err ==> out == Err::<(), NetworkError>(NetworkError::ConnectionClosed)
                && *final(self) == *old(self),
            out is Ok ==> {
                &&& final(self).wf()
                &&& final(self).secret_view() == Some(
                    shared_secret_spec(our_private@, their_public@),
                )
                &&& final(self).peer@ == (PeerView {
                    status: PeerStatus::Authenticated,
                    last_seen: now,
                    ..old(self).peer@
                })
            },
    {
        match self.peer.status {
            PeerStatus::Disconnected => Err(NetworkError::ConnectionClosed),
            _ => {
                self.establish_shared_secret(our_private, their_public);
                self.peer.mark_authenticated(now);
                Ok(())
            },
        }
    }

    /// Ends the connection at `now`: the secret is dropped and the peer is
    /// disconnected.
    pub fn close(&mut self, now: i64)
        ensures
            final(self).wf(),
            final(self).shared_secret is None,
            final(self).peer@ == (PeerView {
                status: PeerStatus::Disconnected,
                last_seen: now,
                ..old(self).peer@
            }),
    {
        self.shared_secret = None;
        self.peer.mark_disconnected(now);
    }

    /// Encrypts `message` for the peer. Without a shared secret nothing is
    /// encrypted. With one, every message that the cipher seals is
    /// encrypted: what is returned stands for a nonce and the sealed
    /// message, and decrypts under the secret to `message`.
    pub fn send_message(&self, message: &str) -> (payload: Result<String, NetworkError>)
        ensures
            match self.secret_view() {
                None => payload == Err::<String, NetworkError>(NetworkError::NotAuthenticated),
                Some(key) => {
                    &&& sent_under(key, message@, payload)
                    &&& payload is Ok ==> decrypt_spec(payload.unwrap()@, key) == Ok::<
                        Seq<char>,
                        CryptoError,
                    >(message@)
                },
            },
    {
        match &self.shared_secret {
            None => Err(NetworkError::NotAuthenticated),
            Some(secret) => {
                match CryptoEngine::encrypt_message(message, secret) {
                    Ok(payload) => Ok(payload),
                    Err(e) => Err(NetworkError::Crypto(e)),
                }
            },
        }
    }

    /// Takes what reading the socket gave at `now`. A payload that
    /// decrypts is returned and the peer counts as seen. A closed socket, a
    /// failed read and a payload that does not decrypt end the connection:
    /// the secret is dropped and the peer is disconnected. A connection
    /// without a secret, and so one that has ended, is not changed.
    pub fn receive_message(&mut self, incoming: Incoming, now: i64) -> (text: Result<
        String,
        NetworkError,
    >)
        requires
            old(self).wf(),
        ensures
            final(self).wf(),
            net_text_view(text) == receive_spec(old(self).secret_view(), incoming@),
            old(self).shared_secret is None ==> *final(self) == *old(self),
            text is Ok ==> final(self).shared_secret == old(self).shared_secret
                && final(self).peer@ == (PeerView { last_seen: now, ..old(self).peer@ }),
            text is Err && old(self).shared_secret is Some ==> final(self).shared_secret is None
                && final(self).peer@ == (PeerView {
                status: PeerStatus::Disconnected,
                last_seen: now,
                ..old(self).peer@
            }),
    {
        match &self.shared_secret {
            None => Err(NetworkError::NotAuthenticated),
            Some(secret) => {
                match incoming {
                    Incoming::Closed => {
                        self.close(now);
                        Err(NetworkError::ConnectionClosed)
                    },
                    Incoming::Failed => {
                        self.close(now);
                        Err(NetworkError::Transport)
                    },
                    Incoming::Payload(payload) => {
                        match CryptoEngine::decrypt_message(payload, secret) {
                            Ok(text) => {
                                self.peer.touch(now);
                                Ok(text)
                            },
                            Err(e) => {
                                self.close(now);
                                Err(NetworkError::Crypto(e))
                            },
                        }
                    },
                }
            },
        }
    }
}

/// No two connections are to the same peer.
pub open spec fn ids_distinct(connections: Seq<PeerConnection>) -> bool {
    forall|i: int, j: int|
        0 <= i < j < connections.len() ==> connections[i].peer.id != connections[j].peer.id
}

/// Some connection is to the peer `id`.
pub open spec fn holds_peer(connections: Seq<PeerConnection>, id: u128) -> bool {
    exists|i: int| 0 <= i < connections.len() && #[trigger] connections[i].peer.id == id
}

/// Where the connection to the peer `id` stands.
pub open spec fn slot_of(connections: Seq<PeerConnection>, id: u128) -> int {
    choose|i: int| 0 <= i < connections.len() && #[trigger] connections[i].peer.id == id
}

/// The peer that a text names is in the table.
pub open spec fn names_peer(connections: Seq<PeerConnection>, peer_id: Seq<char>) -> bool {
    match parse_id_spec(peer_id) {
        Some(id) => holds_peer(connections, id),
        None => false,
    }
}

/// `after` is `before` with the connection to `peer` registered under the
/// secret `secret`: in the place of an earlier connection to the same peer,
/// or else behind all others.
pub open spec fn registered(
    before: Seq<PeerConnection>,
    after: Seq<PeerConnection>,
    peer: PeerView,
    secret: Seq<u8>,
) -> bool {
    if holds_peer(before, peer.id) {
        let slot = slot_of(before, peer.id);
        &&& after.len() == before.len()
        &&& after[slot].peer@ == peer
        &&& after[slot].secret_view() == Some(secret)
        &&& forall|j: int| 0 <= j < before.len() && j != slot ==> after[j] == before[j]
    } else {
        &&& after.len() == before.len() + 1
        &&& after.drop_last() == before
        &&& after.last().peer@ == peer
        &&& after.last().secret_view() == Some(secret)
    }
}

/// `after` is `before` with one message more at its end, which is
/// `message` but for its identifier.
pub open spec fn gained(before: Seq<Message>, after: Seq<Message>, message: MessageView) -> bool {
    &&& after.len() == before.len() + 1
    &&& after.drop_last() == before
    &&& after.last()@ == (MessageView { id: after.last().id, ..message })
}

/// What the first message of a peer means for the handshake: the public
/// key of the peer, or the reason to refuse. No message means that the peer
/// did not speak in time.
pub open spec fn handshake_key_spec(first: Option<MessageView>) -> Result<Seq<u8>, NetworkError> {
    match first {
        None => Err(NetworkError::Handshake(HandshakeError::Timeout)),
        Some(message) => if message.message_type != MessageType::Handshake {
            Err(NetworkError::Handshake(HandshakeError::UnexpectedMessageKind))
        } else {
            match key_bytes_spec(message.content) {
                Ok(key) => Ok(key),
                Err(_) => Err(NetworkError::Handshake(HandshakeError::InvalidPublicKey)),
            }
        },
    }
}

/// The record of the peer whose handshake `first` was accepted at `now`.
pub open spec fn handshake_peer_spec(first: MessageView, address: Seq<char>, now: i64) -> PeerView {
    PeerView {
        id: first.sender_id,
        email: unknown_email(),
        display_name: first.sender_name,
        address,
        public_key: first.content,
        status: PeerStatus::Authenticated,
        connected_at: None,
        last_seen: now,
    }
}

/// The recipient that an envelope names: nobody is no recipient.
pub open spec fn recipient_spec(recipient_id: u128) -> Option<u128> {
    if recipient_id == NIL_ID {
        None
    } else {
        Some(recipient_id)
    }
}

/// The notice that announces a new connection.
pub open spec fn connected_notice_spec(name: Seq<char>, now: i64) -> MessageView {
    MessageView {
        id: NIL_ID,
        sender_id: NIL_ID,
        recipient_id: None,
        message_type: MessageType::System,
        content: "Connected to "@ + name,
        timestamp: now,
        sender_name: crate::message::system_name(),
    }
}

/// If a connection stands at `slot`, it is the one that `slot_of` names.
pub proof fn lemma_slot_unique(connections: Seq<PeerConnection>, id: u128, slot: int)
    requires
        ids_distinct(connections),
        0 <= slot < connections.len(),
        connections[slot].peer.id == id,
    ensures
        holds_peer(connections, id),
        slot_of(connections, id) == slot,
{
    let found = slot_of(connections, id);
    assert(0 <= found < connections.len() && connections[found].peer.id == id);
    if found < slot {
        assert(connections[found].peer.id != connections[slot].peer.id);
    } else if slot < found {
        assert(connections[slot].peer.id != connections[found].peer.id);
    }
}

/// The connection table of a node, with the queue through which the
/// messages of all peers surface in the order of their arrival.
#[derive(Debug)]
pub struct NetworkManager {
    pub identity: Identity,
    pub connections: Vec<PeerConnection>,
    pub inbox: Vec<Message>,
    pub listening_port: Option<u16>,
}

impl NetworkManager {
    /// Every connection in the table is live and well formed, no peer has
    /// two connections, and the private key of the identity can be read.
    pub open spec fn wf(&self) -> bool {
        &&& forall|i: int|
            0 <= i < self.connections@.len() ==> (#[trigger] self.connections@[i]).wf()
                && self.connections@[i].peer.status.is_live()
        &&& ids_distinct(self.connections@)
        &&& key_bytes_spec(self.identity.keypair.private_key@) is Ok
    }

    /// The chat text `content` that this node sends at `now` to the peer
    /// `recipient` under the identifier `message_id`.
    pub open spec fn outgoing_spec(
        &self,
        message_id: u128,
        recipient: u128,
        content: Seq<char>,
        now: i64,
    ) -> MessageView {
        MessageView {
            id: message_id,
            sender_id: self.identity.user_id,
            recipient_id: Some(recipient),
            message_type: MessageType::Text,
            content,
            timestamp: now,
            sender_name: self.identity.display_name_spec(),
        }
    }

    /// The private key of the local identity.
    pub open spec fn private_key_spec(&self) -> Seq<u8> {
        key_bytes_spec(self.identity.keypair.private_key@).unwrap()
    }

    /// A manager for `identity` with no connection, no message and no
    /// listener. An identity whose private key cannot be read is refused.
    pub fn new(identity: Identity) -> (manager: Result<NetworkManager, NetworkError>)
        ensures
            manager is Ok <==> key_bytes_spec(identity.keypair.private_key@) is Ok,
            manager is Err ==> manager.unwrap_err() == NetworkError::InvalidIdentity,
            manager is Ok ==> {
                &&& manager.unwrap().wf()
                &&& manager.unwrap().identity == identity
                &&& manager.unwrap().connections@.len() == 0
                &&& manager.unwrap().inbox@.len() == 0
                &&& manager.unwrap().listening_port is None
            },
    {
        match identity.get_private_key_bytes() {
            Err(_) => Err(NetworkError::InvalidIdentity),
            Ok(_) => Ok(
                NetworkManager {
                    identity,
                    connections: Vec::new(),
                    inbox: Vec::new(),
                    listening_port: None,
                },
            ),
        }
    }

    /// Records that the node listens on `port`. A node that listens already
    /// cannot bind again.
    pub fn start_listening(&mut self, port: u16) -> (out: Result<(), NetworkError>)
        ensures
            old(self).listening_port is Some ==> out == Err::<(), NetworkError>(NetworkError::Bind)
                && *final(self) == *old(self),
            old(self).listening_port is None ==> out is Ok && final(self).listening_port == Some(
                port,
            ) && final(self).identity == old(self).identity
                && final(self).connections == old(self).connections
                && final(self).inbox == old(self).inbox,
    {
        match self.listening_port {
            Some(_) => Err(NetworkError::Bind),
            None => {
                self.listening_port = Some(port);
                Ok(())
            },
        }
    }

    /// The handshake message of this node: its identifier, its name and
    /// its public key.
    pub fn handshake_message(&self) -> (message: Message)
        ensures
            message@ == (MessageView {
                id: message.id,
                sender_id: self.identity.user_id,
                recipient_id: None,
                message_type: MessageType::Handshake,
                content: self.identity.keypair.public_key@,
                timestamp: message.timestamp,
                sender_name: self.identity.display_name_spec(),
            }),
    {
        Message::handshake_message(
            self.identity.user_id,
            copy_text(&self.identity.keypair.public_key),
            self.identity.get_display_name(),
        )
    }

    /// Where the connection to the peer `id` stands, if there is one.
    pub fn position(&self, id: u128) -> (slot: Option<usize>)
        requires
            ids_distinct(self.connections@),
        ensures
            slot is Some <==> holds_peer(self.connections@, id),
            slot is Some ==> slot.unwrap() == slot_of(self.connections@, id) && slot.unwrap()
                < self.connections@.len() && self.connections@[slot.unwrap() as int].peer.id
                == id,
    {
        let mut i: usize = 0;
        while i < self.connections.len()
            invariant
                i <= self.connections@.len(),
                ids_distinct(self.connections@),
                forall|j: int| 0 <= j < i ==> self.connections@[j].peer.id != id,
            decreases self.connections@.len() - i,
        {
            if self.connections[i].peer.id == id {
                proof {
                    lemma_slot_unique(self.connections@, id, i as int);
                }
                return Some(i);
            }
            i += 1;
        }
        None
    }

    /// Puts a connection into the table: in the place of an earlier one to
    /// the same peer, or else behind all others.
    fn register(&mut self, connection: PeerConnection)
        requires
            old(self).wf(),
            connection.wf(),
            connection.peer.status.is_live(),
            connection.shared_secret is Some,
        ensures
            final(self).wf(),
            registered(
                old(self).connections@,
                final(self).connections@,
                connection.peer@,
                connection.secret_view().unwrap(),
            ),
            final(self).identity == old(self).identity,
            final(self).inbox == old(self).inbox,
            final(self).listening_port == old(self).listening_port,
    {
        let ghost before = self.connections@;
        match self.position(connection.peer.id) {
            Some(slot) => {
                self.connections.set(slot, connection);
                assert(ids_distinct(self.connections@)) by {
                    assert forall|i: int, j: int|
                        0 <= i < j < self.connections@.len() implies self.connections@[i].peer.id
                        != self.connections@[j].peer.id by {
                        assert(before[i].peer.id != before[j].peer.id);
                    }
                }
            },
            None => {
                self.connections.push(connection);
                assert(self.connections@.drop_last() =~= before);
                assert(ids_distinct(self.connections@)) by {
                    assert forall|i: int, j: int|
                        0 <= i < j < self.connections@.len() implies self.connections@[i].peer.id
                        != self.connections@[j].peer.id by {
                        if j < before.len() {
                            assert(before[i].peer.id != before[j].peer.id);
                        } else {
                            assert(before[i].peer.id != connection.peer.id);
                        }
                    }
                }
            },
        }
    }

    /// Completes a handshake at `now` on the first message that the peer at
    /// `address` sent, if one arrived in time. The same on the accepting and
    /// on the dialing side. See [`handshake_done`].
    pub fn complete_handshake(&mut self, first: Option<&Message>, address: &str, now: i64) -> (out:
        Result<Peer, NetworkError>)
        requires
            old(self).wf(),
        ensures
            final(self).wf(),
            handshake_done(*old(self), *final(self), first, address@, now, out),
    {
        let first = match first {
            None => {
                return Err(NetworkError::Handshake(HandshakeError::Timeout));
            },
            Some(first) => first,
        };
        match first.message_type {
            MessageType::Handshake => {},
            _ => {
                return Err(NetworkError::Handshake(HandshakeError::UnexpectedMessageKind));
            },
        }
        let their_public = match decode_key(first.content.as_str()) {
            Err(_) => {
                return Err(NetworkError::Handshake(HandshakeError::InvalidPublicKey));
            },
            Ok(key) => key,
        };
        let our_private = match self.identity.get_private_key_bytes() {
            Err(_) => {
                return Err(NetworkError::InvalidIdentity);
            },
            Ok(key) => key,
        };
        let peer = Peer::new_at(
            first.sender_id,
            "unknown@peer.local".to_string(),
            copy_text(&first.sender_name),
            address.to_string(),
            copy_text(&first.content),
            now,
        );
        let mut connection = PeerConnection::new(peer);
        match connection.authenticate(&our_private, &their_public, now) {
            Ok(()) => {},
            Err(e) => {
                return Err(e);
            },
        }
        let registered_peer = connection.peer.clone();
        self.register(connection);
        let notice = Message::with_parts(
            fresh_id(),
            now,
            NIL_ID,
            None,
            MessageType::System,
            String::from_str("Connected to ").concat(first.sender_name.as_str()),
            "System".to_string(),
        );
        let ghost inbox_before = self.inbox@;
        self.inbox.push(notice);
        assert(self.inbox@.drop_last() =~= inbox_before);
        Ok(registered_peer)
    }

    /// Accepts a connection from `address`. See [`handshake_done`].
    pub fn handle_incoming_connection(&mut self, first: Option<&Message>, address: &str, now: i64)
        -> (out: Result<Peer, NetworkError>)
        requires
            old(self).wf(),
        ensures
            final(self).wf(),
            handshake_done(*old(self), *final(self), first, address@, now, out),
    {
        self.complete_handshake(first, address, now)
    }

    /// Completes an outgoing connection to `address`. `dialed` says whether
    /// the peer could be reached. See [`connect_done`].
    pub fn connect_to_peer(
        &mut self,
        address: &str,
        dialed: bool,
        first: Option<&Message>,
        now: i64,
    ) -> (out: Result<Peer, NetworkError>)
        requires
            old(self).wf(),
        ensures
            final(self).wf(),
            connect_done(*old(self), *final(self), dialed, first, address@, now, out),
    {
        if !dialed {
            return Err(NetworkError::Dial);
        }
        self.complete_handshake(first, address, now)
    }

    /// The message and its envelope for `content`, sent at `now` to the peer
    /// `recipient` under the identifier `message_id`, given the encrypted
    /// content `payload`.
    pub fn envelope_for(
        &self,
        recipient: u128,
        content: &str,
        payload: String,
        message_id: u128,
        now: i64,
    ) -> (out: (Message, EncryptedMessage))
        ensures
            out.0@ == self.outgoing_spec(message_id, recipient, content@, now),
            out.1@ == envelope_spec(out.0@, payload@, self.identity.keypair.public_key@),
    {
        let message = Message::with_parts(
            message_id,
            now,
            self.identity.user_id,
            Some(recipient),
            MessageType::Text,
            content.to_string(),
            self.identity.get_display_name(),
        );
        let envelope = EncryptedMessage::from_message(
            &message,
            payload,
            copy_text(&self.identity.keypair.public_key),
        );
        (message, envelope)
    }

    /// Prepares `content` at `now` for the peer that `peer_id` names:
    /// encrypts it under the secret shared with the peer and wraps it in an
    /// envelope for the wire. The manager is not changed; once the envelope
    /// was written, or could not be, [`Self::confirm_sent`] is told. See
    /// [`send_prepared`].
    pub fn send_message(&self, peer_id: &str, content: &str, now: i64) -> (out: Result<
        (Message, EncryptedMessage),
        NetworkError,
    >)
        requires
            self.wf(),
        ensures
            send_prepared(*self, peer_id@, content@, now, out),
    {
        let id = match parse_id(peer_id) {
            None => {
                return Err(NetworkError::PeerNotFound);
            },
            Some(id) => id,
        };
        let slot = match self.position(id) {
            None => {
                return Err(NetworkError::PeerNotFound);
            },
            Some(slot) => slot,
        };
        match self.connections[slot].send_message(content) {
            Err(e) => Err(e),
            Ok(payload) => Ok(self.envelope_for(id, content, payload, fresh_id(), now)),
        }
    }

    /// Takes note at `now` of what became of a prepared message on the
    /// wire.
    ///
    /// A message that was written is published: it goes to the end of the
    /// queue, and the text of its identifier is returned. One that could not
    /// be written is not published: the result is `Transport`, and the
    /// connection to its recipient, if one is in the table, leaves the
    /// table.
    pub fn confirm_sent(&mut self, message: Message, written: bool, now: i64) -> (out: Result<
        String,
        NetworkError,
    >)
        requires
            old(self).wf(),
        ensures
            final(self).wf(),
            sent_confirmed(*old(self), *final(self), message, written, out),
    {
        if written {
            let text = id_text(message.id);
            self.inbox.push(message);
            Ok(text)
        } else {
            match message.recipient_id {
                None => {},
                Some(recipient) => {
                    let _ = self.disconnect_peer(recipient, now);
                },
            }
            Err(NetworkError::Transport)
        }
    }

    /// Takes an envelope that arrived at `now`. See [`received`].
    pub fn receive_envelope(&mut self, envelope: &EncryptedMessage, now: i64) -> (out: Result<
        Message,
        NetworkError,
    >)
        requires
            old(self).wf(),
        ensures
            final(self).wf(),
            received(*old(self), *final(self), *envelope, now, out),
    {
        let slot = match self.position(envelope.sender_id) {
            None => {
                return Err(NetworkError::PeerNotFound);
            },
            Some(slot) => slot,
        };
        let ghost before = self.connections@;
        if self.connections[slot].shared_secret.is_none() {
            return Err(NetworkError::NotAuthenticated);
        }
        let mut connection = self.connections.remove(slot);
        assert(connection == before[slot as int]);
        assert(ids_distinct(self.connections@)) by {
            assert forall|i: int, j: int|
                0 <= i < j < self.connections@.len() implies self.connections@[i].peer.id
                != self.connections@[j].peer.id by {
                let oi = if i < slot { i } else { i + 1 };
                let oj = if j < slot { j } else { j + 1 };
                assert(before[oi].peer.id != before[oj].peer.id);
            }
        }
        assert forall|i: int| 0 <= i < self.connections@.len() implies (
        #[trigger] self.connections@[i]).wf() && self.connections@[i].peer.status.is_live() by {
            let oi = if i < slot { i } else { i + 1 };
            assert(before[oi].wf());
        }
        match connection.receive_message(
            Incoming::Payload(envelope.encrypted_content.as_str()),
            now,
        ) {
            Err(e) => Err(e),
            Ok(text) => {
                let message = Message::with_parts(
                    fresh_id(),
                    envelope.timestamp,
                    envelope.sender_id,
                    if envelope.recipient_id == NIL_ID {
                        None
                    } else {
                        Some(envelope.recipient_id)
                    },
                    MessageType::Text,
                    text,
                    copy_text(&connection.peer.display_name),
                );
                let copy = message.clone();
                let ghost removed = self.connections@;
                self.connections.insert(slot, connection);
                assert(ids_distinct(self.connections@)) by {
                    assert forall|i: int, j: int|
                        0 <= i < j < self.connections@.len() implies self.connections@[i].peer.id
                        != self.connections@[j].peer.id by {
                        assert(self.connections@[i].peer.id == before[i].peer.id);
                        assert(self.connections@[j].peer.id == before[j].peer.id);
                    }
                }
                assert forall|i: int| 0 <= i < self.connections@.len() implies (
                #[trigger] self.connections@[i]).wf()
                    && self.connections@[i].peer.status.is_live() by {
                    if i != slot {
                        assert(self.connections@[i] == before[i]);
                        assert(before[i].wf());
                    } else {
                        assert(before[i].wf());
                    }
                }
                let ghost inbox_before = self.inbox@;
                self.inbox.push(message);
                assert(self.inbox@.drop_last() =~= inbox_before);
                Ok(copy)
            },
        }
    }

    /// The peers of all connections, in the order of the table.
    pub fn get_connected_peers(&self) -> (peers: Vec<Peer>)
        ensures
            peers@.len() == self.connections@.len(),
            forall|i: int|
                0 <= i < peers@.len() ==> (#[trigger] peers@[i])@ == self.connections@[i].peer@,
    {
        let mut peers: Vec<Peer> = Vec::new();
        let mut i: usize = 0;
        while i < self.connections.len()
            invariant
                i <= self.connections@.len(),
                peers@.len() == i,
                forall|j: int| 0 <= j < i ==> (#[trigger] peers@[j])@ == self.connections@[j].peer@,
            decreases self.connections@.len() - i,
        {
            peers.push(self.connections[i].peer.clone());
            i += 1;
        }
        peers
    }

    /// Removes the connection to the peer `peer_id` at `now` and returns the
    /// peer, disconnected. No such connection gives `PeerNotFound`.
    pub fn disconnect_peer(&mut self, peer_id: u128, now: i64) -> (out: Result<Peer, NetworkError>)
        requires
            old(self).wf(),
        ensures
            final(self).wf(),
            final(self).identity == old(self).identity,
            final(self).inbox == old(self).inbox,
            final(self).listening_port == old(self).listening_port,
            !holds_peer(final(self).connections@, peer_id),
            !holds_peer(old(self).connections@, peer_id) ==> out is Err && out.unwrap_err()
                == NetworkError::PeerNotFound && *final(self) == *old(self),
            holds_peer(old(self).connections@, peer_id) ==> {
                let slot = slot_of(old(self).connections@, peer_id);
                &&& out is Ok
                &&& out.unwrap()@ == (PeerView {
                    status: PeerStatus::Disconnected,
                    last_seen: now,
                    ..old(self).connections@[slot].peer@
                })
                &&& final(self).connections@ == old(self).connections@.remove(slot)
            },
    {
        let slot = match self.position(peer_id) {
            None => {
                return Err(NetworkError::PeerNotFound);
            },
            Some(slot) => slot,
        };
        let ghost before = self.connections@;
        let mut connection = self.connections.remove(slot);
        assert(ids_distinct(self.connections@)) by {
            assert forall|i: int, j: int|
                0 <= i < j < self.connections@.len() implies self.connections@[i].peer.id
                != self.connections@[j].peer.id by {
                let oi = if i < slot { i } else { i + 1 };
                let oj = if j < slot { j } else { j + 1 };
                assert(before[oi].peer.id != before[oj].peer.id);
            }
        }
        assert forall|i: int| 0 <= i < self.connections@.len() implies (
        #[trigger] self.connections@[i]).wf() && self.connections@[i].peer.status.is_live() by {
            let oi = if i < slot { i } else { i + 1 };
            assert(before[oi].wf());
        }
        assert(!holds_peer(self.connections@, peer_id)) by {
            assert forall|i: int|
                0 <= i < self.connections@.len() implies self.connections@[i].peer.id
                != peer_id by {
                let oi = if i < slot { i } else { i + 1 };
                if oi < slot {
                    assert(before[oi].peer.id != before[slot as int].peer.id);
                } else {
                    assert(before[slot as int].peer.id != before[oi].peer.id);
                }
            }
        }
        connection.close(now);
        Ok(connection.peer)
    }

    /// Takes the oldest message out of the queue, if there is one.
    pub fn receive_messages(&mut self) -> (message: Option<Message>)
        ensures
            final(self).identity == old(self).identity,
            final(self).connections == old(self).connections,
            final(self).listening_port == old(self).listening_port,
            old(self).inbox@.len() == 0 ==> message is None && final(self).inbox == old(self).inbox,
            old(self).inbox@.len() > 0 ==> message == Some(old(self).inbox@[0])
                && final(self).inbox@ == old(self).inbox@.subrange(
                1,
                old(self).inbox@.len() as int,
            ),
    {
        if self.inbox.len() == 0 {
            None
        } else {
            let ghost before = self.inbox@;
            let message = self.inbox.remove(0);
            assert(self.inbox@ =~= before.subrange(1, before.len() as int));
            Some(message)
        }
    }

    /// Answers at `now` a liveness probe of the peer that `peer_id` names.
    /// `probe` is the time in milliseconds within which the peer answered a
    /// probe frame, nothing where it did not answer in time or was not
    /// asked. A peer counts as online only if it is in the table and
    /// answered. The manager is not changed.
    pub fn ping_peer(&self, peer_id: &str, probe: Option<u64>, now: i64) -> (status: PeerPingStatus)
        requires
            ids_distinct(self.connections@),
        ensures
            status.user_id@ == peer_id@,
            status.is_online == (names_peer(self.connections@, peer_id@) && probe is Some),
            status.last_seen == now,
            status.response_time == if status.is_online {
                probe
            } else {
                None
            },
    {
        let known = match parse_id(peer_id) {
            None => false,
            Some(id) => self.position(id).is_some(),
        };
        match probe {
            Some(millis) => {
                if known {
                    PeerPingStatus::online_at(peer_id.to_string(), millis, now)
                } else {
                    PeerPingStatus::offline_at(peer_id.to_string(), now)
                }
            },
            None => PeerPingStatus::offline_at(peer_id.to_string(), now),
        }
    }

    /// Takes an envelope that arrived at `now` on the connection to the peer
    /// `from`. An envelope that names another sender breaks the protocol:
    /// the result is `Transport`, and the connection to `from`, if one is in
    /// the table, leaves the table. Any other envelope is taken as
    /// [`Self::receive_envelope`] takes it.
    pub fn receive_from(&mut self, from: u128, envelope: &EncryptedMessage, now: i64) -> (out:
        Result<Message, NetworkError>)
        requires
            old(self).wf(),
        ensures
            final(self).wf(),
            final(self).identity == old(self).identity,
            final(self).listening_port == old(self).listening_port,
            envelope.sender_id != from ==> {
                &&& out is Err
                &&& out.unwrap_err() == NetworkError::Transport
                &&& final(self).inbox == old(self).inbox
                &&& final(self).connections@ == dropped_spec(old(self).connections@, Some(from))
            },
            envelope.sender_id == from ==> received(*old(self), *final(self), *envelope, now, out),
    {
        if envelope.sender_id != from {
            let _ = self.disconnect_peer(from, now);
            Err(NetworkError::Transport)
        } else {
            self.receive_envelope(envelope, now)
        }
    }

    /// Changes the name under which the local user appears.
    pub fn set_nickname(&mut self, nickname: String) -> (out: Result<(), NetworkError>)
        ensures
            out is Ok,
            final(self).identity.display_name == Some(nickname),
            final(self).identity.user_id == old(self).identity.user_id,
            final(self).identity.email == old(self).identity.email,
            final(self).identity.keypair == old(self).identity.keypair,
            final(self).identity.password_hash == old(self).identity.password_hash,
            final(self).identity.password_salt == old(self).identity.password_salt,
            final(self).connections == old(self).connections,
            final(self).inbox == old(self).inbox,
            final(self).listening_port == old(self).listening_port,
    {
        self.identity.set_display_name(nickname);
        Ok(())
    }

    /// Closes every connection at `now` and empties the table. The peers
    /// are returned, disconnected, in the order of the table.
    pub fn shutdown_connections(&mut self, now: i64) -> (peers: Vec<Peer>)
        ensures
            final(self).connections@.len() == 0,
            final(self).identity == old(self).identity,
            final(self).inbox == old(self).inbox,
            final(self).listening_port == old(self).listening_port,
            peers@.len() == old(self).connections@.len(),
            forall|i: int|
                0 <= i < peers@.len() ==> (#[trigger] peers@[i])@ == (PeerView {
                    status: PeerStatus::Disconnected,
                    last_seen: now,
                    ..old(self).connections@[i].peer@
                }),
    {
        let ghost before = self.connections@;
        let mut peers: Vec<Peer> = Vec::new();
        let mut i: usize = 0;
        while i < self.connections.len()
            invariant
                i <= self.connections@.len(),
                self.connections@ == before,
                peers@.len() == i,
                forall|j: int|
                    0 <= j < i ==> (#[trigger] peers@[j])@ == (PeerView {
                        status: PeerStatus::Disconnected,
                        last_seen: now,
                        ..before[j].peer@
                    }),
            decreases self.connections@.len() - i,
        {
            let mut peer = self.connections[i].peer.clone();
            peer.mark_disconnected(now);
            peers.push(peer);
            i += 1;
        }
        self.connections.clear();
        peers
    }

    /// Stops listening and closes every connection at `now`.
    pub fn stop_listening(&mut self, now: i64) -> (out: Result<(), NetworkError>)
        ensures
            out is Ok,
            final(self).connections@.len() == 0,
            final(self).listening_port is None,
            final(self).identity == old(self).identity,
            final(self).inbox == old(self).inbox,
    {
        let _ = self.shutdown_connections(now);
        self.listening_port = None;
        Ok(())
    }

    /// Shuts the manager down at `now`: no connection and no listener are
    /// left. On a manager that is shut down already nothing changes.
    pub fn shutdown(&mut self, now: i64)
        ensures
            final(self).connections@.len() == 0,
            final(self).listening_port is None,
            final(self).identity == old(self).identity,
            final(self).inbox == old(self).inbox,
            final(self).wf() == (key_bytes_spec(old(self).identity.keypair.private_key@) is Ok),
            old(self).connections@.len() == 0 && old(self).listening_port is None
                ==> final(self).connections@ == old(self).connections@
                && final(self).listening_port == old(self).listening_port,
    {
        let _ = self.shutdown_connections(now);
        self.listening_port = None;
        assert(self.connections@ =~= Seq::<PeerConnection>::empty());
    }
}

/// What a handshake at `now` on the first message of the peer at `address`
/// makes of a manager.
///
/// A missing message, a message of another kind and a key of the wrong
/// form are refused and leave the manager as it was. Otherwise the peer is
/// registered as authenticated under the secret shared with it, and a
/// notice of the connection is queued.
pub open spec fn handshake_done(
    before: NetworkManager,
    after: NetworkManager,
    first: Option<&Message>,
    address: Seq<char>,
    now: i64,
    out: Result<Peer, NetworkError>,
) -> bool {
    &&& after.identity == before.identity
    &&& after.listening_port == before.listening_port
    &&& match handshake_key_spec(optional_message_view(first)) {
        Err(e) => out is Err && out.unwrap_err() == e && after == before,
        Ok(their_public) => {
            &&& out is Ok
            &&& out.unwrap()@ == handshake_peer_spec(first.unwrap()@, address, now)
            &&& registered(
                before.connections@,
                after.connections@,
                out.unwrap()@,
                shared_secret_spec(before.private_key_spec(), their_public),
            )
            &&& gained(
                before.inbox@,
                after.inbox@,
                connected_notice_spec(first.unwrap().sender_name@, now),
            )
        },
    }
}

/// What an outgoing connection makes of a manager: a peer that could not
/// be reached gives `Dial` and changes nothing; with one that was reached
/// the handshake decides.
pub open spec fn connect_done(
    before: NetworkManager,
    after: NetworkManager,
    dialed: bool,
    first: Option<&Message>,
    address: Seq<char>,
    now: i64,
    out: Result<Peer, NetworkError>,
) -> bool {
    if dialed {
        handshake_done(before, after, first, address, now, out)
    } else {
        out is Err && out.unwrap_err() == NetworkError::Dial && after == before
    }
}

/// The table without the connection to `recipient`, if there is such a
/// peer and such a connection.
pub open spec fn dropped_spec(connections: Seq<PeerConnection>, recipient: Option<u128>) -> Seq<
    PeerConnection,
> {
    match recipient {
        Some(id) if holds_peer(connections, id) => connections.remove(slot_of(connections, id)),
        _ => connections,
    }
}

/// What an envelope that arrived at `now` makes of a manager.
///
/// An envelope from a peer that is not in the table gives `PeerNotFound`,
/// one on a connection without a secret gives `NotAuthenticated`, and both
/// leave the manager as it was. Content that does not decrypt is fatal to
/// the connection: it leaves the table. Otherwise the message is queued and
/// returned, and the peer counts as seen.
pub open spec fn received(
    before: NetworkManager,
    after: NetworkManager,
    envelope: EncryptedMessage,
    now: i64,
    out: Result<Message, NetworkError>,
) -> bool {
    &&& after.identity == before.identity
    &&& after.listening_port == before.listening_port
    &&& !holds_peer(before.connections@, envelope.sender_id) ==> out is Err
        && out.unwrap_err() == NetworkError::PeerNotFound && after == before
    &&& holds_peer(before.connections@, envelope.sender_id) ==> {
        let slot = slot_of(before.connections@, envelope.sender_id);
        let connection = before.connections@[slot];
        match receive_spec(
            connection.secret_view(),
            IncomingView::Payload(envelope.encrypted_content@),
        ) {
            Err(e) => {
                &&& out is Err
                &&& out.unwrap_err() == e
                &&& after.inbox == before.inbox
                &&& if e == NetworkError::NotAuthenticated {
                    after.connections == before.connections
                } else {
                    after.connections@ == before.connections@.remove(slot)
                }
            },
            Ok(text) => {
                &&& out is Ok
                &&& out.unwrap()@ == (MessageView {
                    id: out.unwrap().id,
                    sender_id: envelope.sender_id,
                    recipient_id: recipient_spec(envelope.recipient_id),
                    message_type: MessageType::Text,
                    content: text,
                    timestamp: envelope.timestamp,
                    sender_name: connection.peer.display_name@,
                })
                &&& gained(before.inbox@, after.inbox@, out.unwrap()@)
                &&& after.inbox@.last().id == out.unwrap().id
                &&& after.connections@.len() == before.connections@.len()
                &&& after.connections@[slot].shared_secret
                    == connection.shared_secret
                &&& after.connections@[slot].peer@ == (PeerView {
                    last_seen: now,
                    ..connection.peer@
                })
                &&& forall|j: int|
                    0 <= j < before.connections@.len() && j != slot
                        ==> after.connections@[j] == before.connections@[j]
            },
        }
    }
}

/// What the news of a prepared message makes of a manager: `written` says
/// whether the envelope went out.
///
/// A message that was written is published: it goes to the end of the
/// queue, and the text of its identifier is returned. One that could not be
/// written is not published: the result is `Transport`, and the connection to
/// its recipient, if one is in the table, leaves the table.
pub open spec fn sent_confirmed(
    before: NetworkManager,
    after: NetworkManager,
    message: Message,
    written: bool,
    out: Result<String, NetworkError>,
) -> bool {
    &&& after.identity == before.identity
    &&& after.listening_port == before.listening_port
    &&& if written {
        &&& out is Ok
        &&& out.unwrap()@ == id_text_spec(message.id)
        &&& after.inbox@ == before.inbox@.push(message)
        &&& after.connections == before.connections
    } else {
        &&& out is Err
        &&& out.unwrap_err() == NetworkError::Transport
        &&& after.inbox == before.inbox
        &&& after.connections@ == dropped_spec(before.connections@, message.recipient_id)
    }
}

/// What preparing `content` at `now` for the peer that `peer_id` names
/// gives.
///
/// A text that names no peer of the table gives `PeerNotFound`, and a
/// connection without a secret gives `NotAuthenticated`. With a secret, a
/// content that the cipher does not seal gives `EncryptFailed`, and every
/// other content succeeds: the result is the plaintext message, addressed to
/// the peer and stamped `now`, and its envelope for the wire, whose content
/// is what some nonce yields under the secret, stands for that nonce and the
/// sealed content, and decrypts under the secret to `content`.
pub open spec fn send_prepared(
    manager: NetworkManager,
    peer_id: Seq<char>,
    content: Seq<char>,
    now: i64,
    out: Result<(Message, EncryptedMessage), NetworkError>,
) -> bool {
    if !names_peer(manager.connections@, peer_id) {
        out is Err && out.unwrap_err() == NetworkError::PeerNotFound
    } else {
        let id = parse_id_spec(peer_id).unwrap();
        let connection = manager.connections@[slot_of(manager.connections@, id)];
        match connection.secret_view() {
            None => out is Err && out.unwrap_err() == NetworkError::NotAuthenticated,
            Some(key) => if !sealable(content) {
                out is Err && out.unwrap_err() == NetworkError::Crypto(CryptoError::EncryptFailed)
            } else {
                &&& out is Ok
                &&& out.unwrap().0@ == manager.outgoing_spec(out.unwrap().0.id, id, content, now)
                &&& out.unwrap().1@ == envelope_spec(
                    out.unwrap().0@,
                    out.unwrap().1.encrypted_content@,
                    manager.identity.keypair.public_key@,
                )
                &&& exists|nonce: Seq<u8>|
                    {
                        &&& nonce.len() == NONCE_LEN
                        &&& Ok::<Seq<char>, CryptoError>(out.unwrap().1.encrypted_content@)
                            == #[trigger] encrypt_spec(content, key, nonce)
                        &&& carries(
                            out.unwrap().1.encrypted_content@,
                            nonce,
                            encode_utf8(content).len(),
                        )
                    }
                &&& decrypt_spec(out.unwrap().1.encrypted_content@, key) == Ok::<
                    Seq<char>,
                    CryptoError,
                >(content)
            },
        }
    }
}

/// What went wrong, in words.
pub open spec fn network_error_text(error: NetworkError) -> Seq<char> {
    match error {
        NetworkError::Bind => "Could not bind the listening port"@,
        NetworkError::Dial => "Could not reach the peer"@,
        NetworkError::Handshake(HandshakeError::UnexpectedMessageKind) =>
            "Expected handshake message"@,
        NetworkError::Handshake(HandshakeError::InvalidPublicKey) => "Invalid public key length"@,
        NetworkError::Handshake(HandshakeError::Timeout) => "Handshake timed out"@,
        NetworkError::Crypto(e) => crate::crypto::crypto_error_text(e),
        NetworkError::Transport => "Transport error"@,
        NetworkError::PeerNotFound => "Peer not found or not connected"@,
        NetworkError::NotAuthenticated => "No shared secret established"@,
        NetworkError::ConnectionClosed => "Connection closed"@,
        NetworkError::InvalidIdentity => "Invalid private key"@,
    }
}

impl NetworkError {
    /// What went wrong, in words.
    pub fn describe(&self) -> (text: String)
        ensures
            text@ == network_error_text(*self),
    {
        match self {
            NetworkError::Bind => "Could not bind the listening port".to_string(),
            NetworkError::Dial => "Could not reach the peer".to_string(),
            NetworkError::Handshake(HandshakeError::UnexpectedMessageKind) =>
                "Expected handshake message".to_string(),
            NetworkError::Handshake(HandshakeError::InvalidPublicKey) =>
                "Invalid public key length".to_string(),
            NetworkError::Handshake(HandshakeError::Timeout) => "Handshake timed out".to_string(),
            NetworkError::Crypto(e) => e.describe(),
            NetworkError::Transport => "Transport error".to_string(),
            NetworkError::PeerNotFound => "Peer not found or not connected".to_string(),
            NetworkError::NotAuthenticated => "No shared secret established".to_string(),
            NetworkError::ConnectionClosed => "Connection closed".to_string(),
            NetworkError::InvalidIdentity => "Invalid private key".to_string(),
        }
    }
}

/// What one side encrypted under the secret it derived, the other side
/// reads under the secret that it derived itself: if `payload` decrypts to
/// `content` under A's secret with B, then B, holding its secret with A,
/// receives `content`.
pub proof fn lemma_sent_is_received(
    a: crate::crypto::KeyPair,
    b: crate::crypto::KeyPair,
    payload: Seq<char>,
    content: Seq<char>,
)
    requires
        a.is_valid(),
        b.is_valid(),
        decrypt_spec(payload, shared_secret_spec(a.private_key@, b.public_key@)) == Ok::<
            Seq<char>,
            CryptoError,
        >(content),
    ensures
        receive_spec(
            Some(shared_secret_spec(b.private_key@, a.public_key@)),
            IncomingView::Payload(payload),
        ) == Ok::<Seq<char>, NetworkError>(content),
{
    crate::crypto::lemma_shared_secret_commutes(a, b);
}

/// A first message that is not a handshake is refused as
/// `UnexpectedMessageKind`, whatever else it holds, and the manager stays
/// as it was.
pub proof fn lemma_other_kind_is_refused(
    before: NetworkManager,
    after: NetworkManager,
    first: &Message,
    address: Seq<char>,
    now: i64,
    out: Result<Peer, NetworkError>,
)
    requires
        first.message_type != MessageType::Handshake,
        handshake_done(before, after, Some(first), address, now, out),
    ensures
        out is Err,
        out.unwrap_err() == NetworkError::Handshake(HandshakeError::UnexpectedMessageKind),
        after == before,
{
}

/// What one node prepared for another, the other takes. If the two nodes
/// hold valid key pairs, each has the other in its table under the secret it
/// derived itself, and the cipher seals `content`, then preparing `content`
/// succeeds, the receiver accepts the envelope, and the message that it
/// queues has this content, this sender and this time.
pub proof fn lemma_prepared_is_received(
    sender: NetworkManager,
    receiver: NetworkManager,
    after: NetworkManager,
    sender_keys: crate::crypto::KeyPair,
    receiver_keys: crate::crypto::KeyPair,
    peer_id: Seq<char>,
    content: Seq<char>,
    now: i64,
    later: i64,
    sent: Result<(Message, EncryptedMessage), NetworkError>,
    taken: Result<Message, NetworkError>,
)
    requires
        sender_keys.is_valid(),
        receiver_keys.is_valid(),
        names_peer(sender.connections@, peer_id),
        sender.connections@[slot_of(
            sender.connections@,
            parse_id_spec(peer_id).unwrap(),
        )].secret_view() == Some(
            shared_secret_spec(sender_keys.private_key@, receiver_keys.public_key@),
        ),
        holds_peer(receiver.connections@, sender.identity.user_id),
        receiver.connections@[slot_of(
            receiver.connections@,
            sender.identity.user_id,
        )].secret_view() == Some(
            shared_secret_spec(receiver_keys.private_key@, sender_keys.public_key@),
        ),
        sealable(content),
        send_prepared(sender, peer_id, content, now, sent),
        sent is Ok ==> received(receiver, after, sent.unwrap().1, later, taken),
    ensures
        sent is Ok,
        taken is Ok,
        taken.unwrap().content@ == content,
        taken.unwrap().sender_id == sender.identity.user_id,
        taken.unwrap().message_type == MessageType::Text,
        taken.unwrap().timestamp == now,
        after.inbox@.len() == receiver.inbox@.len() + 1,
        after.inbox@.last()@ == taken.unwrap()@,
{
    crate::crypto::lemma_shared_secret_commutes(sender_keys, receiver_keys);
    let envelope = sent.unwrap().1;
    assert(envelope.sender_id == sender.identity.user_id);
    assert(envelope.timestamp == now);
}

/// A manager takes the envelopes `envelopes` one after the other, each
/// with success: `states` are its states before, between and after, and
/// `taken` what it returned.
pub open spec fn taken_in_turn(
    states: Seq<NetworkManager>,
    envelopes: Seq<EncryptedMessage>,
    times: Seq<i64>,
    taken: Seq<Result<Message, NetworkError>>,
) -> bool {
    &&& states.len() == envelopes.len() + 1
    &&& times.len() == envelopes.len()
    &&& taken.len() == envelopes.len()
    &&& forall|i: int|
        0 <= i < envelopes.len() ==> (#[trigger] taken[i]) is Ok && received(
            states[i],
            states[i + 1],
            envelopes[i],
            times[i],
            taken[i],
        )
}

/// Messages come out in the order in which their envelopes came in. After
/// a manager took envelopes one after the other, its queue is the queue
/// from before, followed by the messages of these envelopes in the order of
/// their arrival: none is lost, none comes twice, none overtakes another.
/// [`NetworkManager::receive_messages`] takes them from the front.
pub proof fn lemma_messages_keep_their_order(
    states: Seq<NetworkManager>,
    envelopes: Seq<EncryptedMessage>,
    times: Seq<i64>,
    taken: Seq<Result<Message, NetworkError>>,
)
    requires
        taken_in_turn(states, envelopes, times, taken),
    ensures
        states.last().inbox@.len() == states[0].inbox@.len() + envelopes.len(),
        forall|i: int|
            0 <= i < states[0].inbox@.len() ==> states.last().inbox@[i] == states[0].inbox@[i],
        forall|i: int|
            0 <= i < envelopes.len() ==> states.last().inbox@[states[0].inbox@.len() + i]@
                == (#[trigger] taken[i]).unwrap()@,
    decreases envelopes.len(),
{
    let n = envelopes.len() as int;
    if n > 0 {
        let earlier = states.drop_last();
        assert(taken_in_turn(
            earlier,
            envelopes.drop_last(),
            times.drop_last(),
            taken.drop_last(),
        )) by {
            assert forall|i: int| 0 <= i < n - 1 implies (#[trigger] taken.drop_last()[i]) is Ok
                && received(
                earlier[i],
                earlier[i + 1],
                envelopes.drop_last()[i],
                times.drop_last()[i],
                taken.drop_last()[i],
            ) by {
                assert(taken[i] is Ok);
            }
        }
        lemma_messages_keep_their_order(
            earlier,
            envelopes.drop_last(),
            times.drop_last(),
            taken.drop_last(),
        );
        let before = states[n - 1];
        let after = states[n];
        assert(earlier.last() == before);
        assert(states.last() == after);
        assert(taken[n - 1] is Ok);
        assert(received(before, after, envelopes[n - 1], times[n - 1], taken[n - 1]));
        assert(after.inbox@.drop_last() == before.inbox@);
        assert(after.inbox@.last()@ == taken[n - 1].unwrap()@);
        assert forall|i: int| 0 <= i < n implies after.inbox@[states[0].inbox@.len() + i]@ == (
        #[trigger] taken[i]).unwrap()@ by {
            if i < n - 1 {
                assert(taken.drop_last()[i] == taken[i]);
                let at = states[0].inbox@.len() + i;
                assert(after.inbox@[at] == after.inbox@.drop_last()[at]);
            }
        }
        assert forall|i: int| 0 <= i < states[0].inbox@.len() implies after.inbox@[i]
            == states[0].inbox@[i] by {
            assert(after.inbox@[i] == after.inbox@.drop_last()[i]);
        }
    }
}

} // verus!

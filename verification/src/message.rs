//! The logical message that peers exchange and its encrypted wire form.
use vstd::prelude::*;
use crate::stamp::{fresh_id, now_millis, NIL_ID};
use crate::text::{copy_text};

verus! {

/// What a message is for.
#[derive(Debug, Clone, Copy, PartialEq, Eq, Structural)]
pub enum MessageType {
    Text,
    Connect,
    Disconnect,
    Handshake,
    KeyExchange,
    System,
}

/// The name under which the node itself speaks.
pub open spec fn system_name() -> Seq<char> {
    "System"@
}

/// One chat event before encryption.
#[derive(Debug)]
pub struct Message {
    pub id: u128,
    pub sender_id: u128,
    pub recipient_id: Option<u128>,
    pub message_type: MessageType,
    pub content: String,
    pub timestamp: i64,
    pub sender_name: String,
}

/// The mathematical value of a [`Message`].
pub struct MessageView {
    pub id: u128,
    pub sender_id: u128,
    pub recipient_id: Option<u128>,
    pub message_type: MessageType,
    pub content: Seq<char>,
    pub timestamp: i64,
    pub sender_name: Seq<char>,
}

impl View for Message {
    type V = MessageView;

    open spec fn view(&self) -> MessageView {
        MessageView {
            id: self.id,
            sender_id: self.sender_id,
            recipient_id: self.recipient_id,
            message_type: self.message_type,
            content: self.content@,
            timestamp: self.timestamp,
            sender_name: self.sender_name@,
        }
    }
}

impl Clone for Message {
    fn clone(&self) -> (copy: Message)
        ensures
            copy@ == self@,
    {
        Message {
            id: self.id,
            sender_id: self.sender_id,
            recipient_id: self.recipient_id,
            message_type: self.message_type,
            content: copy_text(&self.content),
            timestamp: self.timestamp,
            sender_name: copy_text(&self.sender_name),
        }
    }
}

impl Message {
    /// The message with every field given.
    pub fn with_parts(
        id: u128,
        timestamp: i64,
        sender_id: u128,
        recipient_id: Option<u128>,
        message_type: MessageType,
        content: String,
        sender_name: String,
    ) -> (message: Message)
        ensures
            message@ == (MessageView {
                id,
                sender_id,
                recipient_id,
                message_type,
                content: content@,
                timestamp,
                sender_name: sender_name@,
            }),
    {
        Message { id, sender_id, recipient_id, message_type, content, timestamp, sender_name }
    }

    /// A message with a fresh identifier, stamped with the current time.
    pub fn new(
        sender_id: u128,
        recipient_id: Option<u128>,
        message_type: MessageType,
        content: String,
        sender_name: String,
    ) -> (message: Message)
        ensures
            message@ == (MessageView {
                id: message.id,
                sender_id,
                recipient_id,
                message_type,
                content: content@,
                timestamp: message.timestamp,
                sender_name: sender_name@,
            }),
    {
        let id = fresh_id();
        let timestamp = now_millis();
        Message::with_parts(
            id,
            timestamp,
            sender_id,
            recipient_id,
            message_type,
            content,
            sender_name,
        )
    }

    /// Chat text for one recipient.
    pub fn text_message(sender_id: u128, recipient_id: u128, content: String, sender_name: String)
        -> (message: Message)
        ensures
            message@ == (MessageView {
                id: message.id,
                sender_id,
                recipient_id: Some(recipient_id),
                message_type: MessageType::Text,
                content: content@,
                timestamp: message.timestamp,
                sender_name: sender_name@,
            }),
    {
        Message::new(sender_id, Some(recipient_id), MessageType::Text, content, sender_name)
    }

    /// A notice of the node itself: no sender identity and no recipient.
    pub fn system_message(content: String) -> (message: Message)
        ensures
            message@ == (MessageView {
                id: message.id,
                sender_id: NIL_ID,
                recipient_id: None,
                message_type: MessageType::System,
                content: content@,
                timestamp: message.timestamp,
                sender_name: system_name(),
            }),
    {
        Message::new(NIL_ID, None, MessageType::System, content, "System".to_string())
    }

    /// The opening message of a connection: the content is the sender's
    /// public key, and there is no recipient.
    pub fn handshake_message(sender_id: u128, public_key: String, sender_name: String) -> (message:
        Message)
        ensures
            message@ == (MessageView {
                id: message.id,
                sender_id,
                recipient_id: None,
                message_type: MessageType::Handshake,
                content: public_key@,
                timestamp: message.timestamp,
                sender_name: sender_name@,
            }),
    {
        Message::new(sender_id, None, MessageType::Handshake, public_key, sender_name)
    }
}

/// The only form in which a message crosses the network after the
/// handshake: addressing and time in the clear, the content encrypted.
#[derive(Debug)]
pub struct EncryptedMessage {
    pub sender_id: u128,
    pub recipient_id: u128,
    pub encrypted_content: String,
    pub timestamp: i64,
    pub sender_public_key: String,
}

/// The mathematical value of an [`EncryptedMessage`].
pub struct EncryptedMessageView {
    pub sender_id: u128,
    pub recipient_id: u128,
    pub encrypted_content: Seq<char>,
    pub timestamp: i64,
    pub sender_public_key: Seq<char>,
}

impl View for EncryptedMessage {
    type V = EncryptedMessageView;

    open spec fn view(&self) -> EncryptedMessageView {
        EncryptedMessageView {
            sender_id: self.sender_id,
            recipient_id: self.recipient_id,
            encrypted_content: self.encrypted_content@,
            timestamp: self.timestamp,
            sender_public_key: self.sender_public_key@,
        }
    }
}

/// The envelope of a message: addressing and time are the message's, the
/// recipient of a message without one is nobody, and the content is
/// replaced by the ciphertext.
pub open spec fn envelope_spec(
    message: MessageView,
    encrypted_content: Seq<char>,
    sender_public_key: Seq<char>,
) -> EncryptedMessageView {
    EncryptedMessageView {
        sender_id: message.sender_id,
        recipient_id: match message.recipient_id {
            Some(id) => id,
            None => NIL_ID,
        },
        encrypted_content,
        timestamp: message.timestamp,
        sender_public_key,
    }
}

impl EncryptedMessage {
    /// Wraps a ciphertext in the addressing of the message it was made of.
    pub fn from_message(message: &Message, encrypted_content: String, sender_public_key: String)
        -> (envelope: EncryptedMessage)
        ensures
            envelope@ == envelope_spec(message@, encrypted_content@, sender_public_key@),
    {
        EncryptedMessage {
            sender_id: message.sender_id,
            recipient_id: match message.recipient_id {
                Some(id) => id,
                None => NIL_ID,
            },
            encrypted_content,
            timestamp: message.timestamp,
            sender_public_key,
        }
    }
}

} // verus!

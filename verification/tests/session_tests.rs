use reach::crypto::KeyPair;
use reach::identity::Identity;
use reach::message::{Message, MessageType};
use reach::network::{HandshakeError, NetworkError};
use reach::peer::Peer;
use reach::session::{ChatSession, SessionManager};

fn format_id(id: u128) -> String {
    uuid::Uuid::from_u128(id).to_string()
}

fn identity(id: u128, name: &str, seed: u8) -> Identity {
    let pair = KeyPair::from_private_key([seed; 32]);
    let mut identity = Identity::from_parts(id, format!("{}@example.com", name), "pw", &pair, &[]);
    identity.set_display_name(name.to_string());
    identity
}

fn peer(id: u128, name: &str) -> Peer {
    Peer::new_at(id, String::new(), name.to_string(), String::new(), String::new(), 0)
}

fn note(text: &str) -> Message {
    Message::with_parts(1, 2, 3, None, MessageType::Text, text.to_string(), "ann".to_string())
}

#[test]
fn session_lists_each_peer_once() {
    let mut session = ChatSession::new("s".to_string(), 9001);
    assert_eq!(session.id, "s");
    assert_eq!(session.current_port, 9001);
    assert!(session.get_peers().is_empty());
    session.add_peer(peer(1, "ann"));
    session.add_peer(peer(2, "bob"));
    session.add_peer(peer(1, "annie"));
    let names: Vec<&str> = session.get_peers().iter().map(|p| p.display_name.as_str()).collect();
    assert_eq!(names, vec!["annie", "bob"]);
    assert_eq!(session.position(2), Some(1));
    assert_eq!(session.position(3), None);
    assert_eq!(session.get_peer(&format_id(2)).unwrap().display_name, "bob");
    assert!(session.get_peer(&format_id(3)).is_none());
    assert!(session.get_peer("nobody").is_none());
    assert!(session.remove_peer("nobody").is_none());
    assert!(session.remove_peer(&format_id(3)).is_none());
    assert_eq!(session.remove_peer(&format_id(1)).unwrap().display_name, "annie");
    assert_eq!(session.get_peers().len(), 1);
    assert!(session.get_peer(&format_id(1)).is_none());
}

#[test]
fn history_only_grows_and_recent_takes_the_tail() {
    let mut session = ChatSession::new("s".to_string(), 9001);
    assert!(session.get_recent_messages(5).is_empty());
    for text in ["a", "b", "c", "d"] {
        session.add_message(note(text));
    }
    session.add_peer(peer(1, "ann"));
    session.remove_peer(&format_id(1));
    let all: Vec<&str> = session.message_history.iter().map(|m| m.content.as_str()).collect();
    assert_eq!(all, vec!["a", "b", "c", "d"]);
    let tail: Vec<&str> =
        session.get_recent_messages(2).iter().map(|m| m.content.as_str()).collect();
    assert_eq!(tail, vec!["c", "d"]);
    assert_eq!(session.get_recent_messages(4).len(), 4);
    assert_eq!(session.get_recent_messages(9).len(), 4);
    assert_eq!(session.get_recent_messages(0).len(), 0);
    assert_eq!(session.get_recent_messages(usize::MAX).len(), 4);
}

#[test]
fn session_manager_runs_a_session() {
    let mut ann = SessionManager::new(identity(11, "ann", 1)).unwrap();
    let bob = SessionManager::new(identity(22, "bob", 2)).unwrap();
    assert_eq!(ann.get_session_info(), None);
    assert_eq!(ann.info_command(), None);
    assert_eq!(ann.get_peer_count(), 0);
    assert!(ann.get_active_peers().is_empty());
    assert!(ann.list_recent_messages(10).is_empty());

    assert_eq!(ann.start_session(9001, 1_700_000_000_123), Ok("session_1700000000123".to_string()));
    assert_eq!(ann.get_session_info(), Some(("session_1700000000123".to_string(), 9001, 0)));
    assert_eq!(ann.network.listening_port, Some(9001));
    assert_eq!(ann.start_session(9002, 5), Err(NetworkError::Bind));
    assert_eq!(ann.get_session_info(), Some(("session_1700000000123".to_string(), 9001, 0)));

    let hello = bob.network.handshake_message();
    assert_eq!(ann.connect_to_peer("127.0.0.1:9002", false, Some(&hello), 10), Err(NetworkError::Dial));
    assert_eq!(
        ann.connect_to_peer("127.0.0.1:9002", true, None, 10),
        Err(NetworkError::Handshake(HandshakeError::Timeout))
    );
    assert_eq!(ann.get_peer_count(), 0);
    assert_eq!(ann.connect_to_peer("127.0.0.1:9002", true, Some(&hello), 10), Ok(()));
    assert_eq!(ann.get_peer_count(), 1);
    assert_eq!(ann.get_active_peers()[0].id, 22);
    assert_eq!(ann.get_active_peers()[0].display_name, "bob");
    assert_eq!(ann.network.connections.len(), 1);

    assert_eq!(ann.send_message("to nobody".to_string(), Some("nobody"), 20).unwrap_err(), NetworkError::PeerNotFound);
    assert!(ann.list_recent_messages(10).is_empty());
    let (message, envelope) =
        ann.send_message("hi bob".to_string(), Some(&format_id(22)), 21).unwrap().unwrap();
    assert!(ann.list_recent_messages(10).is_empty());
    let (lost, _) =
        ann.send_message("lost".to_string(), Some(&format_id(22)), 21).unwrap().unwrap();
    let sent = message.id;
    assert_eq!(ann.confirm_sent(message, true, 21), Ok(format_id(sent)));
    assert_eq!(ann.list_recent_messages(10).len(), 1);
    assert_eq!(
        ann.info_command(),
        Some("Session Info:\n   ID: session_1700000000123\n   Port: 9001\n   Connected peers: 1".to_string())
    );
    assert_eq!(ann.confirm_sent(lost, false, 21), Err(NetworkError::Transport));
    assert_eq!(ann.list_recent_messages(10).len(), 1);
    assert!(ann.network.connections.is_empty());
    assert_eq!(ann.get_peer_count(), 1);
    assert_eq!(envelope.recipient_id, 22);
    assert_eq!(envelope.timestamp, 21);
    assert!(ann.send_message("dear diary".to_string(), None, 22).unwrap().is_none());
    let history = ann.list_recent_messages(10);
    assert_eq!(history.len(), 2);
    assert_eq!(history[0].content, "hi bob");
    assert_eq!(history[0].recipient_id, Some(22));
    assert_eq!(history[0].sender_id, 11);
    assert_eq!(history[0].timestamp, 21);
    assert_eq!(history[1].content, "dear diary");
    assert_eq!(history[1].recipient_id, None);
    assert_eq!(history[1].sender_name, "ann");
    assert_eq!(ann.list_recent_messages(1)[0].content, "dear diary");

    let mut early = SessionManager::new(identity(33, "cat", 3)).unwrap();
    assert_eq!(early.start_session(1, -42), Ok("session_-42".to_string()));
    let mut epoch = SessionManager::new(identity(44, "dan", 4)).unwrap();
    assert_eq!(epoch.start_session(1, 0), Ok("session_0".to_string()));

    assert_eq!(ann.end_session(30), Ok(()));
    assert_eq!(ann.get_session_info(), None);
    assert_eq!(ann.network.listening_port, None);
    assert!(ann.network.connections.is_empty());
    assert!(ann.list_recent_messages(10).is_empty());
    assert!(ann.send_message("after".to_string(), None, 31).unwrap().is_none());
    assert_eq!(ann.get_peer_count(), 0);
}

use reach::chat_app::{ChatApp, ChatError, ChatMessage};
use reach::command::Command;
use reach::config::Config;
use reach::crypto::KeyPair;
use reach::identity::{Identity, UserCredentials};
use reach::network::{HandshakeError, NetworkError};

fn format_id(id: u128) -> String {
    uuid::Uuid::from_u128(id).to_string()
}

fn app(email: &str) -> ChatApp {
    ChatApp::new(email.to_string(), "pw".to_string()).unwrap()
}

#[test]
fn test_message_creation() {
    let message = ChatMessage {
        id: format_id(7),
        from_user_id: "user1".to_string(),
        to_user_id: "user2".to_string(),
        content: "Hello, World!".to_string(),
        timestamp: 1_700_000_000_000,
        encrypted: true,
        message_type: "text".to_string(),
    };
    assert_eq!(message.content, "Hello, World!");
    assert_eq!(message.from_user_id, "user1");
    assert_eq!(message.to_user_id, "user2");
    assert!(message.encrypted);
    let copy = message.clone();
    assert_eq!(copy.id, message.id);
    assert_eq!(copy.message_type, "text");
    assert_eq!(copy.timestamp, 1_700_000_000_000);
}

#[test]
fn application_starts_empty() {
    let ann = app("ann@example.com");
    assert_eq!(ann.engine.identity.email, "ann@example.com");
    assert!(ann.engine.identity.verify_password("pw"));
    assert_eq!(ann.config.identity.user_id, ann.engine.identity.user_id);
    assert!(ann.get_connected_peers().is_empty());
    assert!(ann.get_message_history().is_empty());
    let info = ann.get_user_info();
    assert_eq!(info.user_id, format_id(ann.engine.identity.user_id));
    assert_eq!(info.email, "ann@example.com");
    assert_eq!(info.nickname, None);
    assert_eq!(info.public_key, ann.engine.identity.keypair.public_key);
    assert_eq!(ann.list_commands().len(), 9);

    let pair = KeyPair::from_private_key([9u8; 32]);
    let identity = Identity::from_parts(5, "cfg@example.com".to_string(), "pw", &pair, &[]);
    let from_config = ChatApp::from_config(Config::new(identity)).unwrap();
    assert_eq!(from_config.config.identity.user_id, 5);
    assert_eq!(from_config.engine.identity.email, "cfg@example.com");
    assert_eq!(from_config.get_user_info().user_id, format_id(5));
    let kept = ChatApp::for_identity(Config::new(
        Identity::from_parts(6, "kept@example.com".to_string(), "pw", &pair, &[]),
    ))
    .unwrap();
    assert_eq!(kept.engine.identity.user_id, 6);
    assert_eq!(kept.engine.network.identity.user_id, 6);
    assert_eq!(kept.engine.network.identity.get_private_key_bytes(), Ok([9u8; 32]));
    let mut broken = Identity::from_parts(7, "x@example.com".to_string(), "pw", &pair, &[]);
    broken.keypair.private_key = "AAAA".to_string();
    assert_eq!(
        ChatApp::for_identity(Config::new(broken)).unwrap_err(),
        NetworkError::InvalidIdentity
    );
    let credentials = UserCredentials { email: "a".to_string(), password: "b".to_string() };
    let copy = credentials.clone();
    assert_eq!(copy.email, "a");
    assert_eq!(copy.password, "b");
    assert_eq!(pair.clone().public_key, pair.public_key);
}

#[test]
fn application_connects_probes_and_sends() {
    let mut ann = app("ann@example.com");
    let bob = app("bob@example.com");
    let bob_id = format_id(bob.engine.identity.user_id);
    assert_eq!(ann.start_server(9001), Ok(()));
    assert_eq!(ann.start_server(9001), Err(NetworkError::Bind));

    assert_eq!(
        ann.send_message(&bob_id, "too early", Some(1), 5).unwrap_err(),
        ChatError::PeerOffline
    );
    assert!(ann.get_message_history().is_empty());

    let hello = bob.engine.network.handshake_message();
    assert_eq!(ann.connect_to_peer("1.2.3.4:5", false, Some(&hello), 10), Err(NetworkError::Dial));
    assert_eq!(
        ann.connect_to_peer("1.2.3.4:5", true, None, 10),
        Err(NetworkError::Handshake(HandshakeError::Timeout))
    );
    assert!(ann.get_connected_peers().is_empty());
    assert_eq!(ann.connect_to_peer("1.2.3.4:5", true, Some(&hello), 10), Ok(()));
    let book = ann.get_connected_peers();
    assert_eq!(book.len(), 1);
    assert_eq!(book[0].id, bob_id);
    assert_eq!(book[0].email, "unknown@peer.local");
    assert_eq!(book[0].nickname, Some(bob.engine.identity.get_display_name()));
    assert!(book[0].is_online);
    assert_eq!(book[0].last_seen, 10);
    assert_eq!(book[0].response_time, None);
    assert_eq!(ann.connect_to_peer("1.2.3.4:6", true, Some(&hello), 11), Ok(()));
    assert_eq!(ann.get_connected_peers().len(), 1);
    assert_eq!(ann.get_connected_peers()[0].last_seen, 11);

    let silent = ann.check_peer_status(&bob_id, None, 12);
    assert!(!silent.is_online);
    assert_eq!(silent.last_seen, 12);
    assert!(!ann.get_connected_peers()[0].is_online);
    assert_eq!(ann.get_connected_peers()[0].response_time, None);
    assert_eq!(ann.get_connected_peers()[0].last_seen, 12);
    let answered = ann.check_peer_status(&bob_id, Some(12), 13);
    assert!(answered.is_online);
    assert!(ann.get_connected_peers()[0].is_online);
    assert_eq!(ann.get_connected_peers()[0].response_time, Some(12));
    assert_eq!(ann.get_connected_peers()[0].last_seen, 13);
    let stranger = ann.check_peer_status("fake_peer_123", Some(1), 14);
    assert!(!stranger.is_online);
    assert_eq!(ann.get_connected_peers().len(), 1);
    assert!(ann.get_connected_peers()[0].is_online);
    assert_eq!(ann.get_connected_peers()[0].last_seen, 13);

    assert_eq!(
        ann.send_message(&bob_id, "no answer", None, 20).unwrap_err(),
        ChatError::PeerOffline
    );
    assert!(!ann.get_connected_peers()[0].is_online);
    assert!(ann.get_message_history().is_empty());
    let (message, envelope) = ann.send_message(&bob_id, "hello bob", Some(3), 21).unwrap();
    assert_eq!(envelope.recipient_id, bob.engine.identity.user_id);
    assert_eq!(envelope.timestamp, 21);
    assert!(ann.get_message_history().is_empty());
    assert!(ann.engine.network.inbox.iter().all(|m| m.content != "hello bob"));
    let sent = message.id;
    assert_eq!(ann.confirm_sent(message, true, 22), Ok(format_id(sent)));
    let history = ann.get_message_history();
    assert_eq!(history.len(), 1);
    assert_eq!(history[0].content, "hello bob");
    assert_eq!(history[0].from_user_id, format_id(ann.engine.identity.user_id));
    assert_eq!(history[0].to_user_id, bob_id);
    assert_eq!(history[0].timestamp, 21);
    assert!(history[0].encrypted);
    assert_eq!(history[0].message_type, "text");
    assert_eq!(history[0].id, format_id(sent));
    assert_eq!(ann.engine.network.inbox.last().unwrap().content, "hello bob");

    assert_eq!(ann.set_nickname("annie".to_string()), Ok(()));
    assert_eq!(ann.engine.network.identity.display_name, Some("annie".to_string()));
    let (lost, _) = ann.send_message(&bob_id, "lost", Some(3), 23).unwrap();
    assert_eq!(ann.confirm_sent(lost, false, 24), Err(NetworkError::Transport));
    assert_eq!(ann.get_message_history().len(), 1);
    assert!(ann.engine.network.connections.is_empty());
    ann.shutdown(30);
    assert!(ann.engine.network.connections.is_empty());
    assert_eq!(ann.engine.network.listening_port, None);
    assert_eq!(ann.get_connected_peers().len(), 1);
    assert_eq!(ann.get_message_history().len(), 1);
    assert_eq!(
        ann.send_message(&bob_id, "after", Some(3), 31).unwrap_err(),
        ChatError::PeerOffline
    );
}

#[test]
fn application_answers_what_it_can() {
    let mut ann = app("ann@example.com");
    assert_eq!(
        ann.handle_command("hello").unwrap(),
        "Invalid command. Type /help for available commands."
    );
    assert_eq!(ann.handle_command("/quit").unwrap(), "quit");
    assert_eq!(ann.handle_command("/send x").unwrap(), "Usage: /send <peer_id> <message>");
    assert!(ann.handle_command("/help").unwrap().starts_with("Available commands:\n"));
    assert_eq!(
        ann.handle_command("/nope").unwrap(),
        "Unknown command: /nope. Type /help for available commands."
    );
    assert_eq!(
        ann.handle_command("/exit").unwrap(),
        "Unknown command: /exit. Type /help for available commands."
    );
    assert_eq!(
        ann.handle_command("/info").unwrap(),
        "Unknown command: /info. Type /help for available commands."
    );
    assert_eq!(ann.handle_command("/nick John Smith").unwrap(), "Nickname set to: John Smith");
    assert_eq!(ann.engine.network.identity.display_name, Some("John Smith".to_string()));
    assert_eq!(ann.engine.network.handshake_message().sender_name, "John Smith");
    assert_eq!(ann.handle_command("/peers").unwrap(), "No connected peers.");
    assert_eq!(ann.handle_command("/history").unwrap(), "No message history.");
    assert_eq!(ann.handle_command("/history 5").unwrap(), "No message history.");
    match ann.handle_command("/send abc hi there") {
        Err(Command::Send(peer, text)) => {
            assert_eq!(peer, "abc");
            assert_eq!(text, "hi there");
        }
        other => panic!("unexpected {:?}", other),
    }
    assert!(matches!(ann.handle_command("/connect 1.2.3.4:5"), Err(Command::Connect(_))));
    assert!(matches!(ann.handle_command("/status abc"), Err(Command::Status(_))));
}

#[test]
fn id_is_answered_as_json() {
    let pair = KeyPair::from_private_key([9u8; 32]);
    let mut identity = Identity::from_parts(5, "c\"fg@example.com".to_string(), "pw", &pair, &[]);
    let mut ann = ChatApp::from_config(Config::new(identity.clone())).unwrap();
    let mut map = serde_json::Map::new();
    map.insert("user_id".to_string(), serde_json::Value::from(format_id(5)));
    map.insert("email".to_string(), serde_json::Value::from("c\"fg@example.com"));
    map.insert("nickname".to_string(), serde_json::Value::Null);
    map.insert("public_key".to_string(), serde_json::Value::from(pair.public_key_base64()));
    let expected = serde_json::to_string_pretty(&serde_json::Value::Object(map)).unwrap();
    assert_eq!(ann.handle_command("/id").unwrap(), format!("User Info:\n{}", expected));
    assert_eq!(ann.id_command(), format!("User Info:\n{}", expected));

    identity.set_display_name("Ann \\ B".to_string());
    let named = ChatApp::from_config(Config::new(identity)).unwrap();
    assert!(named.id_command().contains("\"nickname\": \"Ann \\\\ B\""));
}

#[test]
fn commands_are_carried_out_and_answered() {
    let mut ann = app("ann@example.com");
    let bob = app("bob@example.com");
    let bob_id = format_id(bob.engine.identity.user_id);
    let hello = bob.engine.network.handshake_message();
    assert_eq!(
        ann.connect_command("1.2.3.4:5", false, None, 1),
        ("Failed to connect to 1.2.3.4:5: Could not reach the peer".to_string(), None)
    );
    assert_eq!(
        ann.connect_command("1.2.3.4:5", true, None, 1),
        ("Failed to connect to 1.2.3.4:5: Handshake timed out".to_string(), None)
    );
    let not_a_handshake = reach::message::Message::text_message(
        1,
        2,
        "hi".to_string(),
        "eve".to_string(),
    );
    assert_eq!(
        ann.connect_command("1.2.3.4:5", true, Some(&not_a_handshake), 1),
        ("Failed to connect to 1.2.3.4:5: Expected handshake message".to_string(), None)
    );
    assert_eq!(
        ann.connect_command("1.2.3.4:5", true, Some(&hello), 1),
        (
            "Successfully connected to 1.2.3.4:5".to_string(),
            Some(bob.engine.identity.user_id)
        )
    );
    assert_eq!(
        ann.peers_command(),
        format!("Connected Peers:\n\u{2022} unknown@peer.local ({}) - online", bob_id)
    );
    assert_eq!(
        ann.status_command(&bob_id, None, 1_700_000_000_000),
        format!("Peer {} status: offline (last seen: 2023-11-14 22:13:20 UTC)", bob_id)
    );
    assert_eq!(
        ann.status_command(&bob_id, Some(4), 1_700_000_060_000),
        format!("Peer {} status: online (last seen: 2023-11-14 22:14:20 UTC)", bob_id)
    );
    assert_eq!(
        ann.send_command("nobody", "hi", Some(1), 2).unwrap_err(),
        "Failed to send message: Peer is offline"
    );
    assert_eq!(
        ann.send_command(&bob_id, "hi", None, 2).unwrap_err(),
        "Failed to send message: Peer is offline"
    );
    let (message, _) = ann.send_command(&bob_id, "hi", Some(1), 3_723_000).unwrap();
    assert_eq!(ann.sent_command(&bob_id, message, true, 4), format!("Message sent to {}", bob_id));
    assert_eq!(
        ann.history_command(),
        format!("Recent Messages:\n[01:02:03] {}: hi", format_id(ann.engine.identity.user_id))
    );
    let (message, _) = ann.send_command(&bob_id, "lost", Some(1), 5).unwrap();
    assert_eq!(
        ann.sent_command(&bob_id, message, false, 6),
        "Failed to send message: Transport error"
    );
    assert_eq!(
        ann.send_command(&bob_id, "gone", Some(1), 7).unwrap_err(),
        "Failed to send message: Peer is offline"
    );
    assert_eq!(ann.nick_command("Annie"), "Nickname set to: Annie");
    for i in 0..25 {
        let hello = bob.engine.network.handshake_message();
        ann.connect_command("1.2.3.4:5", true, Some(&hello), 8);
        let (message, _) = ann.send_command(&bob_id, &format!("m{}", i), Some(1), 9).unwrap();
        ann.sent_command(&bob_id, message, true, 9);
    }
    assert_eq!(ann.history_command().lines().count(), 21);
    assert_eq!(ChatError::PeerOffline.describe(), "Peer is offline");
    assert_eq!(
        ChatError::Network(NetworkError::PeerNotFound).describe(),
        "Peer not found or not connected"
    );
}

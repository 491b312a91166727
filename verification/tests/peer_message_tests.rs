use reach::message::{EncryptedMessage, Message, MessageType};
use reach::peer::{Peer, PeerPingStatus, PeerStatus};

fn peer() -> Peer {
    Peer::new_at(
        9,
        "p@x.y".to_string(),
        "pat".to_string(),
        "1.2.3.4:5".to_string(),
        "key".to_string(),
        100,
    )
}

#[test]
fn peer_starts_connecting() {
    let p = peer();
    assert_eq!(p.id, 9);
    assert_eq!(p.email, "p@x.y");
    assert_eq!(p.display_name, "pat");
    assert_eq!(p.address, "1.2.3.4:5");
    assert_eq!(p.public_key, "key");
    assert_eq!(p.status, PeerStatus::Connecting);
    assert_eq!(p.connected_at, None);
    assert_eq!(p.last_seen, 100);
    assert!(!p.is_connected());
    assert_eq!(p.connection_duration_at(500), None);
    let now = Peer::new(
        9,
        "p@x.y".to_string(),
        "pat".to_string(),
        "1.2.3.4:5".to_string(),
        "key".to_string(),
    );
    assert_eq!(now.status, PeerStatus::Connecting);
    assert!(now.last_seen > 1_600_000_000_000);
    assert_eq!(now.connection_duration(), None);
}

#[test]
fn peer_moves_through_its_states() {
    let mut p = peer();
    p.mark_connected(200);
    assert_eq!(p.status, PeerStatus::Connected);
    assert_eq!(p.connected_at, Some(200));
    assert_eq!(p.last_seen, 200);
    assert!(p.is_connected());
    assert_eq!(p.connection_duration_at(700), Some(500));
    assert_eq!(p.connection_duration_at(100), Some(-100));
    p.mark_authenticated(300);
    assert_eq!(p.status, PeerStatus::Authenticated);
    assert_eq!(p.connected_at, Some(200));
    assert_eq!(p.last_seen, 300);
    assert!(p.is_connected());
    p.touch(350);
    assert_eq!(p.last_seen, 350);
    assert_eq!(p.status, PeerStatus::Authenticated);
    p.mark_disconnected(400);
    assert_eq!(p.status, PeerStatus::Disconnected);
    assert_eq!(p.last_seen, 400);
    assert!(!p.is_connected());
    assert_eq!(p.display_name, "pat");
    let copy = p.clone();
    assert_eq!(copy.id, 9);
    assert_eq!(copy.status, PeerStatus::Disconnected);
    assert_eq!(copy.address, "1.2.3.4:5");
}

#[test]
fn peer_setters_use_the_clock() {
    let mut p = peer();
    p.set_connected();
    assert_eq!(p.status, PeerStatus::Connected);
    assert_eq!(p.connected_at, Some(p.last_seen));
    assert!(p.last_seen > 1_600_000_000_000);
    assert!(p.connection_duration().unwrap() >= 0);
    p.set_authenticated();
    assert_eq!(p.status, PeerStatus::Authenticated);
    p.last_seen = 0;
    p.update_last_seen();
    assert!(p.last_seen > 1_600_000_000_000);
    p.set_disconnected();
    assert_eq!(p.status, PeerStatus::Disconnected);
    assert_eq!(p.email, "p@x.y");
}

#[test]
fn duration_stays_within_range() {
    let mut p = peer();
    p.mark_connected(i64::MIN);
    assert_eq!(p.connection_duration_at(i64::MAX), Some(i64::MAX));
    p.mark_connected(i64::MAX);
    assert_eq!(p.connection_duration_at(i64::MIN), Some(i64::MIN));
    p.mark_connected(5);
    assert_eq!(p.connection_duration_at(5), Some(0));
}

#[test]
fn ping_status_online_and_offline() {
    let on = PeerPingStatus::online("abc".to_string(), 12);
    assert_eq!(on.user_id, "abc");
    assert!(on.is_online);
    assert_eq!(on.response_time, Some(12));
    let off = PeerPingStatus::offline("abc".to_string());
    assert_eq!(off.user_id, "abc");
    assert!(!off.is_online);
    assert_eq!(off.response_time, None);
}

#[test]
fn message_constructors_set_kind_and_addressing() {
    let text = Message::text_message(1, 2, "hi".to_string(), "ann".to_string());
    assert_eq!(text.sender_id, 1);
    assert_eq!(text.recipient_id, Some(2));
    assert_eq!(text.message_type, MessageType::Text);
    assert_eq!(text.content, "hi");
    assert_eq!(text.sender_name, "ann");
    assert!(text.timestamp > 1_600_000_000_000);
    let other = Message::text_message(1, 2, "hi".to_string(), "ann".to_string());
    assert_ne!(text.id, other.id);

    let system = Message::system_message("up".to_string());
    assert_eq!(system.sender_id, 0);
    assert_eq!(system.recipient_id, None);
    assert_eq!(system.message_type, MessageType::System);
    assert_eq!(system.content, "up");
    assert_eq!(system.sender_name, "System");

    let hello = Message::handshake_message(3, "KEY".to_string(), "cat".to_string());
    assert_eq!(hello.sender_id, 3);
    assert_eq!(hello.recipient_id, None);
    assert_eq!(hello.message_type, MessageType::Handshake);
    assert_eq!(hello.content, "KEY");
    assert_eq!(hello.sender_name, "cat");

    let made = Message::new(4, Some(5), MessageType::KeyExchange, "k".to_string(), "dan".to_string());
    assert_eq!(made.message_type, MessageType::KeyExchange);
    assert_eq!(made.recipient_id, Some(5));
    let copy = made.clone();
    assert_eq!(copy.id, made.id);
    assert_eq!(copy.content, "k");
    assert_eq!(copy.timestamp, made.timestamp);
}

#[test]
fn envelope_keeps_addressing_and_drops_content() {
    let message =
        Message::with_parts(7, 1234, 1, Some(2), MessageType::Text, "secret".to_string(), "ann".to_string());
    let envelope = EncryptedMessage::from_message(&message, "CIPHER".to_string(), "PUB".to_string());
    assert_eq!(envelope.sender_id, 1);
    assert_eq!(envelope.recipient_id, 2);
    assert_eq!(envelope.encrypted_content, "CIPHER");
    assert_eq!(envelope.timestamp, 1234);
    assert_eq!(envelope.sender_public_key, "PUB");
    let broadcast =
        Message::with_parts(7, 1234, 1, None, MessageType::System, "x".to_string(), "ann".to_string());
    let open = EncryptedMessage::from_message(&broadcast, "C".to_string(), "P".to_string());
    assert_eq!(open.recipient_id, 0);
}

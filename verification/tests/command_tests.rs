use reach::command::{
    command_of, parse_session_command, session_command_of, connect_reply, history_line, history_reply, list_commands, nick_reply,
    parse_command, peer_line, peers_reply, send_reply, status_reply, Command, Usage,
};
use reach::crypto::CryptoError;
use reach::network::{HandshakeError, NetworkError};

#[test]
fn lines_without_a_slash_are_no_commands() {
    assert!(matches!(parse_command(""), Command::Invalid));
    assert!(matches!(parse_command("   "), Command::Invalid));
    assert!(matches!(parse_command("hello there"), Command::Invalid));
    assert!(matches!(parse_command("help"), Command::Invalid));
    assert!(matches!(command_of(&vec![]), Command::Invalid));
    assert!(matches!(command_of(&vec![String::new()]), Command::Invalid));
}

#[test]
fn commands_without_arguments() {
    assert!(matches!(parse_command("/help"), Command::Help));
    assert!(matches!(parse_command("  /id  "), Command::Id));
    assert!(matches!(parse_command("/peers now"), Command::Peers));
    assert!(matches!(parse_command("/history"), Command::History(None)));
    assert!(matches!(parse_command("/history 25"), Command::History(None)));
    assert!(matches!(parse_command("/quit"), Command::Quit));
    assert!(matches!(parse_command("/info"), Command::Unknown(_)));
    assert!(matches!(parse_command("/exit"), Command::Unknown(_)));
    match parse_command("/dance all night") {
        Command::Unknown(word) => assert_eq!(word, "/dance"),
        other => panic!("unexpected {:?}", other),
    }
    match parse_command("/HELP") {
        Command::Unknown(word) => assert_eq!(word, "/HELP"),
        other => panic!("unexpected {:?}", other),
    }
}

#[test]
fn commands_with_arguments() {
    match parse_command("/status abc") {
        Command::Status(peer) => assert_eq!(peer, "abc"),
        other => panic!("unexpected {:?}", other),
    }
    match parse_command("/connect 127.0.0.1:9001 extra") {
        Command::Connect(address) => assert_eq!(address, "127.0.0.1:9001"),
        other => panic!("unexpected {:?}", other),
    }
    match parse_command("/send abc   hello   big\tworld ") {
        Command::Send(peer, text) => {
            assert_eq!(peer, "abc");
            assert_eq!(text, "hello big world");
        }
        other => panic!("unexpected {:?}", other),
    }
    match parse_command("/nick Ann  of  Green Gables") {
        Command::Nick(name) => assert_eq!(name, "Ann of Green Gables"),
        other => panic!("unexpected {:?}", other),
    }
    assert!(matches!(parse_command("/status"), Command::Usage(Usage::Status)));
    assert!(matches!(parse_command("/connect"), Command::Usage(Usage::Connect)));
    assert!(matches!(parse_command("/send"), Command::Usage(Usage::Send)));
    assert!(matches!(parse_command("/send abc"), Command::Usage(Usage::Send)));
    assert!(matches!(parse_command("/nick"), Command::Usage(Usage::Nick)));
}

#[test]
fn replies_that_need_no_network() {
    assert_eq!(
        parse_command("what").reply(),
        Some("Invalid command. Type /help for available commands.".to_string())
    );
    assert_eq!(parse_command("/quit").reply(), Some("quit".to_string()));
    assert_eq!(
        parse_command("/exit").reply(),
        Some("Unknown command: /exit. Type /help for available commands.".to_string())
    );
    assert_eq!(parse_command("/history 5").reply(), None);
    assert_eq!(parse_command("/status").reply(), Some("Usage: /status <peer_id>".to_string()));
    assert_eq!(parse_command("/connect").reply(), Some("Usage: /connect <IP:PORT>".to_string()));
    assert_eq!(
        parse_command("/send x").reply(),
        Some("Usage: /send <peer_id> <message>".to_string())
    );
    assert_eq!(parse_command("/nick").reply(), Some("Usage: /nick <nickname>".to_string()));
    assert_eq!(
        parse_command("/dance").reply(),
        Some("Unknown command: /dance. Type /help for available commands.".to_string())
    );
    let help = parse_command("/help").reply().unwrap();
    assert!(help.starts_with("Available commands:\n/connect <IP:PORT> - Connect to a peer\n"));
    assert!(help.ends_with("\n/quit - Exit application"));
    assert_eq!(help.lines().count(), 10);
    assert_eq!(list_commands().len(), 9);
    assert_eq!(list_commands()[4], "/status <peer_id> - Check peer online status");
    assert_eq!(parse_command("/peers").reply(), None);
    assert_eq!(parse_command("/id").reply(), None);
    assert_eq!(parse_command("/history").reply(), None);
    assert_eq!(parse_command("/send a b").reply(), None);
    assert_eq!(parse_command("/connect a").reply(), None);
    assert_eq!(parse_command("/status a").reply(), None);
    assert_eq!(parse_command("/nick a").reply(), None);
}

#[test]
fn replies_to_commands_that_were_carried_out() {
    assert_eq!(connect_reply("1.2.3.4:5", None), "Successfully connected to 1.2.3.4:5");
    assert_eq!(
        connect_reply("1.2.3.4:5", Some("refused")),
        "Failed to connect to 1.2.3.4:5: refused"
    );
    assert_eq!(send_reply("abc", None), "Message sent to abc");
    assert_eq!(send_reply("abc", Some("Peer is offline")), "Failed to send message: Peer is offline");
    assert_eq!(nick_reply("Ann", None), "Nickname set to: Ann");
    assert_eq!(nick_reply("Ann", Some("no")), "Failed to set nickname: no");
    assert_eq!(
        status_reply("abc", true, "2024-01-01 00:00:00 UTC"),
        "Peer abc status: online (last seen: 2024-01-01 00:00:00 UTC)"
    );
    assert_eq!(status_reply("abc", false, "never"), "Peer abc status: offline (last seen: never)");
    assert_eq!(peer_line("a@b.c", "id1", true), "\u{2022} a@b.c (id1) - online");
    assert_eq!(peer_line("a@b.c", "id1", false), "\u{2022} a@b.c (id1) - offline");
    assert_eq!(peers_reply(&vec![]), "No connected peers.");
    assert_eq!(
        peers_reply(&vec!["one".to_string(), "two".to_string()]),
        "Connected Peers:\none\ntwo"
    );
    assert_eq!(history_line("12:00:00", "ann", "hi"), "[12:00:00] ann: hi");
    assert_eq!(history_reply(&vec![]), "No message history.");
    assert_eq!(history_reply(&vec!["one".to_string()]), "Recent Messages:\none");
}

#[test]
fn errors_are_described_in_words() {
    assert_eq!(NetworkError::PeerNotFound.describe(), "Peer not found or not connected");
    assert_eq!(NetworkError::NotAuthenticated.describe(), "No shared secret established");
    assert_eq!(NetworkError::ConnectionClosed.describe(), "Connection closed");
    assert_eq!(NetworkError::Bind.describe(), "Could not bind the listening port");
    assert_eq!(NetworkError::Dial.describe(), "Could not reach the peer");
    assert_eq!(NetworkError::Transport.describe(), "Transport error");
    assert_eq!(NetworkError::InvalidIdentity.describe(), "Invalid private key");
    assert_eq!(
        NetworkError::Handshake(HandshakeError::UnexpectedMessageKind).describe(),
        "Expected handshake message"
    );
    assert_eq!(
        NetworkError::Handshake(HandshakeError::InvalidPublicKey).describe(),
        "Invalid public key length"
    );
    assert_eq!(NetworkError::Handshake(HandshakeError::Timeout).describe(), "Handshake timed out");
    assert_eq!(NetworkError::Crypto(CryptoError::DecryptFailed).describe(), "Decryption failed");
    assert_eq!(CryptoError::EncryptFailed.describe(), "Encryption failed");
    assert_eq!(CryptoError::InvalidLength.describe(), "Invalid encrypted message length");
    assert_eq!(CryptoError::Utf8.describe(), "UTF-8 decode failed");
    assert_eq!(CryptoError::InvalidEncoding.describe(), "Base64 decode failed");
}

#[test]
fn session_prompt_has_its_own_commands() {
    assert!(matches!(parse_session_command("/help"), Command::Help));
    assert!(matches!(parse_session_command("/peers"), Command::Peers));
    assert!(matches!(parse_session_command("/info"), Command::Info));
    assert!(matches!(parse_session_command("/quit"), Command::Quit));
    assert!(matches!(parse_session_command("/exit now"), Command::Quit));
    assert!(matches!(parse_session_command("/history"), Command::History(Some(10))));
    assert!(matches!(parse_session_command("/history 25"), Command::History(Some(25))));
    assert!(matches!(parse_session_command("/history 0 1"), Command::History(Some(0))));
    assert!(matches!(parse_session_command("/history many"), Command::History(Some(10))));
    assert!(matches!(parse_session_command("/history -1"), Command::History(Some(10))));
    assert!(matches!(parse_session_command("/connect"), Command::Usage(Usage::Connect)));
    match parse_session_command("/connect 1.2.3.4:5") {
        Command::Connect(address) => assert_eq!(address, "1.2.3.4:5"),
        other => panic!("unexpected {:?}", other),
    }
    match parse_session_command("/nick  Ann") {
        Command::Unknown(line) => assert_eq!(line, "/nick Ann"),
        other => panic!("unexpected {:?}", other),
    }
    match parse_session_command("hello   there") {
        Command::Unknown(line) => assert_eq!(line, "hello there"),
        other => panic!("unexpected {:?}", other),
    }
    match session_command_of(&vec![]) {
        Command::Unknown(line) => assert_eq!(line, ""),
        other => panic!("unexpected {:?}", other),
    }
}

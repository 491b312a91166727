use reach::config::{get_config_dir, get_config_file, Config, ConfigError};
use reach::engine::ReachEngine;
use reach::identity::{Identity, UserCredentials};
use reach::network::NetworkError;
use reach::path_manager::Platform;

fn format_id(id: u128) -> String {
    uuid::Uuid::from_u128(id).to_string()
}

fn credentials() -> UserCredentials {
    UserCredentials { email: "test@example.com".to_string(), password: "test123".to_string() }
}

#[test]
fn test_identity_generation() {
    let credentials = UserCredentials {
        email: "cross-platform-test@example.com".to_string(),
        password: "test123".to_string(),
    };
    let identity = Identity::new(credentials).unwrap();
    assert!(!format_id(identity.user_id).is_empty(), "User ID should not be empty");
    assert!(!identity.email.is_empty(), "Email should not be empty");
    assert!(!identity.keypair.public_key.is_empty(), "Public key should not be empty");
    assert!(!identity.keypair.private_key.is_empty(), "Private key should not be empty");
}

#[test]
fn test_engine_initialization() {
    let result = ReachEngine::new(credentials());
    assert!(result.is_ok(), "Engine should initialize successfully");
}

#[test]
fn test_config_creation() {
    let engine = ReachEngine::new(credentials()).unwrap();
    let config = engine.get_config();
    assert_eq!(config.identity.email, "test@example.com");
    assert!(!format_id(config.identity.user_id).is_empty());
    assert!(!config.identity.keypair.public_key.is_empty());
    assert_eq!(config.identity.user_id, engine.identity.user_id);
    assert_eq!(config.default_port, 5000);
    assert_eq!(config.max_peers, 10);
    assert!(!config.auto_accept_connections);
    assert_eq!(config.log_level, "info");
}

#[test]
fn test_server_start_stop() {
    let mut engine = ReachEngine::new(credentials()).unwrap();
    let result = engine.start_server(0);
    assert!(result.is_ok(), "Server should start successfully");
    assert_eq!(engine.start_server(1), Err(NetworkError::Bind));
    engine.shutdown(1);
    assert_eq!(engine.network.listening_port, None);
}

#[test]
fn test_peer_status_check() {
    let engine = ReachEngine::new(credentials()).unwrap();
    let fake_peer_id = "fake_peer_123";
    let status = engine.ping_peer(fake_peer_id, None, 5);
    assert!(!status.is_online, "Non-existent peer should be offline");
    let probed = engine.ping_peer(fake_peer_id, Some(1), 6);
    assert!(!probed.is_online, "Non-existent peer should be offline");
    assert!(engine.get_connected_peers().is_empty());
}

#[test]
fn test_config_directory_creation() {
    let config_dir = get_config_dir(Platform::Linux, Some("/home/ann/.config"), Some("/home/ann"))
        .unwrap();
    assert!(
        config_dir.contains(".config") || config_dir.contains(".rustalk"),
        "Unix config should be in .config or .rustalk directory"
    );
    let fallback = get_config_dir(Platform::Linux, None, Some("/home/ann")).unwrap();
    assert!(
        fallback.contains(".config") || fallback.contains(".rustalk"),
        "Unix config should be in .config or .rustalk directory"
    );
    let windows = get_config_dir(Platform::Windows, None, Some("C:/Users/ann")).unwrap();
    assert!(
        windows.contains("AppData") || windows.contains(".rustalk"),
        "Windows config should be in AppData or home directory"
    );
}

#[test]
fn test_path_handling() {
    let paths = vec![
        get_config_dir(Platform::Linux, Some("/home/ann/.config"), Some("/home/ann")),
        get_config_file(Platform::Linux, Some("/home/ann/.config"), Some("/home/ann")),
    ];
    for path_result in paths {
        match path_result {
            Ok(path) => {
                assert!(!path.is_empty(), "Path should not be empty");
                assert!(path.starts_with('/'), "Unix paths should be absolute");
            }
            Err(e) => {
                panic!("Path creation failed: {:?}", e);
            }
        }
    }
}

#[test]
fn config_place_prefers_the_config_directory() {
    assert_eq!(
        get_config_dir(Platform::Linux, Some("/home/ann/.config"), Some("/home/ann")),
        Ok("/home/ann/.config/rustalk".to_string())
    );
    assert_eq!(
        get_config_dir(Platform::Linux, None, Some("/home/ann")),
        Ok("/home/ann/.rustalk".to_string())
    );
    assert_eq!(
        get_config_dir(Platform::MacOS, None, Some("/Users/ann")),
        Ok("/Users/ann/.rustalk".to_string())
    );
    assert_eq!(
        get_config_dir(Platform::Windows, None, Some("C:/Users/ann")),
        Ok("C:/Users/ann/AppData/Local/rustalk".to_string())
    );
    assert_eq!(
        get_config_dir(Platform::Windows, Some("C:/Users/ann/AppData/Roaming"), Some("C:/Users/ann")),
        Ok("C:/Users/ann/AppData/Roaming/rustalk".to_string())
    );
    assert_eq!(get_config_dir(Platform::Linux, None, None), Err(ConfigError::NoDirectory));
    assert_eq!(
        get_config_file(Platform::Linux, Some("/c"), None),
        Ok("/c/rustalk/config.json".to_string())
    );
    assert_eq!(
        get_config_file(Platform::Linux, None, Some("/h")),
        Ok("/h/.rustalk/config.json".to_string())
    );
    assert_eq!(
        get_config_file(Platform::Windows, None, Some("/h")),
        Ok("/h/AppData/Local/rustalk/config.json".to_string())
    );
    assert_eq!(get_config_file(Platform::Windows, None, None), Err(ConfigError::NoDirectory));
}

#[test]
fn engine_connects_sends_and_renames() {
    let mut ann = ReachEngine::new(credentials()).unwrap();
    let bob = ReachEngine::new(UserCredentials {
        email: "bob@example.com".to_string(),
        password: "pw".to_string(),
    })
    .unwrap();
    let hello = bob.network.handshake_message();
    assert_eq!(ann.connect_to_peer("1.2.3.4:5", false, Some(&hello), 1).unwrap_err(), NetworkError::Dial);
    let peer = ann.connect_to_peer("1.2.3.4:5", true, Some(&hello), 1).unwrap();
    assert_eq!(peer.id, bob.identity.user_id);
    assert_eq!(ann.get_connected_peers().len(), 1);
    assert!(ann.ping_peer(&format_id(peer.id), Some(4), 7).is_online);
    assert_eq!(ann.set_nickname("annie".to_string()), Ok(()));
    let (message, envelope) = ann.send_message(&format_id(peer.id), "hello", 2).unwrap();
    assert_eq!(message.sender_name, "annie");
    let sent = message.id;
    assert_eq!(ann.confirm_sent(message, true, 3), Ok(format_id(sent)));
    assert_eq!(envelope.recipient_id, peer.id);
    assert_eq!(ann.network.inbox.last().unwrap().sender_name, "annie");
    assert_eq!(ann.send_message("nobody", "hello", 3).unwrap_err(), NetworkError::PeerNotFound);
    let config = Config::new(bob.identity.clone());
    assert_eq!(config.identity.email, "bob@example.com");
    ann.shutdown(9);
    assert!(ann.get_connected_peers().is_empty());
}

#[test]
fn default_config_is_for_an_anonymous_user() {
    let config = Config::default();
    assert_eq!(config.identity.email, "anonymous@rustalk.local");
    assert!(config.identity.verify_password("default"));
    assert_eq!(config.identity.display_name, None);
    assert_eq!(config.default_port, 5000);
    assert_eq!(config.max_peers, 10);
    assert!(!config.auto_accept_connections);
    assert_eq!(config.log_level, "info");
    assert!(config.identity.get_private_key_bytes().is_ok());
}

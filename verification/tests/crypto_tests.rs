use base64::Engine;
use reach::crypto::{
    base_point, join_nonce, key_from_slice, plaintext_from, split_nonce, CryptoEngine,
    CryptoError, KeyPair,
};

fn unhex(text: &str) -> [u8; 32] {
    let bytes = hex::decode(text).unwrap();
    let mut out = [0u8; 32];
    out.copy_from_slice(&bytes);
    out
}

#[test]
fn shared_secret_is_the_same_on_both_sides() {
    let a = KeyPair::generate();
    let b = KeyPair::generate();
    let ab = CryptoEngine::generate_shared_secret(&a.private_key, &b.public_key);
    let ba = CryptoEngine::generate_shared_secret(&b.private_key, &a.public_key);
    assert_eq!(ab, ba);
    assert_ne!(ab, [0u8; 32]);
    assert_ne!(ab, a.private_key);
    assert_ne!(ab, b.public_key);
}

#[test]
fn key_agreement_matches_the_published_vectors() {
    let alice_private = unhex("77076d0a7318a57d3c16c17251b26645df4c2f87ebc0992ab177fba51db92c2a");
    let bob_private = unhex("5dab087e624a8a4b79e17f8b83800ee66f3bb1292618b6fd1c2f8b27ff88e0eb");
    let alice = KeyPair::from_private_key(alice_private);
    let bob = KeyPair::from_private_key(bob_private);
    assert_eq!(alice.private_key, alice_private);
    assert_eq!(
        alice.public_key_hex(),
        "8520f0098930a754748b7ddcb43ef75a0dbf3a0d26381af4eba4a98eaa9b4e6a"
    );
    assert_eq!(
        bob.public_key_hex(),
        "de9edb7d7b7dc1b4d35b61c2ece435373f8343c85b78674dadfc7e146f882b4f"
    );
    let shared = unhex("4a5d9d5ba4ce2de1728e3bf480350f25e07e21c947d19e3376f09b3c1e161742");
    assert_eq!(CryptoEngine::generate_shared_secret(&alice_private, &bob.public_key), shared);
    assert_eq!(CryptoEngine::generate_shared_secret(&bob_private, &alice.public_key), shared);
}

#[test]
fn generated_key_pairs_differ() {
    let a = CryptoEngine::generate_keypair();
    let b = CryptoEngine::generate_keypair();
    assert_ne!(a.private_key, b.private_key);
    assert_ne!(a.public_key, b.public_key);
    assert_ne!(a.private_key, a.public_key);
    let again = KeyPair::from_private_key(a.private_key);
    assert_eq!(again.public_key, a.public_key);
    let _engine = CryptoEngine::new();
}

#[test]
fn base_point_is_nine() {
    let mut expected = [0u8; 32];
    expected[0] = 9;
    assert_eq!(base_point(), expected);
}

#[test]
fn encrypt_then_decrypt_gives_the_message_back() {
    let key = [7u8; 32];
    for message in ["", "hello, peer", "gr\u{fc}\u{df}e \u{1f980}", "line one\nline two"] {
        let sealed = CryptoEngine::encrypt_message(message, &key).unwrap();
        assert_ne!(sealed, message);
        assert_eq!(CryptoEngine::decrypt_message(&sealed, &key), Ok(message.to_string()));
    }
}

#[test]
fn each_encryption_draws_a_new_nonce() {
    let key = [7u8; 32];
    let one = CryptoEngine::encrypt_message("same text", &key).unwrap();
    let two = CryptoEngine::encrypt_message("same text", &key).unwrap();
    assert_ne!(one, two);
}

#[test]
fn encryption_with_a_given_nonce_is_determined() {
    let key = [1u8; 32];
    let nonce = [2u8; 12];
    let one = CryptoEngine::encrypt_with_nonce("abc", &key, &nonce).unwrap();
    let two = CryptoEngine::encrypt_with_nonce("abc", &key, &nonce).unwrap();
    assert_eq!(one, two);
    let raw = base64::engine::general_purpose::STANDARD.decode(&one).unwrap();
    assert_eq!(raw.len(), 12 + 3 + 16);
    assert_eq!(&raw[..12], &nonce[..]);
    assert_ne!(&raw[12..15], b"abc");
    assert_eq!(CryptoEngine::decrypt_message(&one, &key), Ok("abc".to_string()));
}

#[test]
fn decrypt_with_another_key_fails() {
    let key = [7u8; 32];
    let other = [8u8; 32];
    let sealed = CryptoEngine::encrypt_message("hello, peer", &key).unwrap();
    assert_eq!(CryptoEngine::decrypt_message(&sealed, &other), Err(CryptoError::DecryptFailed));
}

#[test]
fn decrypt_of_altered_text_fails() {
    let key = [7u8; 32];
    let sealed = CryptoEngine::encrypt_message("hello, peer", &key).unwrap();
    let mut raw = base64::engine::general_purpose::STANDARD.decode(&sealed).unwrap();
    let last = raw.len() - 1;
    raw[last] ^= 1;
    let altered = base64::engine::general_purpose::STANDARD.encode(&raw);
    assert_eq!(CryptoEngine::decrypt_message(&altered, &key), Err(CryptoError::DecryptFailed));
}

#[test]
fn decrypt_refuses_short_data() {
    let key = [7u8; 32];
    let short = base64::engine::general_purpose::STANDARD.encode([1u8; 11]);
    assert_eq!(CryptoEngine::decrypt_message(&short, &key), Err(CryptoError::InvalidLength));
    assert_eq!(CryptoEngine::decrypt_message("", &key), Err(CryptoError::InvalidLength));
    let bare_nonce = base64::engine::general_purpose::STANDARD.encode([1u8; 12]);
    assert_eq!(CryptoEngine::decrypt_message(&bare_nonce, &key), Err(CryptoError::DecryptFailed));
}

#[test]
fn decrypt_refuses_text_that_is_not_base64() {
    let key = [7u8; 32];
    assert_eq!(
        CryptoEngine::decrypt_message("not base64 at all!", &key),
        Err(CryptoError::InvalidEncoding)
    );
}

#[test]
fn opened_bytes_must_be_text() {
    assert_eq!(plaintext_from(None), Err(CryptoError::DecryptFailed));
    assert_eq!(plaintext_from(Some(vec![0xff, 0xfe])), Err(CryptoError::Utf8));
    assert_eq!(plaintext_from(Some(vec![0x68, 0x69])), Ok("hi".to_string()));
    assert_eq!(plaintext_from(Some(vec![])), Ok(String::new()));
}

#[test]
fn nonce_is_joined_and_split() {
    let nonce = [3u8; 12];
    let joined = join_nonce(&nonce, &[9, 8, 7]);
    assert_eq!(joined, vec![3, 3, 3, 3, 3, 3, 3, 3, 3, 3, 3, 3, 9, 8, 7]);
    assert_eq!(split_nonce(&joined), Ok((nonce, vec![9, 8, 7])));
    assert_eq!(split_nonce(&[3u8; 12]), Ok((nonce, vec![])));
    assert_eq!(split_nonce(&[3u8; 11]), Err(CryptoError::InvalidLength));
    assert_eq!(split_nonce(&[]), Err(CryptoError::InvalidLength));
}

#[test]
fn key_from_slice_wants_32_bytes() {
    assert_eq!(key_from_slice(&[5u8; 32]), Some([5u8; 32]));
    assert_eq!(key_from_slice(&[5u8; 31]), None);
    assert_eq!(key_from_slice(&[5u8; 33]), None);
    assert_eq!(key_from_slice(&[]), None);
}

#[test]
fn keys_print_as_hex_and_base64() {
    let mut private_key = [0u8; 32];
    private_key[0] = 0x0f;
    private_key[31] = 0xa0;
    let pair = KeyPair { private_key, public_key: [0u8; 32] };
    assert_eq!(
        pair.private_key_hex(),
        "0f000000000000000000000000000000000000000000000000000000000000a0"
    );
    assert_eq!(
        pair.public_key_hex(),
        "0000000000000000000000000000000000000000000000000000000000000000"
    );
    assert_eq!(pair.public_key_base64(), "AAAAAAAAAAAAAAAAAAAAAAAAAAAAAAAAAAAAAAAAAAA=");
    assert_eq!(pair.private_key_base64(), "DwAAAAAAAAAAAAAAAAAAAAAAAAAAAAAAAAAAAAAAAKA=");
}

#[test]
fn password_hash_is_the_digest_of_password_and_salt() {
    assert_eq!(
        CryptoEngine::hash_password("", &[]),
        "e3b0c44298fc1c149afbf4c8996fb92427ae41e4649b934ca495991b7852b855"
    );
    assert_eq!(
        CryptoEngine::hash_password("abc", &[]),
        "ba7816bf8f01cfea414140de5dae2223b00361a396177a9cb410ff61f20015ad"
    );
    assert_eq!(
        CryptoEngine::hash_password("ab", &[0x0c]),
        CryptoEngine::hash_password("ab0c", &[])
    );
    assert_ne!(
        CryptoEngine::hash_password("secret", &[1, 2, 3]),
        CryptoEngine::hash_password("secret", &[1, 2, 4])
    );
}

#[test]
fn password_hash_is_64_hex_digits() {
    for (password, salt) in [("", vec![]), ("secret", vec![1u8, 2, 3]), ("\u{1f980}", vec![255u8; 40])] {
        let hash = CryptoEngine::hash_password(password, &salt);
        assert_eq!(hash.len(), 64);
        assert!(hash.chars().all(|c| c.is_ascii_digit() || ('a'..='f').contains(&c)));
        assert_ne!(hash, password);
        assert_eq!(hash, CryptoEngine::hash_password(password, &salt));
    }
}

#[test]
fn encrypted_text_is_nonce_then_ciphertext_then_tag() {
    let key = [5u8; 32];
    for message in ["", "a", "hello, peer", "gr\u{fc}\u{df}e"] {
        let sealed = CryptoEngine::encrypt_message(message, &key).unwrap();
        let raw = base64::engine::general_purpose::STANDARD.decode(&sealed).unwrap();
        assert_eq!(raw.len(), 12 + message.len() + 16);
        let with_nonce = CryptoEngine::encrypt_with_nonce(message, &key, &[9u8; 12]).unwrap();
        let raw = base64::engine::general_purpose::STANDARD.decode(&with_nonce).unwrap();
        assert_eq!(raw.len(), 12 + message.len() + 16);
        assert_eq!(&raw[..12], &[9u8; 12]);
        let other = CryptoEngine::encrypt_with_nonce(message, &key, &[8u8; 12]).unwrap();
        assert_ne!(other, with_nonce);
        assert_eq!(CryptoEngine::decrypt_message(&other, &key), Ok(message.to_string()));
    }
}

//! Key material and the stateless cryptographic primitives of the transport:
//! key agreement, authenticated encryption of text, and password hashing.
//!
//! The primitives themselves are performed by audited crates. Each call is
//! made in one small function whose contract is taken on trust; everything
//! built on top of those calls is proved.
use vstd::prelude::*;
use vstd::utf8::*;
use aes_gcm::aead::Aead;
use aes_gcm::aead::KeyInit;
use base64::Engine;
use rand::RngCore;
use sha2::Digest;

verus! {

/// Number of bytes in a private key, a public key and a shared secret.
pub const KEY_LEN: usize = 32;

/// Number of bytes in the nonce that precedes every ciphertext.
pub const NONCE_LEN: usize = 12;

/// Number of bytes in the authentication tag that ends every ciphertext.
pub const TAG_LEN: usize = 16;

/// The longest plaintext, in bytes, that the cipher seals.
pub const MAX_PLAINTEXT_LEN: u64 = 0x10_0000_0000;

/// Why an encryption or a decryption did not produce a value.
#[derive(Debug, Clone, Copy, PartialEq, Eq, Structural)]
pub enum CryptoError {
    /// The cipher refused to seal the plaintext.
    EncryptFailed,
    /// The authentication tag did not verify: wrong key or altered data.
    DecryptFailed,
    /// The decoded data is shorter than a nonce.
    InvalidLength,
    /// The opened bytes are not UTF-8 text.
    Utf8,
    /// The text is not base64.
    InvalidEncoding,
}

/// What `x25519_dalek::x25519` returns for a scalar and a point, both given
/// as 32 bytes.
pub uninterp spec fn x25519_spec(scalar: Seq<u8>, point: Seq<u8>) -> Seq<u8>;

/// What AES-256-GCM encryption returns for a key, a nonce and a plaintext:
/// the ciphertext followed by its tag, or nothing where the cipher refuses.
pub uninterp spec fn aead_seal_spec(key: Seq<u8>, nonce: Seq<u8>, plaintext: Seq<u8>) -> Option<
    Seq<u8>,
>;

/// What AES-256-GCM decryption returns for a key, a nonce and a ciphertext
/// with its tag: the plaintext, or nothing where the tag does not verify.
pub uninterp spec fn aead_open_spec(key: Seq<u8>, nonce: Seq<u8>, ciphertext: Seq<u8>) -> Option<
    Seq<u8>,
>;

/// The standard base64 text (with padding) of a byte string.
pub uninterp spec fn base64_encode_spec(bytes: Seq<u8>) -> Seq<char>;

/// The bytes that a standard base64 text stands for, if it is well formed.
pub uninterp spec fn base64_decode_spec(text: Seq<char>) -> Option<Seq<u8>>;

/// The SHA-256 digest of a byte string.
pub uninterp spec fn sha256_spec(data: Seq<u8>) -> Seq<u8>;

/// The view of an optional byte vector.
pub open spec fn bytes_view(value: Option<Vec<u8>>) -> Option<Seq<u8>> {
    match value {
        Some(bytes) => Some(bytes@),
        None => None,
    }
}

/// The view of the outcome of an operation that yields text.
pub open spec fn text_view(value: Result<String, CryptoError>) -> Result<Seq<char>, CryptoError> {
    match value {
        Ok(text) => Ok(text@),
        Err(e) => Err(e),
    }
}

/// The lower-case hexadecimal digit of a value below sixteen.
pub open spec fn hex_digit(nibble: u8) -> char {
    if nibble < 10 {
        (48 + nibble) as char
    } else {
        (87 + nibble) as char
    }
}

/// Lower-case hexadecimal text: two digits per byte, high half first.
pub open spec fn hex_text(bytes: Seq<u8>) -> Seq<char> {
    Seq::new(
        2 * bytes.len(),
        |i: int|
            if i % 2 == 0 {
                hex_digit(bytes[i / 2] / 16)
            } else {
                hex_digit(bytes[i / 2] % 16)
            },
    )
}

/// The Curve25519 base point: the u-coordinate 9, little endian.
pub open spec fn base_point_spec() -> Seq<u8> {
    Seq::new(32, |i: int| if i == 0 { 9u8 } else { 0u8 })
}

/// The public key that belongs to a private key.
pub open spec fn public_key_spec(private_key: Seq<u8>) -> Seq<u8> {
    x25519_spec(private_key, base_point_spec())
}

/// The secret that the holder of `our_private` shares with the holder of
/// the private half of `their_public`.
pub open spec fn shared_secret_spec(our_private: Seq<u8>, their_public: Seq<u8>) -> Seq<u8> {
    x25519_spec(our_private, their_public)
}

/// The text that encrypting `message` under `key` with `nonce` yields: the
/// base64 form of the nonce followed by the sealed message.
pub open spec fn encrypt_spec(message: Seq<char>, key: Seq<u8>, nonce: Seq<u8>) -> Result<
    Seq<char>,
    CryptoError,
> {
    match aead_seal_spec(key, nonce, encode_utf8(message)) {
        Some(sealed) => Ok(base64_encode_spec(nonce + sealed)),
        None => Err(CryptoError::EncryptFailed),
    }
}

/// The cipher seals the text `message`: its bytes are not too many.
pub open spec fn sealable(message: Seq<char>) -> bool {
    encode_utf8(message).len() <= MAX_PLAINTEXT_LEN
}

/// The encrypted text `text` stands for `nonce` followed by the sealed form
/// of a plaintext of `plain_len` bytes, which is that plaintext's length and
/// a tag more.
pub open spec fn carries(text: Seq<char>, nonce: Seq<u8>, plain_len: nat) -> bool {
    exists|sealed: Seq<u8>|
        sealed.len() == plain_len + TAG_LEN && #[trigger] base64_decode_spec(text) == Some(
            nonce + sealed,
        )
}

/// A character is a lower-case hexadecimal digit.
pub open spec fn is_hex_char(c: char) -> bool {
    ('0' <= c && c <= '9') || ('a' <= c && c <= 'f')
}

/// What opening the bytes of one encrypted message under `key` yields.
pub open spec fn open_spec(data: Seq<u8>, key: Seq<u8>) -> Result<Seq<char>, CryptoError> {
    if data.len() < NONCE_LEN {
        Err(CryptoError::InvalidLength)
    } else {
        plaintext_spec(
            aead_open_spec(
                key,
                data.subrange(0, NONCE_LEN as int),
                data.subrange(NONCE_LEN as int, data.len() as int),
            ),
        )
    }
}

/// The text that the outcome of the cipher stands for.
pub open spec fn plaintext_spec(opened: Option<Seq<u8>>) -> Result<Seq<char>, CryptoError> {
    match opened {
        None => Err(CryptoError::DecryptFailed),
        Some(bytes) => if valid_utf8(bytes) {
            Ok(decode_utf8(bytes))
        } else {
            Err(CryptoError::Utf8)
        },
    }
}

/// What decrypting the text `encoded` under `key` yields.
pub open spec fn decrypt_spec(encoded: Seq<char>, key: Seq<u8>) -> Result<Seq<char>, CryptoError> {
    match base64_decode_spec(encoded) {
        None => Err(CryptoError::InvalidEncoding),
        Some(data) => open_spec(data, key),
    }
}

/// The stored form of a password: the hexadecimal SHA-256 digest of the
/// password's bytes followed by the hexadecimal text of the salt.
pub open spec fn password_hash_spec(password: Seq<char>, salt: Seq<u8>) -> Seq<char> {
    hex_text(sha256_spec(encode_utf8(password) + encode_utf8(hex_text(salt))))
}

/// Calls `x25519_dalek::x25519`. Trusted: the result is the named function
/// of the two arguments, and scalar multiplication commutes, so applying a
/// second scalar to the result equals applying this scalar to what the
/// second scalar makes of the same point (the Diffie-Hellman property).
#[verifier::external_body]
fn x25519_mul(scalar: &[u8; 32], point: &[u8; 32]) -> (out: [u8; 32])
    ensures
        out@ == x25519_spec(scalar@, point@),
        forall|other: Seq<u8>|
            other.len() == 32 ==> #[trigger] x25519_spec(other, out@) == x25519_spec(
                scalar@,
                x25519_spec(other, point@),
            ),
{
    x25519_dalek::x25519(*scalar, *point)
}

/// Calls `Aes256Gcm::encrypt` of the aes-gcm crate. Trusted: the result is
/// the named function of key, nonce and plaintext; the cipher refuses
/// exactly the plaintexts of more than 2^36 bytes; what it seals is the
/// plaintext's length and a tag of 16 bytes long; and what was sealed opens
/// again, under the same key and nonce, to the plaintext.
#[verifier::external_body]
fn aead_seal(key: &[u8; 32], nonce: &[u8; 12], plaintext: &[u8]) -> (out: Option<Vec<u8>>)
    ensures
        bytes_view(out) == aead_seal_spec(key@, nonce@, plaintext@),
        out is Some <==> plaintext@.len() <= MAX_PLAINTEXT_LEN,
        out is Some ==> out.unwrap()@.len() == plaintext@.len() + TAG_LEN,
        out is Some ==> aead_open_spec(key@, nonce@, out.unwrap()@) == Some(plaintext@),
{
    let cipher = aes_gcm::Aes256Gcm::new(aes_gcm::Key::<aes_gcm::Aes256Gcm>::from_slice(key));
    cipher.encrypt(aes_gcm::Nonce::from_slice(nonce), plaintext).ok()
}

/// Calls `Aes256Gcm::decrypt` of the aes-gcm crate. Trusted: the result is
/// the named function of key, nonce and ciphertext.
#[verifier::external_body]
fn aead_open(key: &[u8; 32], nonce: &[u8; 12], ciphertext: &[u8]) -> (out: Option<Vec<u8>>)
    ensures
        bytes_view(out) == aead_open_spec(key@, nonce@, ciphertext@),
{
    let cipher = aes_gcm::Aes256Gcm::new(aes_gcm::Key::<aes_gcm::Aes256Gcm>::from_slice(key));
    cipher.decrypt(aes_gcm::Nonce::from_slice(nonce), ciphertext).ok()
}

/// Calls `Engine::encode` on base64's `STANDARD` engine. Trusted: the result
/// is the named text, and that text decodes to the bytes it was made from.
#[verifier::external_body]
pub(crate) fn base64_encode(bytes: &[u8]) -> (out: String)
    ensures
        out@ == base64_encode_spec(bytes@),
        base64_decode_spec(out@) == Some(bytes@),
{
    base64::engine::general_purpose::STANDARD.encode(bytes)
}

/// Calls `Engine::decode` on base64's `STANDARD` engine. Trusted: the result
/// is the named function of the text, nothing where the text is refused.
#[verifier::external_body]
pub(crate) fn base64_decode(text: &str) -> (out: Option<Vec<u8>>)
    ensures
        bytes_view(out) == base64_decode_spec(text@),
{
    base64::engine::general_purpose::STANDARD.decode(text).ok()
}

/// Calls `Sha256::digest` of the sha2 crate. Trusted: the result is the
/// named digest of the data.
#[verifier::external_body]
fn sha256(data: &[u8]) -> (out: [u8; 32])
    ensures
        out@ == sha256_spec(data@),
{
    sha2::Sha256::digest(data).into()
}

/// Calls `hex::encode`. Trusted: the result has two lower-case hexadecimal
/// digits for each byte, in order, the high half of a byte first.
#[verifier::external_body]
pub(crate) fn hex_encode(bytes: &[u8]) -> (out: String)
    ensures
        out@ == hex_text(bytes@),
{
    hex::encode(bytes)
}

/// Calls `OsRng::fill_bytes` of the rand crate on a fresh array. Nothing is
/// claimed of the bytes.
#[verifier::external_body]
pub(crate) fn random_bytes<const N: usize>() -> (out: [u8; N]) {
    let mut bytes = [0u8; N];
    rand::rngs::OsRng.fill_bytes(&mut bytes);
    bytes
}

/// Calls `String::from_utf8`. Trusted: the bytes are accepted exactly when
/// they are valid UTF-8, and the text then is what they decode to.
#[verifier::external_body]
fn text_from_utf8(bytes: Vec<u8>) -> (out: Option<String>)
    ensures
        out is Some <==> valid_utf8(bytes@),
        out is Some ==> out.unwrap()@ == decode_utf8(bytes@),
{
    String::from_utf8(bytes).ok()
}

/// The Curve25519 base point.
pub fn base_point() -> (point: [u8; 32])
    ensures
        point@ == base_point_spec(),
{
    let mut point = [0u8; 32];
    point[0] = 9u8;
    assert(point@ =~= base_point_spec());
    point
}

/// Copies the first 32 bytes of `bytes` into an array.
pub fn key_from_slice(bytes: &[u8]) -> (key: Option<[u8; 32]>)
    ensures
        key is Some <==> bytes@.len() == KEY_LEN,
        key is Some ==> key.unwrap()@ == bytes@,
{
    if bytes.len() != KEY_LEN {
        return None;
    }
    let mut key = [0u8; 32];
    let mut i: usize = 0;
    while i < 32
        invariant
            i <= 32,
            bytes@.len() == 32,
            forall|j: int| 0 <= j < i ==> key@[j] == bytes@[j],
        decreases 32 - i,
    {
        key[i] = bytes[i];
        i += 1;
    }
    assert(key@ =~= bytes@);
    Some(key)
}

/// Joins a nonce and the sealed message that was made with it.
pub fn join_nonce(nonce: &[u8; 12], sealed: &[u8]) -> (data: Vec<u8>)
    ensures
        data@ == nonce@ + sealed@,
{
    let mut data: Vec<u8> = Vec::new();
    let mut i: usize = 0;
    while i < 12
        invariant
            i <= 12,
            data@ == nonce@.subrange(0, i as int),
        decreases 12 - i,
    {
        data.push(nonce[i]);
        assert(data@ =~= nonce@.subrange(0, i + 1));
        i += 1;
    }
    assert(data@ =~= nonce@);
    let mut j: usize = 0;
    while j < sealed.len()
        invariant
            j <= sealed@.len(),
            data@ == nonce@ + sealed@.subrange(0, j as int),
        decreases sealed@.len() - j,
    {
        data.push(sealed[j]);
        assert(data@ =~= nonce@ + sealed@.subrange(0, j + 1));
        j += 1;
    }
    assert(data@ =~= nonce@ + sealed@);
    data
}

/// Splits decoded data into the nonce and the sealed message behind it.
/// Data shorter than a nonce is refused.
pub fn split_nonce(data: &[u8]) -> (parts: Result<([u8; 12], Vec<u8>), CryptoError>)
    ensures
        data@.len() < NONCE_LEN <==> parts == Err::<([u8; 12], Vec<u8>), CryptoError>(
            CryptoError::InvalidLength,
        ),
        data@.len() >= NONCE_LEN <==> parts is Ok,
        parts is Ok ==> parts.unwrap().0@ == data@.subrange(0, NONCE_LEN as int)
            && parts.unwrap().1@ == data@.subrange(NONCE_LEN as int, data@.len() as int),
{
    if data.len() < NONCE_LEN {
        return Err(CryptoError::InvalidLength);
    }
    let mut nonce = [0u8; 12];
    let mut i: usize = 0;
    while i < 12
        invariant
            i <= 12,
            data@.len() >= 12,
            forall|k: int| 0 <= k < i ==> nonce@[k] == data@[k],
        decreases 12 - i,
    {
        nonce[i] = data[i];
        i += 1;
    }
    assert(nonce@ =~= data@.subrange(0, 12));
    let mut sealed: Vec<u8> = Vec::new();
    let mut j: usize = 12;
    while j < data.len()
        invariant
            12 <= j <= data@.len(),
            sealed@ == data@.subrange(12, j as int),
        decreases data@.len() - j,
    {
        sealed.push(data[j]);
        assert(sealed@ =~= data@.subrange(12, j + 1));
        j += 1;
    }
    Ok((nonce, sealed))
}

/// Turns what the cipher opened into text: a failed tag is
/// `DecryptFailed`, bytes that are not UTF-8 are `Utf8`.
pub fn plaintext_from(opened: Option<Vec<u8>>) -> (text: Result<String, CryptoError>)
    ensures
        text_view(text) == plaintext_spec(bytes_view(opened)),
{
    match opened {
        None => Err(CryptoError::DecryptFailed),
        Some(bytes) => {
            match text_from_utf8(bytes) {
                Some(text) => Ok(text),
                None => Err(CryptoError::Utf8),
            }
        },
    }
}

/// A private key with the public key that belongs to it.
#[derive(Debug)]
pub struct KeyPair {
    pub private_key: [u8; 32],
    pub public_key: [u8; 32],
}

impl Clone for KeyPair {
    fn clone(&self) -> (copy: KeyPair)
        ensures
            copy == *self,
    {
        KeyPair { private_key: self.private_key, public_key: self.public_key }
    }
}

impl KeyPair {
    /// The public half belongs to the private half, and the pair agrees
    /// with every other private key on one secret.
    pub open spec fn is_valid(&self) -> bool {
        &&& self.public_key@ == public_key_spec(self.private_key@)
        &&& forall|other: Seq<u8>|
            other.len() == 32 ==> #[trigger] shared_secret_spec(other, self.public_key@)
                == shared_secret_spec(self.private_key@, public_key_spec(other))
    }

    /// A key pair with a private key drawn from the system's random source.
    pub fn generate() -> (pair: KeyPair)
        ensures
            pair.is_valid(),
    {
        let private_key: [u8; 32] = random_bytes::<32>();
        KeyPair::from_private_key(private_key)
    }

    /// The key pair of a given private key.
    pub fn from_private_key(private_key: [u8; 32]) -> (pair: KeyPair)
        ensures
            pair.private_key == private_key,
            pair.is_valid(),
    {
        let base = base_point();
        let public_key = x25519_mul(&private_key, &base);
        KeyPair { private_key, public_key }
    }

    /// The public key in hexadecimal.
    pub fn public_key_hex(&self) -> (text: String)
        ensures
            text@ == hex_text(self.public_key@),
    {
        hex_encode(self.public_key.as_slice())
    }

    /// The private key in hexadecimal.
    pub fn private_key_hex(&self) -> (text: String)
        ensures
            text@ == hex_text(self.private_key@),
    {
        hex_encode(self.private_key.as_slice())
    }

    /// The public key in base64.
    pub fn public_key_base64(&self) -> (text: String)
        ensures
            text@ == base64_encode_spec(self.public_key@),
            base64_decode_spec(text@) == Some(self.public_key@),
    {
        base64_encode(self.public_key.as_slice())
    }

    /// The private key in base64.
    pub fn private_key_base64(&self) -> (text: String)
        ensures
            text@ == base64_encode_spec(self.private_key@),
            base64_decode_spec(text@) == Some(self.private_key@),
    {
        base64_encode(self.private_key.as_slice())
    }
}

/// The stateless primitives, gathered under one name.
pub struct CryptoEngine;

impl CryptoEngine {
    pub fn new() -> (engine: CryptoEngine) {
        CryptoEngine
    }

    /// A fresh valid key pair.
    pub fn generate_keypair() -> (pair: KeyPair)
        ensures
            pair.is_valid(),
    {
        KeyPair::generate()
    }

    /// The secret shared between our private key and their public key.
    /// Where both keys are halves of valid key pairs, it is the secret that
    /// the other side derives from its private key and our public key.
    pub fn generate_shared_secret(our_private: &[u8; 32], their_public: &[u8; 32]) -> (secret: [
        u8;
        32
    ])
        ensures
            secret@ == shared_secret_spec(our_private@, their_public@),
            forall|ours: KeyPair, theirs: KeyPair|
                #![trigger ours.is_valid(), theirs.is_valid()]
                ours.is_valid() && theirs.is_valid() && ours.private_key@ == our_private@
                    && theirs.public_key@ == their_public@ ==> secret@ == shared_secret_spec(
                    theirs.private_key@,
                    ours.public_key@,
                ),
    {
        let secret = x25519_mul(our_private, their_public);
        assert forall|ours: KeyPair, theirs: KeyPair|
            #![trigger ours.is_valid(), theirs.is_valid()]
            ours.is_valid() && theirs.is_valid() && ours.private_key@ == our_private@
                && theirs.public_key@ == their_public@ implies secret@ == shared_secret_spec(
            theirs.private_key@,
            ours.public_key@,
        ) by {
            lemma_shared_secret_commutes(ours, theirs);
        }
        secret
    }

    /// Encrypts `message` under `shared_secret` with the given nonce. It
    /// succeeds exactly on messages that the cipher seals. The result is
    /// base64 text that stands for the nonce, then the sealed message, and
    /// it decrypts under the same key to `message`.
    pub fn encrypt_with_nonce(message: &str, shared_secret: &[u8; 32], nonce: &[u8; 12]) -> (out:
        Result<String, CryptoError>)
        ensures
            text_view(out) == encrypt_spec(message@, shared_secret@, nonce@),
            out is Ok <==> sealable(message@),
            out is Ok ==> carries(out.unwrap()@, nonce@, encode_utf8(message@).len()),
            out is Ok ==> decrypt_spec(out.unwrap()@, shared_secret@) == Ok::<
                Seq<char>,
                CryptoError,
            >(message@),
    {
        match aead_seal(shared_secret, nonce, message.as_bytes()) {
            None => Err(CryptoError::EncryptFailed),
            Some(sealed) => {
                let data = join_nonce(nonce, sealed.as_slice());
                let encoded = base64_encode(data.as_slice());
                proof {
                    broadcast use encode_utf8_decode_utf8, encode_utf8_valid_utf8;

                    assert(data@.subrange(0, NONCE_LEN as int) =~= nonce@);
                    assert(data@.subrange(NONCE_LEN as int, data@.len() as int) =~= sealed@);
                    assert(open_spec(data@, shared_secret@) == Ok::<Seq<char>, CryptoError>(
                        message@,
                    ));
                    assert(base64_decode_spec(encoded@) == Some(nonce@ + sealed@));
                }
                Ok(encoded)
            },
        }
    }

    /// Encrypts `message` under `shared_secret` with a nonce drawn from the
    /// system's random source. It succeeds exactly on messages that the
    /// cipher seals. Whatever the nonce, the result stands for it and the
    /// sealed message, and decrypts under the same key to `message`.
    pub fn encrypt_message(message: &str, shared_secret: &[u8; 32]) -> (out: Result<
        String,
        CryptoError,
    >)
        ensures
            exists|nonce: Seq<u8>|
                {
                    &&& nonce.len() == NONCE_LEN
                    &&& text_view(out) == #[trigger] encrypt_spec(message@, shared_secret@, nonce)
                    &&& out is Ok ==> carries(out.unwrap()@, nonce, encode_utf8(message@).len())
                },
            out is Ok <==> sealable(message@),
            out is Ok ==> decrypt_spec(out.unwrap()@, shared_secret@) == Ok::<
                Seq<char>,
                CryptoError,
            >(message@),
            out is Err ==> out == Err::<String, CryptoError>(CryptoError::EncryptFailed),
    {
        let nonce: [u8; 12] = random_bytes::<12>();
        let out = CryptoEngine::encrypt_with_nonce(message, shared_secret, &nonce);
        assert(text_view(out) == encrypt_spec(message@, shared_secret@, nonce@));
        out
    }

    /// Decrypts what `encrypt_message` made.
    pub fn decrypt_message(encrypted_message: &str, shared_secret: &[u8; 32]) -> (out: Result<
        String,
        CryptoError,
    >)
        ensures
            text_view(out) == decrypt_spec(encrypted_message@, shared_secret@),
    {
        match base64_decode(encrypted_message) {
            None => Err(CryptoError::InvalidEncoding),
            Some(data) => {
                match split_nonce(data.as_slice()) {
                    Err(e) => Err(e),
                    Ok((nonce, sealed)) => {
                        let opened = aead_open(shared_secret, &nonce, sealed.as_slice());
                        plaintext_from(opened)
                    },
                }
            },
        }
    }

    /// Hashes a password with its salt for storage. The hash is 64
    /// lower-case hexadecimal digits.
    pub fn hash_password(password: &str, salt: &[u8]) -> (hash: String)
        ensures
            hash@ == password_hash_spec(password@, salt@),
            hash@.len() == 64,
            forall|i: int| 0 <= i < 64 ==> is_hex_char(#[trigger] hash@[i]),
    {
        let salt_text = hex_encode(salt);
        let mut salted: Vec<u8> = Vec::new();
        append_bytes(&mut salted, password.as_bytes());
        append_bytes(&mut salted, salt_text.as_str().as_bytes());
        let digest = sha256(salted.as_slice());
        let hash = hex_encode(digest.as_slice());
        proof {
            lemma_hex_text_is_hex(digest@);
        }
        hash
    }
}

/// Appends the bytes of `tail` to `buffer`.
pub fn append_bytes(buffer: &mut Vec<u8>, tail: &[u8])
    ensures
        final(buffer)@ == old(buffer)@ + tail@,
{
    let ghost before = buffer@;
    let mut i: usize = 0;
    while i < tail.len()
        invariant
            i <= tail@.len(),
            buffer@ == before + tail@.subrange(0, i as int),
        decreases tail@.len() - i,
    {
        buffer.push(tail[i]);
        assert(buffer@ =~= before + tail@.subrange(0, i + 1));
        i += 1;
    }
    assert(buffer@ =~= before + tail@);
}

/// Hexadecimal text has two characters for each byte, and every one of
/// them is a lower-case hexadecimal digit.
pub proof fn lemma_hex_text_is_hex(bytes: Seq<u8>)
    ensures
        hex_text(bytes).len() == 2 * bytes.len(),
        forall|i: int| 0 <= i < 2 * bytes.len() ==> is_hex_char(#[trigger] hex_text(bytes)[i]),
{
    assert forall|i: int| 0 <= i < 2 * bytes.len() implies is_hex_char(
        #[trigger] hex_text(bytes)[i],
    ) by {
        let byte = bytes[i / 2];
        let nibble: u8 = if i % 2 == 0 {
            byte / 16
        } else {
            byte % 16
        };
        assert(nibble < 16);
        assert(hex_text(bytes)[i] == hex_digit(nibble));
        lemma_hex_digit_is_hex(nibble);
    }
}

/// The digit of a value below sixteen is a lower-case hexadecimal digit.
pub proof fn lemma_hex_digit_is_hex(nibble: u8)
    requires
        nibble < 16,
    ensures
        is_hex_char(hex_digit(nibble)),
{
    if nibble < 10 {
        assert(hex_digit(nibble) == ((48 + nibble) as char));
        assert('0' as u8 == 48 && '9' as u8 == 57);
    } else {
        assert(hex_digit(nibble) == ((87 + nibble) as char));
        assert('a' as u8 == 97 && 'f' as u8 == 102);
    }
}

/// Two encrypted texts that stand for different nonces are different
/// texts: a change of nonce always shows in what goes over the wire.
pub proof fn lemma_nonces_tell_texts_apart(
    first: Seq<char>,
    second: Seq<char>,
    first_nonce: Seq<u8>,
    second_nonce: Seq<u8>,
    first_len: nat,
    second_len: nat,
)
    requires
        first_nonce.len() == NONCE_LEN,
        second_nonce.len() == NONCE_LEN,
        first_nonce != second_nonce,
        carries(first, first_nonce, first_len),
        carries(second, second_nonce, second_len),
    ensures
        first != second,
{
    if first == second {
        let a = choose|sealed: Seq<u8>|
            sealed.len() == first_len + TAG_LEN && #[trigger] base64_decode_spec(first) == Some(
                first_nonce + sealed,
            );
        let b = choose|sealed: Seq<u8>|
            sealed.len() == second_len + TAG_LEN && #[trigger] base64_decode_spec(second) == Some(
                second_nonce + sealed,
            );
        assert(first_nonce + a == second_nonce + b);
        assert((first_nonce + a).subrange(0, NONCE_LEN as int) =~= first_nonce);
        assert((second_nonce + b).subrange(0, NONCE_LEN as int) =~= second_nonce);
        assert(first_nonce =~= second_nonce);
    }
}

/// Two valid key pairs derive the same secret from each other's public
/// halves: what A computes from its private key and B's public key is what
/// B computes from its private key and A's public key.
pub proof fn lemma_shared_secret_commutes(a: KeyPair, b: KeyPair)
    requires
        a.is_valid(),
        b.is_valid(),
    ensures
        shared_secret_spec(a.private_key@, b.public_key@) == shared_secret_spec(
            b.private_key@,
            a.public_key@,
        ),
{
    assert(b.private_key@.len() == 32);
    assert(shared_secret_spec(b.private_key@, a.public_key@) == shared_secret_spec(
        a.private_key@,
        public_key_spec(b.private_key@),
    ));
}

/// What went wrong, in words.
pub open spec fn crypto_error_text(error: CryptoError) -> Seq<char> {
    match error {
        CryptoError::EncryptFailed => "Encryption failed"@,
        CryptoError::DecryptFailed => "Decryption failed"@,
        CryptoError::InvalidLength => "Invalid encrypted message length"@,
        CryptoError::Utf8 => "UTF-8 decode failed"@,
        CryptoError::InvalidEncoding => "Base64 decode failed"@,
    }
}

impl CryptoError {
    /// What went wrong, in words.
    pub fn describe(&self) -> (text: String)
        ensures
            text@ == crypto_error_text(*self),
    {
        match self {
            CryptoError::EncryptFailed => "Encryption failed".to_string(),
            CryptoError::DecryptFailed => "Decryption failed".to_string(),
            CryptoError::InvalidLength => "Invalid encrypted message length".to_string(),
            CryptoError::Utf8 => "UTF-8 decode failed".to_string(),
            CryptoError::InvalidEncoding => "Base64 decode failed".to_string(),
        }
    }
}

} // verus!

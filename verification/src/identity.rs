//! The long-lived identity of the local user: an identifier, the key pair
//! in its stored form, and the salted hash of the password.
use vstd::prelude::*;
use vstd::string::*;
use crate::crypto::{
    base64_decode,
    base64_decode_spec,
    base64_encode_spec,
    key_from_slice,
    password_hash_spec,
    random_bytes,
    CryptoEngine,
    KeyPair,
    KEY_LEN,
};
use crate::stamp::{id_text, fresh_id, id_text_spec};
use crate::text::{copy_optional_text, copy_text};

verus! {

/// Number of bytes of salt drawn for a new password hash.
pub const SALT_LEN: usize = 16;

/// Number of characters of the identifier that the default name shows.
pub const NAME_ID_LEN: usize = 8;

/// What a user presents to create an identity.
#[derive(Debug)]
pub struct UserCredentials {
    pub email: String,
    pub password: String,
}

impl Clone for UserCredentials {
    fn clone(&self) -> (copy: UserCredentials)
        ensures
            copy.email@ == self.email@,
            copy.password@ == self.password@,
    {
        UserCredentials { email: copy_text(&self.email), password: copy_text(&self.password) }
    }
}

/// A key pair as it is stored: each half in base64.
#[derive(Debug)]
pub struct KeyPairSerialized {
    pub private_key: String,
    pub public_key: String,
}

/// Why a stored key could not be used.
#[derive(Debug, Clone, Copy, PartialEq, Eq, Structural)]
pub enum IdentityError {
    /// The stored text is not base64.
    InvalidEncoding,
    /// The stored key does not have 32 bytes.
    InvalidKeyLength,
}

/// The bytes of a key stored as base64 text.
pub open spec fn key_bytes_spec(text: Seq<char>) -> Result<Seq<u8>, IdentityError> {
    match base64_decode_spec(text) {
        None => Err(IdentityError::InvalidEncoding),
        Some(bytes) => if bytes.len() == KEY_LEN {
            Ok(bytes)
        } else {
            Err(IdentityError::InvalidKeyLength)
        },
    }
}

/// The view of the outcome of reading a stored key.
pub open spec fn key_view(key: Result<[u8; 32], IdentityError>) -> Result<Seq<u8>, IdentityError> {
    match key {
        Ok(bytes) => Ok(bytes@),
        Err(e) => Err(e),
    }
}

/// Reads a key of 32 bytes from its base64 text.
pub fn decode_key(text: &str) -> (key: Result<[u8; 32], IdentityError>)
    ensures
        key_view(key) == key_bytes_spec(text@),
{
    match base64_decode(text) {
        None => Err(IdentityError::InvalidEncoding),
        Some(bytes) => {
            match key_from_slice(bytes.as_slice()) {
                Some(key) => Ok(key),
                None => Err(IdentityError::InvalidKeyLength),
            }
        },
    }
}

/// The local user.
#[derive(Debug)]
pub struct Identity {
    pub user_id: u128,
    pub email: String,
    pub display_name: Option<String>,
    pub keypair: KeyPairSerialized,
    pub password_hash: String,
    pub password_salt: Vec<u8>,
}

impl Clone for Identity {
    fn clone(&self) -> (copy: Identity)
        ensures
            copy.same_as(self),
    {
        Identity {
            user_id: self.user_id,
            email: copy_text(&self.email),
            display_name: copy_optional_text(&self.display_name),
            keypair: KeyPairSerialized {
                private_key: copy_text(&self.keypair.private_key),
                public_key: copy_text(&self.keypair.public_key),
            },
            password_hash: copy_text(&self.password_hash),
            password_salt: self.password_salt.clone(),
        }
    }
}

impl Identity {
    /// Two identities hold the same values.
    pub open spec fn same_as(&self, other: &Identity) -> bool {
        &&& self.user_id == other.user_id
        &&& self.email@ == other.email@
        &&& self.display_name_spec() == other.display_name_spec()
        &&& self.display_name is Some <==> other.display_name is Some
        &&& self.keypair.private_key@ == other.keypair.private_key@
        &&& self.keypair.public_key@ == other.keypair.public_key@
        &&& self.password_hash@ == other.password_hash@
        &&& self.password_salt@ == other.password_salt@
    }

    /// The name under which the user appears: the chosen one, or `User_`
    /// and the first eight characters of the identifier.
    pub open spec fn display_name_spec(&self) -> Seq<char> {
        match self.display_name {
            Some(name) => name@,
            None => "User_"@ + id_text_spec(self.user_id).subrange(0, NAME_ID_LEN as int),
        }
    }

    /// The identity of an identifier, a key pair, a password and its salt.
    pub fn from_parts(user_id: u128, email: String, password: &str, pair: &KeyPair, salt: &[u8])
        -> (identity: Identity)
        ensures
            identity.user_id == user_id,
            identity.email@ == email@,
            identity.display_name is None,
            identity.keypair.private_key@ == base64_encode_spec(pair.private_key@),
            identity.keypair.public_key@ == base64_encode_spec(pair.public_key@),
            key_bytes_spec(identity.keypair.private_key@) == Ok::<Seq<u8>, IdentityError>(
                pair.private_key@,
            ),
            key_bytes_spec(identity.keypair.public_key@) == Ok::<Seq<u8>, IdentityError>(
                pair.public_key@,
            ),
            identity.password_salt@ == salt@,
            identity.password_hash@ == password_hash_spec(password@, salt@),
    {
        let password_hash = CryptoEngine::hash_password(password, salt);
        let mut password_salt: Vec<u8> = Vec::new();
        crate::crypto::append_bytes(&mut password_salt, salt);
        assert(password_salt@ =~= salt@);
        Identity {
            user_id,
            email,
            display_name: None,
            keypair: KeyPairSerialized {
                private_key: pair.private_key_base64(),
                public_key: pair.public_key_base64(),
            },
            password_hash,
            password_salt,
        }
    }

    /// A new identity: a fresh identifier, a fresh valid key pair and a
    /// fresh salt. It always succeeds.
    pub fn new(credentials: UserCredentials) -> (identity: Result<Identity, IdentityError>)
        ensures
            identity is Ok,
            identity.unwrap().email@ == credentials.email@,
            identity.unwrap().display_name is None,
            identity.unwrap().has_valid_keys(),
            identity.unwrap().password_salt@.len() == SALT_LEN,
            identity.unwrap().password_matches(credentials.password@),
    {
        let user_id = fresh_id();
        let pair = KeyPair::generate();
        let salt: [u8; 16] = random_bytes::<16>();
        let UserCredentials { email, password } = credentials;
        Ok(Identity::from_parts(user_id, email, password.as_str(), &pair, salt.as_slice()))
    }

    /// An identity restored from its stored parts.
    pub fn from_existing(
        user_id: u128,
        email: String,
        display_name: Option<String>,
        keypair: KeyPairSerialized,
        password_hash: String,
        password_salt: Vec<u8>,
    ) -> (identity: Identity)
        ensures
            identity.user_id == user_id,
            identity.email == email,
            identity.display_name == display_name,
            identity.keypair == keypair,
            identity.password_hash == password_hash,
            identity.password_salt == password_salt,
    {
        Identity { user_id, email, display_name, keypair, password_hash, password_salt }
    }

    /// Both stored keys decode, and they form a valid key pair.
    pub open spec fn has_valid_keys(&self) -> bool {
        exists|pair: KeyPair|
            #![trigger pair.is_valid()]
            pair.is_valid() && key_bytes_spec(self.keypair.private_key@) == Ok::<
                Seq<u8>,
                IdentityError,
            >(pair.private_key@) && key_bytes_spec(self.keypair.public_key@) == Ok::<
                Seq<u8>,
                IdentityError,
            >(pair.public_key@)
    }

    /// The stored hash is that of `password` with the stored salt.
    pub open spec fn password_matches(&self, password: Seq<char>) -> bool {
        self.password_hash@ == password_hash_spec(password, self.password_salt@)
    }

    /// Chooses the name under which the user appears.
    pub fn set_display_name(&mut self, name: String)
        ensures
            final(self).display_name == Some(name),
            final(self).user_id == old(self).user_id,
            final(self).email == old(self).email,
            final(self).keypair == old(self).keypair,
            final(self).password_hash == old(self).password_hash,
            final(self).password_salt == old(self).password_salt,
    {
        self.display_name = Some(name);
    }

    /// The public key as bytes.
    pub fn get_public_key_bytes(&self) -> (key: Result<[u8; 32], IdentityError>)
        ensures
            key_view(key) == key_bytes_spec(self.keypair.public_key@),
    {
        decode_key(self.keypair.public_key.as_str())
    }

    /// The private key as bytes.
    pub fn get_private_key_bytes(&self) -> (key: Result<[u8; 32], IdentityError>)
        ensures
            key_view(key) == key_bytes_spec(self.keypair.private_key@),
    {
        decode_key(self.keypair.private_key.as_str())
    }

    /// Whether `password` is the one whose salted hash is stored.
    pub fn verify_password(&self, password: &str) -> (matches: bool)
        ensures
            matches == self.password_matches(password@),
    {
        let hash = CryptoEngine::hash_password(password, self.password_salt.as_slice());
        hash == self.password_hash
    }

    /// The name under which the user appears.
    pub fn get_display_name(&self) -> (name: String)
        ensures
            name@ == self.display_name_spec(),
    {
        match &self.display_name {
            Some(chosen) => copy_text(chosen),
            None => {
                let text = id_text(self.user_id);
                let head = text.as_str().substring_char(0, NAME_ID_LEN);
                String::from_str("User_").concat(head)
            },
        }
    }
}

} // verus!

//! Setting a user up: what the answers to the setup questions become.
//!
//! Asking the questions and storing the result are the caller's business.
use vstd::prelude::*;
use vstd::string::*;
use crate::config::{Config, DEFAULT_MAX_PEERS, DEFAULT_PORT};
use crate::identity::{Identity, UserCredentials};
use crate::stamp::{fresh_id, id_text, id_text_spec};
use crate::text::{copy_text, split_on, split_spec, texts_view, trim_spec, trimmed};

verus! {

/// Why the given credentials were refused.
#[derive(Debug, Clone, Copy, PartialEq, Eq, Structural)]
pub enum SetupError {
    /// The email address is empty.
    EmptyEmail,
    /// The password is empty.
    EmptyPassword,
}

/// A text in lower case, as `str::to_lowercase` gives it.
pub uninterp spec fn lowercase_spec(text: Seq<char>) -> Seq<char>;

/// Calls `str::to_lowercase`. Trusted: the result is the named text.
#[verifier::external_body]
fn lowercased(text: &str) -> (out: String)
    ensures
        out@ == lowercase_spec(text@),
{
    text.to_lowercase()
}

/// The answer says yes: apart from white space at its ends and the case of
/// its letters it is `y` or `yes`.
pub open spec fn confirms_spec(response: Seq<char>) -> bool {
    lowercase_spec(trim_spec(response)) == "y"@ || lowercase_spec(trim_spec(response)) == "yes"@
}

/// The email address of a user: the one given, or else `user-` and the
/// first eight characters of an identifier.
pub open spec fn email_choice_spec(answer: Seq<char>, id: u128) -> Seq<char> {
    if answer.len() == 0 {
        "user-"@ + id_text_spec(id).subrange(0, 8)
    } else {
        answer
    }
}

/// The password of a user: the one given, or else `secure-` and the first
/// sixteen characters of an identifier.
pub open spec fn password_choice_spec(answer: Seq<char>, id: u128) -> Seq<char> {
    if answer.len() == 0 {
        "secure-"@ + id_text_spec(id).subrange(0, 16)
    } else {
        answer
    }
}

/// The display name of a user: the one given, or else what stands before
/// the first `@` of the email address.
pub open spec fn name_choice_spec(answer: Seq<char>, email: Seq<char>) -> Seq<char> {
    if answer.len() == 0 {
        if split_spec(email, '@').len() > 0 {
            split_spec(email, '@')[0]
        } else {
            "User"@
        }
    } else {
        answer
    }
}

/// Whether an answer to a yes-or-no question says yes.
pub fn confirms(response: &str) -> (yes: bool)
    ensures
        yes == confirms_spec(response@),
{
    let answer = lowercased(trimmed(response).as_str());
    answer == "y".to_string() || answer == "yes".to_string()
}

/// The email address for an answer, with `id` to make one up from.
pub fn choose_email(answer: &str, id: u128) -> (email: String)
    ensures
        email@ == email_choice_spec(answer@, id),
{
    if answer.unicode_len() == 0 {
        let text = id_text(id);
        String::from_str("user-").concat(text.as_str().substring_char(0, 8))
    } else {
        answer.to_string()
    }
}

/// The password for an answer, with `id` to make one up from.
pub fn choose_password(answer: &str, id: u128) -> (password: String)
    ensures
        password@ == password_choice_spec(answer@, id),
{
    if answer.unicode_len() == 0 {
        let text = id_text(id);
        String::from_str("secure-").concat(text.as_str().substring_char(0, 16))
    } else {
        answer.to_string()
    }
}

/// The display name for an answer, given the email address.
pub fn choose_display_name(answer: &str, email: &str) -> (name: String)
    ensures
        name@ == name_choice_spec(answer@, email@),
{
    if answer.unicode_len() == 0 {
        let parts = split_on(email, '@');
        if parts.len() > 0 {
            assert(texts_view(parts@)[0] == parts@[0]@);
            copy_text(&parts[0])
        } else {
            "User".to_string()
        }
    } else {
        answer.to_string()
    }
}

/// The settings of `identity` with the display name `name`.
fn settings_for(identity: Identity, name: String) -> (config: Config)
    ensures
        config.identity.user_id == identity.user_id,
        config.identity.email == identity.email,
        config.identity.keypair == identity.keypair,
        config.identity.password_hash == identity.password_hash,
        config.identity.password_salt == identity.password_salt,
        config.identity.display_name == Some(name),
        config.default_port == DEFAULT_PORT,
        !config.auto_accept_connections,
        config.max_peers == DEFAULT_MAX_PEERS,
        config.log_level@ == "info"@,
{
    let mut config = Config::new(identity);
    config.identity.set_display_name(name);
    config
}

/// The settings of a new user from the three answers of the setup. White
/// space at the ends of an answer does not count. Whatever is left empty is
/// made up: the email address and the password from fresh identifiers, the
/// display name from the email address.
pub fn setup_user(email: &str, password: &str, display_name: &str) -> (config: Config)
    ensures
        exists|email_id: u128, password_id: u128|
            {
                let chosen = #[trigger] email_choice_spec(trim_spec(email@), email_id);
                &&& config.identity.email@ == chosen
                &&& config.identity.password_matches(
                    #[trigger] password_choice_spec(trim_spec(password@), password_id),
                )
                &&& config.identity.display_name is Some
                &&& config.identity.display_name.unwrap()@ == name_choice_spec(
                    trim_spec(display_name@),
                    chosen,
                )
            },
        config.identity.has_valid_keys(),
        config.default_port == DEFAULT_PORT,
        !config.auto_accept_connections,
        config.max_peers == DEFAULT_MAX_PEERS,
        config.log_level@ == "info"@,
{
    let email_id = fresh_id();
    let password_id = fresh_id();
    let chosen_email = choose_email(trimmed(email).as_str(), email_id);
    let chosen_password = choose_password(trimmed(password).as_str(), password_id);
    let name = choose_display_name(trimmed(display_name).as_str(), chosen_email.as_str());
    let ghost email_view = chosen_email@;
    let ghost password_view = chosen_password@;
    match Identity::new(UserCredentials { email: chosen_email, password: chosen_password }) {
        Ok(identity) => {
            let config = settings_for(identity, name);
            assert(email_view == email_choice_spec(trim_spec(email@), email_id));
            assert(password_view == password_choice_spec(trim_spec(password@), password_id));
            config
        },
        Err(_) => vstd::pervasive::unreached(),
    }
}

/// The settings of a new user from credentials given in full. An empty
/// email address and an empty password are refused, in this order. An empty
/// display name leaves the user without one.
pub fn setup_user_with_args(email: String, display_name: String, password: String) -> (out: Result<
    Config,
    SetupError,
>)
    ensures
        email@.len() == 0 ==> out is Err && out.unwrap_err() == SetupError::EmptyEmail,
        email@.len() > 0 && password@.len() == 0 ==> out is Err && out.unwrap_err()
            == SetupError::EmptyPassword,
        email@.len() > 0 && password@.len() > 0 ==> {
            &&& out is Ok
            &&& out.unwrap().identity.email@ == email@
            &&& out.unwrap().identity.password_matches(password@)
            &&& out.unwrap().identity.has_valid_keys()
            &&& if display_name@.len() == 0 {
                out.unwrap().identity.display_name is None
            } else {
                out.unwrap().identity.display_name == Some(display_name)
            }
            &&& out.unwrap().default_port == DEFAULT_PORT
            &&& !out.unwrap().auto_accept_connections
            &&& out.unwrap().max_peers == DEFAULT_MAX_PEERS
            &&& out.unwrap().log_level@ == "info"@
        },
{
    if email.as_str().unicode_len() == 0 {
        return Err(SetupError::EmptyEmail);
    }
    if password.as_str().unicode_len() == 0 {
        return Err(SetupError::EmptyPassword);
    }
    match Identity::new(UserCredentials { email, password }) {
        Ok(identity) => {
            if display_name.as_str().unicode_len() == 0 {
                Ok(Config::new(identity))
            } else {
                Ok(settings_for(identity, display_name))
            }
        },
        Err(_) => vstd::pervasive::unreached(),
    }
}

} // verus!

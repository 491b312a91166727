//! The users of the command line, each under its email address, and
//! which of them is the current one. The book is a value: loading and
//! storing it is the caller's business.
use vstd::prelude::*;
use vstd::string::*;
use crate::text::copy_text;

verus! {

/// What the command line records of one user.
#[derive(Debug)]
pub struct UserProfile {
    pub email: String,
    pub name: String,
    pub created_at: String,
    pub last_used: String,
    pub config_path: String,
}

/// The mathematical value of a [`UserProfile`].
pub struct UserProfileView {
    pub email: Seq<char>,
    pub name: Seq<char>,
    pub created_at: Seq<char>,
    pub last_used: Seq<char>,
    pub config_path: Seq<char>,
}

impl View for UserProfile {
    type V = UserProfileView;

    open spec fn view(&self) -> UserProfileView {
        UserProfileView {
            email: self.email@,
            name: self.name@,
            created_at: self.created_at@,
            last_used: self.last_used@,
            config_path: self.config_path@,
        }
    }
}

impl Clone for UserProfile {
    fn clone(&self) -> (copy: UserProfile)
        ensures
            copy@ == self@,
    {
        UserProfile {
            email: copy_text(&self.email),
            name: copy_text(&self.name),
            created_at: copy_text(&self.created_at),
            last_used: copy_text(&self.last_used),
            config_path: copy_text(&self.config_path),
        }
    }
}

/// Why the command line refused a request.
#[derive(Debug, Clone, Copy, PartialEq, Eq, Structural)]
pub enum CliError {
    /// No user with that email address is known.
    UserNotFound,
    /// No user is the current one.
    NoCurrentUser,
}

/// No two profiles have the same email address.
pub open spec fn emails_distinct(users: Seq<UserProfile>) -> bool {
    forall|i: int, j: int| 0 <= i < j < users.len() ==> users[i].email@ != users[j].email@
}

/// Some profile has the email address `email`.
pub open spec fn has_email(users: Seq<UserProfile>, email: Seq<char>) -> bool {
    exists|i: int| 0 <= i < users.len() && #[trigger] users[i].email@ == email
}

/// Where the profile with the email address `email` stands.
pub open spec fn email_slot(users: Seq<UserProfile>, email: Seq<char>) -> int {
    choose|i: int| 0 <= i < users.len() && #[trigger] users[i].email@ == email
}

/// The view of an optional text.
pub open spec fn chosen_view(chosen: Option<String>) -> Option<Seq<char>> {
    match chosen {
        Some(email) => Some(email@),
        None => None,
    }
}

/// The view of the outcome of a request for a profile.
pub open spec fn profile_view(found: Result<UserProfile, CliError>) -> Result<
    UserProfileView,
    CliError,
> {
    match found {
        Ok(profile) => Ok(profile@),
        Err(e) => Err(e),
    }
}

/// The view of the outcome of a request for text.
pub open spec fn info_view(found: Result<String, CliError>) -> Result<Seq<char>, CliError> {
    match found {
        Ok(text) => Ok(text@),
        Err(e) => Err(e),
    }
}

/// A profile that stands at `slot` is the one that `email_slot` names.
pub proof fn lemma_email_slot_unique(users: Seq<UserProfile>, email: Seq<char>, slot: int)
    requires
        emails_distinct(users),
        0 <= slot < users.len(),
        users[slot].email@ == email,
    ensures
        has_email(users, email),
        email_slot(users, email) == slot,
{
    let found = email_slot(users, email);
    assert(0 <= found < users.len() && users[found].email@ == email);
    if found < slot {
        assert(users[found].email@ != users[slot].email@);
    } else if slot < found {
        assert(users[slot].email@ != users[found].email@);
    }
}

/// The users of the command line.
#[derive(Debug)]
pub struct UserManager {
    pub users: Vec<UserProfile>,
    pub current_user: Option<String>,
}

impl UserManager {
    /// Every email address has one profile.
    pub open spec fn wf(&self) -> bool {
        emails_distinct(self.users@)
    }

    /// A book without users.
    pub fn new() -> (manager: UserManager)
        ensures
            manager.wf(),
            manager.users@.len() == 0,
            manager.current_user is None,
    {
        UserManager { users: Vec::new(), current_user: None }
    }

    /// Where the profile of `email` stands, if there is one.
    pub fn position(&self, email: &str) -> (slot: Option<usize>)
        requires
            self.wf(),
        ensures
            slot is Some <==> has_email(self.users@, email@),
            slot is Some ==> slot.unwrap() == email_slot(self.users@, email@) && slot.unwrap()
                < self.users@.len() && self.users@[slot.unwrap() as int].email@ == email@,
    {
        let key = email.to_string();
        let mut i: usize = 0;
        while i < self.users.len()
            invariant
                i <= self.users@.len(),
                self.wf(),
                key@ == email@,
                forall|j: int| 0 <= j < i ==> self.users@[j].email@ != email@,
            decreases self.users@.len() - i,
        {
            if self.users[i].email == key {
                proof {
                    lemma_email_slot_unique(self.users@, email@, i as int);
                }
                return Some(i);
            }
            i += 1;
        }
        None
    }

    /// Records a profile and makes its user the current one. An earlier
    /// profile of the same email address is replaced; a new one goes behind
    /// all others.
    pub fn register_user(&mut self, profile: UserProfile)
        requires
            old(self).wf(),
        ensures
            final(self).wf(),
            chosen_view(final(self).current_user) == Some(profile.email@),
            final(self).users@ == if has_email(old(self).users@, profile.email@) {
                old(self).users@.update(email_slot(old(self).users@, profile.email@), profile)
            } else {
                old(self).users@.push(profile)
            },
    {
        let ghost before = self.users@;
        self.current_user = Some(copy_text(&profile.email));
        match self.position(profile.email.as_str()) {
            Some(slot) => {
                self.users.set(slot, profile);
                assert forall|i: int, j: int|
                    0 <= i < j < self.users@.len() implies self.users@[i].email@
                    != self.users@[j].email@ by {
                    assert(before[i].email@ != before[j].email@);
                }
            },
            None => {
                self.users.push(profile);
                assert forall|i: int, j: int|
                    0 <= i < j < self.users@.len() implies self.users@[i].email@
                    != self.users@[j].email@ by {
                    if j < before.len() {
                        assert(before[i].email@ != before[j].email@);
                    } else {
                        assert(before[i].email@ != profile.email@);
                    }
                }
            },
        }
    }

    /// Copies of all profiles, in the order of their registration.
    pub fn list_users(&self) -> (users: Vec<UserProfile>)
        ensures
            users@.len() == self.users@.len(),
            forall|i: int| 0 <= i < users@.len() ==> (#[trigger] users@[i])@ == self.users@[i]@,
    {
        let mut users: Vec<UserProfile> = Vec::new();
        let mut i: usize = 0;
        while i < self.users.len()
            invariant
                i <= self.users@.len(),
                users@.len() == i,
                forall|j: int| 0 <= j < i ==> (#[trigger] users@[j])@ == self.users@[j]@,
            decreases self.users@.len() - i,
        {
            users.push(self.users[i].clone());
            i += 1;
        }
        users
    }

    /// Makes the user of `email` the current one. An unknown user is
    /// refused and nothing changes.
    pub fn switch_user(&mut self, email: &str) -> (out: Result<(), CliError>)
        requires
            old(self).wf(),
        ensures
            final(self).wf(),
            final(self).users == old(self).users,
            out is Ok <==> has_email(old(self).users@, email@),
            out is Ok ==> chosen_view(final(self).current_user) == Some(email@),
            out is Err ==> out == Err::<(), CliError>(CliError::UserNotFound)
                && final(self).current_user == old(self).current_user,
    {
        match self.position(email) {
            None => Err(CliError::UserNotFound),
            Some(_) => {
                self.current_user = Some(email.to_string());
                Ok(())
            },
        }
    }

    /// Removes the profile of `email` and returns it. If its user was the
    /// current one, there is no current user afterwards. An unknown user is
    /// refused and nothing changes.
    pub fn remove_user(&mut self, email: &str) -> (out: Result<UserProfile, CliError>)
        requires
            old(self).wf(),
        ensures
            final(self).wf(),
            out is Ok <==> has_email(old(self).users@, email@),
            out is Err ==> out.unwrap_err() == CliError::UserNotFound && *final(self) == *old(self),
            out is Ok ==> {
                let slot = email_slot(old(self).users@, email@);
                &&& out.unwrap() == old(self).users@[slot]
                &&& final(self).users@ == old(self).users@.remove(slot)
                &&& !has_email(final(self).users@, email@)
                &&& if chosen_view(old(self).current_user) == Some(email@) {
                    final(self).current_user is None
                } else {
                    final(self).current_user == old(self).current_user
                }
            },
    {
        let slot = match self.position(email) {
            None => {
                return Err(CliError::UserNotFound);
            },
            Some(slot) => slot,
        };
        let ghost before = self.users@;
        let profile = self.users.remove(slot);
        assert forall|i: int, j: int|
            0 <= i < j < self.users@.len() implies self.users@[i].email@
            != self.users@[j].email@ by {
            let oi = if i < slot { i } else { i + 1 };
            let oj = if j < slot { j } else { j + 1 };
            assert(before[oi].email@ != before[oj].email@);
        }
        assert(!has_email(self.users@, email@)) by {
            assert forall|i: int| 0 <= i < self.users@.len() implies self.users@[i].email@
                != email@ by {
                let oi = if i < slot { i } else { i + 1 };
                if oi < slot {
                    assert(before[oi].email@ != before[slot as int].email@);
                } else {
                    assert(before[slot as int].email@ != before[oi].email@);
                }
            }
        }
        let is_current = match &self.current_user {
            Some(current) => *current == email.to_string(),
            None => false,
        };
        if is_current {
            self.current_user = None;
        }
        Ok(profile)
    }

    /// The email address of the current user.
    pub fn get_current_user(&self) -> (out: Result<String, CliError>)
        ensures
            info_view(out) == match chosen_view(self.current_user) {
                Some(email) => Ok::<Seq<char>, CliError>(email),
                None => Err::<Seq<char>, CliError>(CliError::NoCurrentUser),
            },
    {
        match &self.current_user {
            Some(email) => Ok(copy_text(email)),
            None => Err(CliError::NoCurrentUser),
        }
    }

    /// A copy of the profile of `email`.
    pub fn get_user_profile(&self, email: &str) -> (out: Result<UserProfile, CliError>)
        requires
            self.wf(),
        ensures
            profile_view(out) == if has_email(self.users@, email@) {
                Ok::<UserProfileView, CliError>(self.users@[email_slot(self.users@, email@)]@)
            } else {
                Err::<UserProfileView, CliError>(CliError::UserNotFound)
            },
    {
        match self.position(email) {
            None => Err(CliError::UserNotFound),
            Some(slot) => Ok(self.users[slot].clone()),
        }
    }
}

/// The lines that describe a profile.
pub open spec fn user_info_text_spec(profile: UserProfileView) -> Seq<char> {
    "Email: "@ + profile.email + "\nName: "@ + profile.name + "\nCreated: "@ + profile.created_at
        + "\nLast used: "@ + profile.last_used
}

/// What the command line does, as far as it only computes.
pub struct CliOperations;

impl CliOperations {
    /// The lines that describe the current user. Without a current user
    /// the result is `NoCurrentUser`; with one that has no profile it is
    /// `UserNotFound`.
    pub fn get_user_info(manager: &UserManager) -> (out: Result<String, CliError>)
        requires
            manager.wf(),
        ensures
            info_view(out) == match chosen_view(manager.current_user) {
                None => Err::<Seq<char>, CliError>(CliError::NoCurrentUser),
                Some(email) => if has_email(manager.users@, email) {
                    Ok::<Seq<char>, CliError>(
                        user_info_text_spec(manager.users@[email_slot(manager.users@, email)]@),
                    )
                } else {
                    Err::<Seq<char>, CliError>(CliError::UserNotFound)
                },
            },
    {
        let email = match manager.get_current_user() {
            Err(e) => {
                return Err(e);
            },
            Ok(email) => email,
        };
        let profile = match manager.get_user_profile(email.as_str()) {
            Err(e) => {
                return Err(e);
            },
            Ok(profile) => profile,
        };
        Ok(
            String::from_str("Email: ").concat(profile.email.as_str()).concat("\nName: ").concat(
                profile.name.as_str(),
            ).concat("\nCreated: ").concat(profile.created_at.as_str()).concat(
                "\nLast used: ",
            ).concat(profile.last_used.as_str()),
        )
    }
}

} // verus!

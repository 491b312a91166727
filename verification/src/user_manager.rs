//! The registry of the users known on this machine, and which of them is
//! the current one. The registry is a value: loading and storing it is the
//! caller's business.
use vstd::prelude::*;
use vstd::string::*;
use crate::identity::Identity;
use crate::stamp::{id_text, id_text_spec, timestamp_text, timestamp_text_spec};
use crate::text::{copy_text};

verus! {

/// What the registry records of one user.
#[derive(Debug)]
pub struct UserInfo {
    pub user_id: String,
    pub email: String,
    pub display_name: String,
    pub public_key: String,
    pub created_at: String,
    pub last_active: String,
}

/// The mathematical value of a [`UserInfo`].
pub struct UserInfoView {
    pub user_id: Seq<char>,
    pub email: Seq<char>,
    pub display_name: Seq<char>,
    pub public_key: Seq<char>,
    pub created_at: Seq<char>,
    pub last_active: Seq<char>,
}

impl View for UserInfo {
    type V = UserInfoView;

    open spec fn view(&self) -> UserInfoView {
        UserInfoView {
            user_id: self.user_id@,
            email: self.email@,
            display_name: self.display_name@,
            public_key: self.public_key@,
            created_at: self.created_at@,
            last_active: self.last_active@,
        }
    }
}

impl Clone for UserInfo {
    fn clone(&self) -> (copy: UserInfo)
        ensures
            copy@ == self@,
    {
        UserInfo {
            user_id: copy_text(&self.user_id),
            email: copy_text(&self.email),
            display_name: copy_text(&self.display_name),
            public_key: copy_text(&self.public_key),
            created_at: copy_text(&self.created_at),
            last_active: copy_text(&self.last_active),
        }
    }
}

/// Why the registry refused a request.
#[derive(Debug, Clone, Copy, PartialEq, Eq, Structural)]
pub enum RegistryError {
    /// No user with that identifier is registered.
    UserNotFound,
}

/// No two users have the same identifier.
pub open spec fn users_distinct(users: Seq<UserInfo>) -> bool {
    forall|i: int, j: int| 0 <= i < j < users.len() ==> users[i].user_id@ != users[j].user_id@
}

/// Some user has the identifier `user_id`.
pub open spec fn has_user(users: Seq<UserInfo>, user_id: Seq<char>) -> bool {
    exists|i: int| 0 <= i < users.len() && #[trigger] users[i].user_id@ == user_id
}

/// Where the user with the identifier `user_id` stands.
pub open spec fn user_slot(users: Seq<UserInfo>, user_id: Seq<char>) -> int {
    choose|i: int| 0 <= i < users.len() && #[trigger] users[i].user_id@ == user_id
}

/// The view of an optional text.
pub open spec fn current_view(current: Option<String>) -> Option<Seq<char>> {
    match current {
        Some(id) => Some(id@),
        None => None,
    }
}

/// A user that stands at `slot` is the one that `user_slot` names.
pub proof fn lemma_user_slot_unique(users: Seq<UserInfo>, user_id: Seq<char>, slot: int)
    requires
        users_distinct(users),
        0 <= slot < users.len(),
        users[slot].user_id@ == user_id,
    ensures
        has_user(users, user_id),
        user_slot(users, user_id) == slot,
{
    let found = user_slot(users, user_id);
    assert(0 <= found < users.len() && users[found].user_id@ == user_id);
    if found < slot {
        assert(users[found].user_id@ != users[slot].user_id@);
    } else if slot < found {
        assert(users[slot].user_id@ != users[found].user_id@);
    }
}

/// The users of this machine, each under its identifier.
#[derive(Debug)]
pub struct UserRegistry {
    pub users: Vec<UserInfo>,
    pub current_user: Option<String>,
}

impl Default for UserRegistry {
    /// A registry without users.
    fn default() -> (registry: UserRegistry)
        ensures
            registry.wf(),
            registry.users@.len() == 0,
            registry.current_user is None,
    {
        UserRegistry::new()
    }
}

impl UserRegistry {
    /// Every user is registered once.
    pub open spec fn wf(&self) -> bool {
        users_distinct(self.users@)
    }

    /// A registry without users.
    pub fn new() -> (registry: UserRegistry)
        ensures
            registry.wf(),
            registry.users@.len() == 0,
            registry.current_user is None,
    {
        UserRegistry { users: Vec::new(), current_user: None }
    }

    /// Where the user `user_id` stands, if registered.
    pub fn position(&self, user_id: &str) -> (slot: Option<usize>)
        requires
            self.wf(),
        ensures
            slot is Some <==> has_user(self.users@, user_id@),
            slot is Some ==> slot.unwrap() == user_slot(self.users@, user_id@) && slot.unwrap()
                < self.users@.len() && self.users@[slot.unwrap() as int].user_id@ == user_id@,
    {
        let key = user_id.to_string();
        let mut i: usize = 0;
        while i < self.users.len()
            invariant
                i <= self.users@.len(),
                self.wf(),
                key@ == user_id@,
                forall|j: int| 0 <= j < i ==> self.users@[j].user_id@ != user_id@,
            decreases self.users@.len() - i,
        {
            if self.users[i].user_id == key {
                proof {
                    lemma_user_slot_unique(self.users@, user_id@, i as int);
                }
                return Some(i);
            }
            i += 1;
        }
        None
    }

    /// Registers a user and makes it the current one. An earlier entry
    /// under the same identifier is replaced; a new one goes behind all
    /// others.
    pub fn add_user(&mut self, info: UserInfo)
        requires
            old(self).wf(),
        ensures
            final(self).wf(),
            current_view(final(self).current_user) == Some(info.user_id@),
            final(self).users@ == if has_user(old(self).users@, info.user_id@) {
                old(self).users@.update(user_slot(old(self).users@, info.user_id@), info)
            } else {
                old(self).users@.push(info)
            },
    {
        let ghost before = self.users@;
        self.current_user = Some(copy_text(&info.user_id));
        match self.position(info.user_id.as_str()) {
            Some(slot) => {
                self.users.set(slot, info);
                assert forall|i: int, j: int|
                    0 <= i < j < self.users@.len() implies self.users@[i].user_id@
                    != self.users@[j].user_id@ by {
                    assert(before[i].user_id@ != before[j].user_id@);
                }
            },
            None => {
                self.users.push(info);
                assert forall|i: int, j: int|
                    0 <= i < j < self.users@.len() implies self.users@[i].user_id@
                    != self.users@[j].user_id@ by {
                    if j < before.len() {
                        assert(before[i].user_id@ != before[j].user_id@);
                    } else {
                        assert(before[i].user_id@ != info.user_id@);
                    }
                }
            },
        }
    }

    /// Records when the user `user_id` was last active. An unknown user
    /// changes nothing.
    pub fn update_last_active(&mut self, user_id: &str, stamp: String)
        requires
            old(self).wf(),
        ensures
            final(self).wf(),
            final(self).current_user == old(self).current_user,
            final(self).users@.len() == old(self).users@.len(),
            !has_user(old(self).users@, user_id@) ==> final(self).users == old(self).users,
            has_user(old(self).users@, user_id@) ==> {
                let slot = user_slot(old(self).users@, user_id@);
                &&& final(self).users@[slot]@ == (UserInfoView {
                    last_active: stamp@,
                    ..old(self).users@[slot]@
                })
                &&& forall|j: int|
                    0 <= j < old(self).users@.len() && j != slot ==> final(self).users@[j]
                        == old(self).users@[j]
            },
    {
        match self.position(user_id) {
            None => {},
            Some(slot) => {
                let ghost before = self.users@;
                let mut info = self.users.remove(slot);
                info.last_active = stamp;
                self.users.insert(slot, info);
                assert forall|i: int, j: int|
                    0 <= i < j < self.users@.len() implies self.users@[i].user_id@
                    != self.users@[j].user_id@ by {
                    assert(self.users@[i].user_id@ == before[i].user_id@);
                    assert(self.users@[j].user_id@ == before[j].user_id@);
                }
            },
        }
    }

    /// Makes the user `user_id` the current one. An unknown user is
    /// refused and nothing changes.
    pub fn set_current_user(&mut self, user_id: &str) -> (out: Result<(), RegistryError>)
        requires
            old(self).wf(),
        ensures
            final(self).wf(),
            final(self).users == old(self).users,
            out is Ok <==> has_user(old(self).users@, user_id@),
            out is Ok ==> current_view(final(self).current_user) == Some(user_id@),
            out is Err ==> out == Err::<(), RegistryError>(RegistryError::UserNotFound)
                && final(self).current_user == old(self).current_user,
    {
        match self.position(user_id) {
            None => Err(RegistryError::UserNotFound),
            Some(_) => {
                self.current_user = Some(user_id.to_string());
                Ok(())
            },
        }
    }

    /// Removes the user `user_id`. If it was the current user, there is no
    /// current user afterwards. An unknown user is refused and nothing
    /// changes.
    pub fn remove_user(&mut self, user_id: &str) -> (out: Result<(), RegistryError>)
        requires
            old(self).wf(),
        ensures
            final(self).wf(),
            out is Ok <==> has_user(old(self).users@, user_id@),
            out is Err ==> out == Err::<(), RegistryError>(RegistryError::UserNotFound)
                && *final(self) == *old(self),
            out is Ok ==> {
                &&& final(self).users@ == old(self).users@.remove(
                    user_slot(old(self).users@, user_id@),
                )
                &&& !has_user(final(self).users@, user_id@)
                &&& if current_view(old(self).current_user) == Some(user_id@) {
                    final(self).current_user is None
                } else {
                    final(self).current_user == old(self).current_user
                }
            },
    {
        let slot = match self.position(user_id) {
            None => {
                return Err(RegistryError::UserNotFound);
            },
            Some(slot) => slot,
        };
        let ghost before = self.users@;
        let _ = self.users.remove(slot);
        assert forall|i: int, j: int|
            0 <= i < j < self.users@.len() implies self.users@[i].user_id@
            != self.users@[j].user_id@ by {
            let oi = if i < slot { i } else { i + 1 };
            let oj = if j < slot { j } else { j + 1 };
            assert(before[oi].user_id@ != before[oj].user_id@);
        }
        assert(!has_user(self.users@, user_id@)) by {
            assert forall|i: int| 0 <= i < self.users@.len() implies self.users@[i].user_id@
                != user_id@ by {
                let oi = if i < slot { i } else { i + 1 };
                if oi < slot {
                    assert(before[oi].user_id@ != before[slot as int].user_id@);
                } else {
                    assert(before[slot as int].user_id@ != before[oi].user_id@);
                }
            }
        }
        let is_current = match &self.current_user {
            Some(current) => *current == user_id.to_string(),
            None => false,
        };
        if is_current {
            self.current_user = None;
        }
        Ok(())
    }

    /// Removes the user `user_id` as [`Self::remove_user`] does, and where
    /// that leaves users but no current one, makes the first of them the
    /// current user.
    pub fn remove_user_and_reselect(&mut self, user_id: &str) -> (out: Result<(), RegistryError>)
        requires
            old(self).wf(),
        ensures
            final(self).wf(),
            out is Ok <==> has_user(old(self).users@, user_id@),
            out is Err ==> out == Err::<(), RegistryError>(RegistryError::UserNotFound)
                && *final(self) == *old(self),
            out is Ok ==> {
                &&& final(self).users@ == old(self).users@.remove(
                    user_slot(old(self).users@, user_id@),
                )
                &&& !has_user(final(self).users@, user_id@)
                &&& if current_view(old(self).current_user) == Some(user_id@)
                    || old(self).current_user is None {
                    if final(self).users@.len() > 0 {
                        current_view(final(self).current_user) == Some(
                            final(self).users@[0].user_id@,
                        )
                    } else {
                        final(self).current_user is None
                    }
                } else {
                    final(self).current_user == old(self).current_user
                }
            },
    {
        match self.remove_user(user_id) {
            Err(e) => Err(e),
            Ok(()) => {
                if self.current_user.is_none() && self.users.len() > 0 {
                    self.current_user = Some(copy_text(&self.users[0].user_id));
                }
                Ok(())
            },
        }
    }

    /// All users, in the order of their registration.
    pub fn list_users(&self) -> (users: Vec<&UserInfo>)
        ensures
            users@.len() == self.users@.len(),
            forall|i: int| 0 <= i < users@.len() ==> *(#[trigger] users@[i]) == self.users@[i],
    {
        let mut users: Vec<&UserInfo> = Vec::new();
        let mut i: usize = 0;
        while i < self.users.len()
            invariant
                i <= self.users@.len(),
                users@.len() == i,
                forall|j: int| 0 <= j < i ==> *(#[trigger] users@[j]) == self.users@[j],
            decreases self.users@.len() - i,
        {
            users.push(&self.users[i]);
            i += 1;
        }
        users
    }

    /// The current user, if there is one and it is registered.
    pub fn get_current_user(&self) -> (user: Option<&UserInfo>)
        requires
            self.wf(),
        ensures
            match current_view(self.current_user) {
                Some(id) if has_user(self.users@, id) => user is Some && *user.unwrap()
                    == self.users@[user_slot(self.users@, id)],
                _ => user is None,
            },
    {
        match &self.current_user {
            None => None,
            Some(id) => self.get_user(id.as_str()),
        }
    }

    /// The user `user_id`, if registered.
    pub fn get_user(&self, user_id: &str) -> (user: Option<&UserInfo>)
        requires
            self.wf(),
        ensures
            has_user(self.users@, user_id@) ==> user is Some && *user.unwrap()
                == self.users@[user_slot(self.users@, user_id@)],
            !has_user(self.users@, user_id@) ==> user is None,
    {
        match self.position(user_id) {
            None => None,
            Some(slot) => Some(&self.users[slot]),
        }
    }
}

/// The name of the file that holds the registry.
pub open spec fn registry_file_spec(config_dir: Seq<char>) -> Seq<char> {
    config_dir + "/users.json"@
}

/// The file in the directory `config_dir` that holds the registry.
pub fn get_user_registry_file(config_dir: &str) -> (path: String)
    ensures
        path@ == registry_file_spec(config_dir@),
{
    config_dir.to_string().concat("/users.json")
}

/// What the registry records of `identity` when it is registered at the
/// time that `stamp` names.
pub open spec fn user_info_spec(identity: &Identity, stamp: Seq<char>) -> UserInfoView {
    UserInfoView {
        user_id: id_text_spec(identity.user_id),
        email: identity.email@,
        display_name: identity.display_name_spec(),
        public_key: identity.keypair.public_key@,
        created_at: stamp,
        last_active: stamp,
    }
}

/// Registers `identity` as the current user of the registry, at the time
/// that `stamp` names.
pub fn register_current_user(registry: &mut UserRegistry, identity: &Identity, stamp: &str)
    requires
        old(registry).wf(),
    ensures
        final(registry).wf(),
        current_view(final(registry).current_user) == Some(id_text_spec(identity.user_id)),
        has_user(old(registry).users@, id_text_spec(identity.user_id)) ==> {
            let slot = user_slot(old(registry).users@, id_text_spec(identity.user_id));
            &&& final(registry).users@.len() == old(registry).users@.len()
            &&& final(registry).users@[slot]@ == user_info_spec(identity, stamp@)
            &&& forall|j: int|
                0 <= j < old(registry).users@.len() && j != slot ==> final(registry).users@[j]
                    == old(registry).users@[j]
        },
        !has_user(old(registry).users@, id_text_spec(identity.user_id)) ==> {
            &&& final(registry).users@.drop_last() == old(registry).users@
            &&& final(registry).users@.len() == old(registry).users@.len() + 1
            &&& final(registry).users@.last()@ == user_info_spec(identity, stamp@)
        },
{
    let info = UserInfo {
        user_id: id_text(identity.user_id),
        email: copy_text(&identity.email),
        display_name: identity.get_display_name(),
        public_key: copy_text(&identity.keypair.public_key),
        created_at: stamp.to_string(),
        last_active: stamp.to_string(),
    };
    let ghost before = registry.users@;
    registry.add_user(info);
    assert(!has_user(before, info.user_id@) ==> registry.users@.drop_last() =~= before);
}

/// The format in which a timestamp is shown: year to minute.
pub open spec fn display_format() -> Seq<char> {
    "%Y-%m-%d %H:%M UTC"@
}

/// A timestamp for display, year to minute. A text that is no RFC 3339
/// timestamp is shown as it is.
pub fn format_timestamp(timestamp: &str) -> (out: String)
    ensures
        out@ == match timestamp_text_spec(timestamp@, display_format()) {
            Some(shown) => shown,
            None => timestamp@,
        },
{
    match timestamp_text(timestamp, "%Y-%m-%d %H:%M UTC") {
        Some(shown) => shown,
        None => timestamp.to_string(),
    }
}

} // verus!

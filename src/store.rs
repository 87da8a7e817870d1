use vstd::prelude::*;
use crate::model::{User, UserView};
use crate::text::same_text;

verus! {

/// A failure of the credential store.
#[derive(PartialEq, Eq, Structural, Clone, Copy, Debug)]
pub enum StoreError {
    /// The store's unique constraint on usernames or emails refused an insert.
    Conflict,
    /// The query or the connection failed.
    Failure,
}

pub open spec fn matches_identifier(u: UserView, identifier: Seq<char>) -> bool {
    u.username == identifier || u.email == identifier
}

/// The first user, in order of insertion, whose username or email is `identifier`.
pub open spec fn find_in(users: Seq<UserView>, identifier: Seq<char>) -> Option<UserView>
    decreases users.len(),
{
    if users.len() == 0 {
        None
    } else {
        match find_in(users.drop_last(), identifier) {
            Some(u) => Some(u),
            None => if matches_identifier(users.last(), identifier) {
                Some(users.last())
            } else {
                None
            },
        }
    }
}

pub open spec fn has_username(users: Seq<UserView>, username: Seq<char>) -> bool {
    exists|i: int| 0 <= i < users.len() && (#[trigger] users[i]).username == username
}

pub open spec fn has_email(users: Seq<UserView>, email: Seq<char>) -> bool {
    exists|i: int| 0 <= i < users.len() && (#[trigger] users[i]).email == email
}

/// No two users share a username or an email, and each user's identifier is
/// its position counted from one.
pub open spec fn users_wf(users: Seq<UserView>) -> bool {
    &&& forall|i: int, j: int|
        0 <= i < users.len() && 0 <= j < users.len() && i != j ==> (#[trigger] users[i]).username
            != (#[trigger] users[j]).username && users[i].email != users[j].email
    &&& forall|i: int| 0 <= i < users.len() ==> (#[trigger] users[i]).user_id == i + 1
}

/// The record that an insert appends to `users`.
pub open spec fn new_user(
    users: Seq<UserView>,
    username: Seq<char>,
    email: Seq<char>,
    password_hash: Seq<char>,
) -> UserView {
    UserView {
        user_id: (users.len() + 1) as i32,
        username,
        email,
        password: password_hash,
    }
}

/// The largest number of users the store holds: identifiers are `i32`.
pub const MAX_USERS: usize = 0x7fff_fffe;

/// An in-memory credential store with unique usernames and emails.
pub struct UserStore {
    users: Vec<User>,
}

impl View for UserStore {
    type V = Seq<UserView>;

    closed spec fn view(&self) -> Seq<UserView> {
        self.users@.map_values(|u: User| u@)
    }
}

proof fn lemma_find_extends(users: Seq<UserView>, identifier: Seq<char>, i: int)
    requires
        0 <= i <= users.len(),
        find_in(users.subrange(0, i), identifier) is Some,
    ensures
        find_in(users, identifier) == find_in(users.subrange(0, i), identifier),
    decreases users.len() - i,
{
    if i < users.len() {
        assert(users.subrange(0, i + 1).drop_last() =~= users.subrange(0, i));
        lemma_find_extends(users, identifier, i + 1);
    } else {
        assert(users.subrange(0, i) =~= users);
    }
}

impl UserStore {
    pub open spec fn wf(&self) -> bool {
        users_wf(self@)
    }

    /// An empty store.
    pub fn new() -> (r: UserStore)
        ensures
            r@ == Seq::<UserView>::empty(),
            r.wf(),
    {
        let r = UserStore { users: Vec::new() };
        assert(r@ =~= Seq::<UserView>::empty());
        r
    }

    /// The number of stored users.
    pub fn len(&self) -> (r: usize)
        ensures
            r == self@.len(),
    {
        self.users.len()
    }

    /// The first user whose username or email equals `identifier`.
    pub fn find_by_identifier(&self, identifier: &str) -> (r: Option<User>)
        ensures
            match r {
                Some(u) => find_in(self@, identifier@) == Some(u@),
                None => find_in(self@, identifier@) is None,
            },
    {
        let ghost users = self@;
        let mut i: usize = 0;
        while i < self.users.len()
            invariant
                users == self@,
                i <= users.len(),
                find_in(users.subrange(0, i as int), identifier@) is None,
            decreases self.users.len() - i,
        {
            let u = &self.users[i];
            assert(users.subrange(0, i + 1).drop_last() =~= users.subrange(0, i as int));
            assert(users[i as int] == u@);
            if same_text(u.username.as_str(), identifier) || same_text(u.email.as_str(), identifier) {
                proof {
                    lemma_find_extends(users, identifier@, i + 1);
                }
                return Some(u.duplicate());
            }
            i = i + 1;
        }
        assert(users.subrange(0, i as int) =~= users);
        None
    }

    /// Whether a user holds `username`.
    pub fn exists_username(&self, username: &str) -> (r: bool)
        ensures
            r == has_username(self@, username@),
    {
        let mut i: usize = 0;
        while i < self.users.len()
            invariant
                i <= self@.len(),
                forall|j: int| 0 <= j < i ==> (#[trigger] self@[j]).username != username@,
            decreases self.users.len() - i,
        {
            assert(self@[i as int] == self.users@[i as int]@);
            if same_text(self.users[i].username.as_str(), username) {
                return true;
            }
            i = i + 1;
        }
        false
    }

    /// Whether a user holds `email`.
    pub fn exists_email(&self, email: &str) -> (r: bool)
        ensures
            r == has_email(self@, email@),
    {
        let mut i: usize = 0;
        while i < self.users.len()
            invariant
                i <= self@.len(),
                forall|j: int| 0 <= j < i ==> (#[trigger] self@[j]).email != email@,
            decreases self.users.len() - i,
        {
            assert(self@[i as int] == self.users@[i as int]@);
            if same_text(self.users[i].email.as_str(), email) {
                return true;
            }
            i = i + 1;
        }
        false
    }

    /// Appends a user. The store's own unique constraint refuses a username or
    /// an email that is already held; a full store fails.
    pub fn insert_user(&mut self, username: &str, email: &str, password_hash: &str) -> (r: Result<
        (),
        StoreError,
    >)
        requires
            old(self).wf(),
        ensures
            final(self).wf(),
            has_username(old(self)@, username@) || has_email(old(self)@, email@) ==> r == Err::<
                (),
                StoreError,
            >(StoreError::Conflict) && final(self)@ == old(self)@,
            !has_username(old(self)@, username@) && !has_email(old(self)@, email@) ==> if old(
                self,
            )@.len() >= MAX_USERS {
                r == Err::<(), StoreError>(StoreError::Failure) && final(self)@ == old(self)@
            } else {
                r is Ok && final(self)@ == old(self)@.push(
                    new_user(old(self)@, username@, email@, password_hash@),
                )
            },
    {
        if self.exists_username(username) || self.exists_email(email) {
            return Err(StoreError::Conflict);
        }
        let n = self.users.len();
        if n >= MAX_USERS {
            return Err(StoreError::Failure);
        }
        let ghost before = self@;
        let user = User {
            user_id: (n + 1) as i32,
            username: String::from_str(username),
            email: String::from_str(email),
            password: String::from_str(password_hash),
        };
        self.users.push(user);
        assert(self@ =~= before.push(new_user(before, username@, email@, password_hash@)));
        assert(users_wf(self@)) by {
            assert forall|i: int| 0 <= i < before.len() implies (#[trigger] self@[i]) == before[i]
                && before[i].username != username@ && before[i].email != email@ by {
                assert(self@[i] == before[i]);
            }
        }
        Ok(())
    }
}

} // verus!

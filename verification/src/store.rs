//! A store held in memory: the keyed persistence that the services consume,
//! with the one constraint they rely on, that no two users share an email.

use crate::errors::StoreError;
use crate::models::{Invitation, User};
use vstd::prelude::*;

verus! {

/// Some user among `users` has this email.
pub open spec fn email_taken(users: Seq<User>, email: Seq<char>) -> bool {
    exists|i: int| 0 <= i < users.len() && (#[trigger] users[i]).email@ == email
}

/// No two users share an email.
pub open spec fn emails_unique(users: Seq<User>) -> bool {
    forall|i: int, j: int|
        0 <= i < j < users.len() ==> (#[trigger] users[i]).email@ != (#[trigger] users[j]).email@
}

/// The users with this email, in the order of their insertion.
pub open spec fn users_with_email(users: Seq<User>, email: Seq<char>) -> Seq<User>
    decreases users.len(),
{
    if users.len() == 0 {
        Seq::empty()
    } else if users.last().email@ == email {
        users_with_email(users.drop_last(), email).push(users.last())
    } else {
        users_with_email(users.drop_last(), email)
    }
}

/// The invitations with this identifier, in the order of their insertion.
pub open spec fn invitations_with_id(invitations: Seq<Invitation>, id: u128) -> Seq<Invitation>
    decreases invitations.len(),
{
    if invitations.len() == 0 {
        Seq::empty()
    } else if invitations.last().id == id {
        invitations_with_id(invitations.drop_last(), id).push(invitations.last())
    } else {
        invitations_with_id(invitations.drop_last(), id)
    }
}

/// The rows of both tables, in the order of their insertion.
pub struct MemoryStore {
    users: Vec<User>,
    invitations: Vec<Invitation>,
}

fn copy_of_user(user: &User) -> (copy: User)
    ensures
        copy == *user,
{
    User {
        email: user.email.clone(),
        password: user.password.clone(),
        created_at: user.created_at,
    }
}

fn copy_of_invitation(invitation: &Invitation) -> (copy: Invitation)
    ensures
        copy == *invitation,
{
    Invitation {
        id: invitation.id,
        email: invitation.email.clone(),
        expires_at: invitation.expires_at,
    }
}

impl MemoryStore {
    /// The user rows.
    pub closed spec fn users(&self) -> Seq<User> {
        self.users@
    }

    /// The invitation rows.
    pub closed spec fn invitations(&self) -> Seq<Invitation> {
        self.invitations@
    }

    /// The store's invariant: at most one user per email.
    pub open spec fn wf(&self) -> bool {
        emails_unique(self.users())
    }

    /// A store without rows.
    pub fn new() -> (store: MemoryStore)
        ensures
            store.wf(),
            store.users() == Seq::<User>::empty(),
            store.invitations() == Seq::<Invitation>::empty(),
    {
        MemoryStore { users: Vec::new(), invitations: Vec::new() }
    }

    /// Whether a user with this email is stored.
    pub fn has_user(&self, email: &str) -> (taken: bool)
        ensures
            taken == email_taken(self.users(), email@),
    {
        let key = email.to_owned();
        let mut i: usize = 0;
        while i < self.users.len()
            invariant
                i <= self.users.len(),
                key@ == email@,
                forall|k: int| 0 <= k < i ==> (#[trigger] self.users@[k]).email@ != email@,
            decreases self.users.len() - i,
        {
            if self.users[i].email == key {
                return true;
            }
            i += 1;
        }
        false
    }

    /// The users with this email, the one inserted last at the end.
    pub fn users_by_email(&self, email: &str) -> (rows: Vec<User>)
        ensures
            rows@ == users_with_email(self.users(), email@),
    {
        let key = email.to_owned();
        let mut rows: Vec<User> = Vec::new();
        let mut i: usize = 0;
        while i < self.users.len()
            invariant
                i <= self.users.len(),
                key@ == email@,
                rows@ == users_with_email(self.users@.take(i as int), email@),
            decreases self.users.len() - i,
        {
            proof {
                let next = self.users@.take(i + 1);
                assert(next.drop_last() =~= self.users@.take(i as int));
                assert(next.last() == self.users@[i as int]);
            }
            if self.users[i].email == key {
                rows.push(copy_of_user(&self.users[i]));
            }
            i += 1;
        }
        proof {
            assert(self.users@.take(i as int) =~= self.users@);
        }
        rows
    }

    /// Inserts a user, unless one with the same email is stored already: the
    /// store is then left as it was.
    pub fn insert_user(&mut self, user: User) -> (r: Result<User, StoreError>)
        requires
            old(self).wf(),
        ensures
            final(self).wf(),
            final(self).invitations() == old(self).invitations(),
            match r {
                Ok(row) => row == user && !email_taken(old(self).users(), user.email@)
                    && final(self).users() == old(self).users().push(user),
                Err(e) => e == StoreError::UniqueViolation && email_taken(
                    old(self).users(),
                    user.email@,
                ) && final(self).users() == old(self).users(),
            },
    {
        if self.has_user(user.email.as_str()) {
            Err(StoreError::UniqueViolation)
        } else {
            let row = copy_of_user(&user);
            self.users.push(user);
            Ok(row)
        }
    }

    /// The invitations with this identifier, the one inserted last at the end.
    pub fn invitations_by_id(&self, id: u128) -> (rows: Vec<Invitation>)
        ensures
            rows@ == invitations_with_id(self.invitations(), id),
    {
        let mut rows: Vec<Invitation> = Vec::new();
        let mut i: usize = 0;
        while i < self.invitations.len()
            invariant
                i <= self.invitations.len(),
                rows@ == invitations_with_id(self.invitations@.take(i as int), id),
            decreases self.invitations.len() - i,
        {
            proof {
                let next = self.invitations@.take(i + 1);
                assert(next.drop_last() =~= self.invitations@.take(i as int));
                assert(next.last() == self.invitations@[i as int]);
            }
            if self.invitations[i].id == id {
                rows.push(copy_of_invitation(&self.invitations[i]));
            }
            i += 1;
        }
        proof {
            assert(self.invitations@.take(i as int) =~= self.invitations@);
        }
        rows
    }

    /// Inserts an invitation. Identifiers are not constrained: several
    /// invitations may be live for one email.
    pub fn insert_invitation(&mut self, invitation: Invitation) -> (r: Result<
        Invitation,
        StoreError,
    >)
        ensures
            final(self).users() == old(self).users(),
            final(self).invitations() == old(self).invitations().push(invitation),
            r == Ok::<Invitation, StoreError>(invitation),
    {
        let row = copy_of_invitation(&invitation);
        self.invitations.push(invitation);
        Ok(row)
    }
}

/// Under the store's invariant a query by email finds the user with that
/// email where there is one, and nothing else.
pub proof fn lookup_finds_what_is_stored(users: Seq<User>, email: Seq<char>)
    requires
        emails_unique(users),
    ensures
        users_with_email(users, email).len() <= 1,
        users_with_email(users, email).len() == 1 <==> email_taken(users, email),
        forall|k: int|
            0 <= k < users_with_email(users, email).len() ==> (#[trigger] users_with_email(
                users,
                email,
            )[k]).email@ == email,
    decreases users.len(),
{
    if users.len() > 0 {
        let rest = users.drop_last();
        assert(emails_unique(rest)) by {
            assert forall|i: int, j: int| 0 <= i < j < rest.len() implies (#[trigger] rest[i]).email@
                != (#[trigger] rest[j]).email@ by {
                assert(rest[i] == users[i] && rest[j] == users[j]);
            }
        }
        lookup_finds_what_is_stored(rest, email);
        if users.last().email@ == email {
            if email_taken(rest, email) {
                let i = choose|i: int| 0 <= i < rest.len() && (#[trigger] rest[i]).email@ == email;
                assert(users[i] == rest[i]);
                assert(users[users.len() - 1] == users.last());
                assert(false);
            }
            assert(users[users.len() - 1].email@ == email);
        } else {
            if email_taken(users, email) {
                let i = choose|i: int| 0 <= i < users.len() && (#[trigger] users[i]).email@ == email;
                assert(rest[i] == users[i]);
            }
            if email_taken(rest, email) {
                let i = choose|i: int| 0 <= i < rest.len() && (#[trigger] rest[i]).email@ == email;
                assert(users[i] == rest[i]);
            }
        }
    }
}

/// Once a user is inserted, a query by its email ends with that user.
pub proof fn inserted_user_is_found_last(users: Seq<User>, user: User)
    ensures
        users_with_email(users.push(user), user.email@).len() > 0,
        users_with_email(users.push(user), user.email@).last() == user,
        email_taken(users.push(user), user.email@),
{
    let after = users.push(user);
    assert(after.drop_last() =~= users);
    assert(after.last() == user);
    assert(after[after.len() - 1].email@ == user.email@);
}

} // verus!

//! The user directory: the collaborator that stores credentials.
//!
//! `UserRepositoryTrait` is the capability the authentication core is built
//! over: lookup by email, existence check, create, update, delete, each
//! specified against the directory's contents as a map from email to stored
//! record. `MemoryUserRepository` is a verified in-process implementation of
//! that contract; a persistence-backed implementation lives with the process
//! wiring and promises the same interface.

use vstd::prelude::*;

use crate::errors::AppError;
use crate::model::User;
use crate::model::UserView;
use crate::request::CreateUserRequest;
use crate::request::UpdateUserRequest;

verus! {

/// The user directory as the authentication core sees it. Its contents are
/// the map `users()` from stored email to stored record; every method's
/// contract is stated against that map. A method may fail for reasons of its
/// own (a lost connection, a violated constraint), but whatever it returns
/// must be truthful about the map, and a failed mutation leaves the map
/// unchanged.
pub trait UserRepositoryTrait: Sized {
    /// The directory's contents: each stored email to the record under it.
    /// The default body only serves implementations the verifier never
    /// reads, which need not spell one out; a verified implementation
    /// defines it for real.
    open spec fn users(&self) -> Map<Seq<char>, UserView> {
        Map::empty()
    }

    /// Whether a record is stored under the email.
    fn find_by_email_exists(&self, email: &str) -> (r: Result<bool, AppError>)
        ensures
            r matches Ok(b) ==> b == self.users().contains_key(email@),
    ;

    /// Store a new record carrying the request's fields; the directory
    /// chooses an identifier no stored record carries. On success the
    /// contents gain exactly that record under its email.
    fn create_user(&mut self, input: &CreateUserRequest) -> (r: Result<User, AppError>)
        ensures
            r matches Ok(u) ==> ({
                &&& u@.firstname == input.firstname@
                &&& u@.lastname == input.lastname@
                &&& u@.email == input.email@
                &&& u@.password == input.password@
                &&& forall|e: Seq<char>|
                    old(self).users().contains_key(e) ==> old(self).users()[e].id != u@.id
                &&& final(self).users() == old(self).users().insert(input.email@, u@)
            }),
            r is Err ==> final(self).users() == old(self).users(),
    ;

    /// The record stored under the email, if any.
    fn find_by_email(&self, email: &str) -> (r: Result<Option<User>, AppError>)
        ensures
            r matches Ok(u) ==> match u {
                Some(u) => u@.email == email@ && self.users().contains_key(email@) && u@
                    == self.users()[email@],
                None => !self.users().contains_key(email@),
            },
    ;

    /// The record stored under the identifier, if any.
    fn find_by_id(&self, id: i32) -> (r: Result<Option<User>, AppError>)
        ensures
            r matches Ok(u) ==> match u {
                Some(u) => u@.id == id as int && self.users().contains_key(u@.email)
                    && self.users()[u@.email] == u@,
                None => forall|e: Seq<char>|
                    self.users().contains_key(e) ==> self.users()[e].id != id as int,
            },
    ;

    /// Update the record with the request's identifier, leaving absent
    /// fields — and always the stored password hash — as stored. A request
    /// without an identifier is rejected as a validation error; on success
    /// the returned record replaces exactly the record that carried the
    /// identifier, under its (possibly changed) email.
    fn update_user(&mut self, input: &UpdateUserRequest) -> (r: Result<User, AppError>)
        ensures
            r matches Ok(u) ==> ({
                &&& input.id matches Some(i) && u@.id == i as int
                &&& final(self).users().contains_key(u@.email)
                &&& final(self).users()[u@.email] == u@
                &&& exists|prior: Seq<char>|
                    {
                        &&& old(self).users().contains_key(prior)
                        &&& old(self).users()[prior].id == u@.id
                        &&& u@.password == old(self).users()[prior].password
                        &&& final(self).users() == old(self).users().remove(prior).insert(
                            u@.email,
                            u@,
                        )
                    }
            }),
            r is Err ==> final(self).users() == old(self).users(),
            input.id is None ==> (r matches Err(e) && e matches AppError::ValidationError(_)),
    ;

    /// Remove whatever is stored under the email; removing an absent email
    /// succeeds and changes nothing.
    fn delete_user(&mut self, email: &str) -> (r: Result<(), AppError>)
        ensures
            r is Ok ==> final(self).users() == old(self).users().remove(email@),
            r is Err ==> final(self).users() == old(self).users(),
    ;
}

/// The map a list of records represents: each email to the record under it,
/// later entries shadowing earlier ones.
pub open spec fn users_map(s: Seq<User>) -> Map<Seq<char>, UserView>
    decreases s.len(),
{
    if s.len() == 0 {
        Map::empty()
    } else {
        users_map(s.drop_last()).insert(s.last()@.email, s.last()@)
    }
}

/// No two records in the list share an email.
pub open spec fn distinct_emails(s: Seq<User>) -> bool {
    forall|i: int, j: int| 0 <= i < j < s.len() ==> s[i]@.email != s[j]@.email
}

/// No two records in the list share an identifier.
pub open spec fn distinct_ids(s: Seq<User>) -> bool {
    forall|i: int, j: int| 0 <= i < j < s.len() ==> s[i]@.id != s[j]@.id
}

/// An email is in the map exactly when some record in the list carries it.
proof fn lemma_users_map_contains(s: Seq<User>, e: Seq<char>)
    ensures
        users_map(s).contains_key(e) <==> exists|i: int| 0 <= i < s.len() && s[i]@.email == e,
    decreases s.len(),
{
    if s.len() > 0 {
        lemma_users_map_contains(s.drop_last(), e);
        if s.last()@.email == e {
            assert(s[s.len() - 1]@.email == e);
        } else {
            if users_map(s).contains_key(e) {
                let i = choose|i: int| 0 <= i < s.drop_last().len() && s.drop_last()[i]@.email == e;
                assert(s[i]@.email == e);
            }
            if exists|i: int| 0 <= i < s.len() && s[i]@.email == e {
                let i = choose|i: int| 0 <= i < s.len() && s[i]@.email == e;
                assert(s.drop_last()[i]@.email == e);
            }
        }
    }
}

/// With distinct emails, the map holds each listed record under its email.
proof fn lemma_users_map_at(s: Seq<User>, i: int)
    requires
        distinct_emails(s),
        0 <= i < s.len(),
    ensures
        users_map(s).contains_key(s[i]@.email),
        users_map(s)[s[i]@.email] == s[i]@,
    decreases s.len(),
{
    if i < s.len() - 1 {
        lemma_users_map_at(s.drop_last(), i);
        assert(s.drop_last()[i] == s[i]);
        assert(s.last()@.email != s[i]@.email);
    }
}

/// With distinct emails, removing the record at an index removes exactly
/// its email from the map.
proof fn lemma_users_map_remove(s: Seq<User>, i: int)
    requires
        distinct_emails(s),
        0 <= i < s.len(),
    ensures
        users_map(s.remove(i)) == users_map(s).remove(s[i]@.email),
    decreases s.len(),
{
    let e = s[i]@.email;
    if i == s.len() - 1 {
        assert(s.remove(i) =~= s.drop_last());
        lemma_users_map_contains(s.drop_last(), e);
        assert(forall|j: int|
            0 <= j < s.drop_last().len() ==> s.drop_last()[j]@.email != e) by {
            assert(forall|j: int| 0 <= j < s.len() - 1 ==> s[j]@.email != e);
        }
        assert(!users_map(s.drop_last()).contains_key(e));
        assert(users_map(s.drop_last()).remove(e) =~= users_map(s.drop_last()));
        assert(users_map(s).remove(e) =~= users_map(s.drop_last()).insert(e, s.last()@).remove(e));
        assert(users_map(s.drop_last()).insert(e, s.last()@).remove(e) =~= users_map(
            s.drop_last(),
        ).remove(e));
    } else {
        let shorter = s.drop_last();
        assert(s.remove(i).drop_last() =~= shorter.remove(i));
        lemma_users_map_remove(shorter, i);
        assert(shorter[i] == s[i]);
        let last = s.last();
        assert(s.remove(i).last() == last);
        assert(last@.email != e);
        assert(users_map(s.remove(i)) =~= users_map(shorter.remove(i)).insert(
            last@.email,
            last@,
        ));
        assert(users_map(shorter).remove(e).insert(last@.email, last@) =~= users_map(
            shorter,
        ).insert(last@.email, last@).remove(e));
    }
}

/// A verified in-process user directory: records in a list with pairwise
/// distinct emails, identifiers handed out from a counter.
pub struct MemoryUserRepository {
    users: Vec<User>,
    next_id: i32,
}

impl MemoryUserRepository {
    #[verifier::type_invariant]
    spec fn inv(&self) -> bool {
        &&& distinct_emails(self.users@)
        &&& distinct_ids(self.users@)
        &&& forall|k: int|
            0 <= k < self.users@.len() ==> (#[trigger] self.users@[k]@.id) < self.next_id
    }

    /// Whether the identifier counter can still hand out a fresh value.
    pub closed spec fn ids_available(&self) -> bool {
        self.next_id < i32::MAX
    }

    /// An empty directory whose first record will get identifier one.
    pub fn new() -> (r: Self)
        ensures
            r.users() == Map::<Seq<char>, UserView>::empty(),
            r.ids_available(),
    {
        let r = MemoryUserRepository { users: Vec::new(), next_id: 1 };
        proof {
            assert(r.users() =~= Map::<Seq<char>, UserView>::empty());
        }
        r
    }

    /// The index of the record carrying the email, if any.
    fn position_of_email(&self, email: &str) -> (r: Option<usize>)
        ensures
            r matches Some(i) ==> i < self.users@.len() && self.users@[i as int]@.email == email@,
            r is None ==> forall|j: int|
                0 <= j < self.users@.len() ==> self.users@[j]@.email != email@,
    {
        let key = String::from_str(email);
        let n = self.users.len();
        let mut i: usize = 0;
        while i < n
            invariant
                i <= n,
                n == self.users@.len(),
                key@ == email@,
                forall|j: int| 0 <= j < i ==> self.users@[j]@.email != email@,
            decreases n - i,
        {
            if self.users[i].email == key {
                return Some(i);
            }
            i = i + 1;
        }
        None
    }
}

impl UserRepositoryTrait for MemoryUserRepository {
    closed spec fn users(&self) -> Map<Seq<char>, UserView> {
        users_map(self.users@)
    }

    fn find_by_email_exists(&self, email: &str) -> (r: Result<bool, AppError>)
        ensures
            r is Ok,
    {
        proof {
            lemma_users_map_contains(self.users@, email@);
        }
        match self.position_of_email(email) {
            Some(_) => Ok(true),
            None => Ok(false),
        }
    }

    fn create_user(&mut self, input: &CreateUserRequest) -> (r: Result<User, AppError>)
        ensures
            !old(self).users().contains_key(input.email@) && old(self).ids_available() ==> r is Ok,
    {
        proof {
            use_type_invariant(&*self);
            lemma_users_map_contains(self.users@, input.email@);
        }
        match self.position_of_email(input.email.as_str()) {
            Some(_) => Err(
                AppError::RepositoryError(String::from_str("unique constraint on email violated")),
            ),
            None => {
                if self.next_id == i32::MAX {
                    return Err(
                        AppError::RepositoryError(String::from_str("identifiers exhausted")),
                    );
                }
                let user = User {
                    id: self.next_id,
                    firstname: input.firstname.clone(),
                    lastname: input.lastname.clone(),
                    email: input.email.clone(),
                    password: input.password.clone(),
                };
                let result = user.clone();
                self.next_id = self.next_id + 1;
                let ghost before = self.users@;
                let mut list: Vec<User> = Vec::new();
                core::mem::swap(&mut list, &mut self.users);
                list.push(user);
                proof {
                    assert(list@.drop_last() =~= before);
                    assert(distinct_emails(list@));
                    assert(distinct_ids(list@)) by {
                        assert(forall|k: int| 0 <= k < before.len() ==> list@[k] == before[k]);
                    }
                    assert forall|e: Seq<char>| users_map(before).contains_key(
                        e,
                    ) implies users_map(before)[e].id != result@.id by {
                        lemma_users_map_contains(before, e);
                        let k = choose|k: int| 0 <= k < before.len() && before[k]@.email == e;
                        lemma_users_map_at(before, k);
                    }
                }
                self.users = list;
                Ok(result)
            },
        }
    }

    fn find_by_email(&self, email: &str) -> (r: Result<Option<User>, AppError>)
        ensures
            r is Ok,
    {
        proof {
            use_type_invariant(&*self);
            lemma_users_map_contains(self.users@, email@);
        }
        match self.position_of_email(email) {
            Some(i) => {
                proof {
                    lemma_users_map_at(self.users@, i as int);
                }
                Ok(Some(self.users[i].clone()))
            },
            None => Ok(None),
        }
    }

    fn find_by_id(&self, id: i32) -> (r: Result<Option<User>, AppError>)
        ensures
            r is Ok,
    {
        proof {
            use_type_invariant(&*self);
        }
        let n = self.users.len();
        let mut i: usize = 0;
        while i < n
            invariant
                i <= n,
                n == self.users@.len(),
                distinct_emails(self.users@),
                forall|j: int| 0 <= j < i ==> self.users@[j]@.id != id as int,
            decreases n - i,
        {
            if self.users[i].id == id {
                proof {
                    lemma_users_map_at(self.users@, i as int);
                }
                return Ok(Some(self.users[i].clone()));
            }
            i = i + 1;
        }
        proof {
            assert forall|e: Seq<char>| self.users().contains_key(e) implies self.users()[e].id
                != id as int by {
                lemma_users_map_contains(self.users@, e);
                let j = choose|j: int| 0 <= j < self.users@.len() && self.users@[j]@.email == e;
                lemma_users_map_at(self.users@, j);
            }
        }
        Ok(None)
    }

    fn update_user(&mut self, input: &UpdateUserRequest) -> (r: Result<User, AppError>)
        ensures
            (input.id matches Some(i) && (exists|prior: Seq<char>|
                {
                    &&& old(self).users().contains_key(prior)
                    &&& old(self).users()[prior].id == i as int
                    &&& (input.email matches Some(e) ==> (e@ == prior || !old(
                        self,
                    ).users().contains_key(e@)))
                })) ==> r is Ok,
    {
        proof {
            use_type_invariant(&*self);
        }
        let id = match input.id {
            Some(i) => i,
            None => {
                return Err(AppError::ValidationError(String::from_str("User ID is required")));
            },
        };
        let n = self.users.len();
        let mut i: usize = 0;
        let mut found: Option<usize> = None;
        while i < n
            invariant
                i <= n,
                n == self.users@.len(),
                found matches Some(k) ==> k < n && self.users@[k as int]@.id == id as int,
                found is None ==> forall|j: int| 0 <= j < i ==> self.users@[j]@.id != id as int,
            decreases n - i,
        {
            if found.is_none() && self.users[i].id == id {
                found = Some(i);
            }
            i = i + 1;
        }
        let j = match found {
            Some(j) => j,
            None => {
                proof {
                    assert forall|p: Seq<char>| users_map(self.users@).contains_key(
                        p,
                    ) implies users_map(self.users@)[p].id != id as int by {
                        lemma_users_map_contains(self.users@, p);
                        let k = choose|k: int|
                            0 <= k < self.users@.len() && self.users@[k]@.email == p;
                        lemma_users_map_at(self.users@, k);
                    }
                }
                return Err(AppError::RepositoryError(String::from_str("no row with this id")));
            },
        };
        let ghost before = self.users@;
        let ghost prior = self.users@[j as int]@.email;
        let stored = &self.users[j];
        let firstname = match &input.firstname {
            Some(f) => f.clone(),
            None => stored.firstname.clone(),
        };
        let lastname = match &input.lastname {
            Some(l) => l.clone(),
            None => stored.lastname.clone(),
        };
        let email = match &input.email {
            Some(e) => e.clone(),
            None => stored.email.clone(),
        };
        let password = stored.password.clone();
        let updated = User { id, firstname, lastname, email, password };
        if updated.email != self.users[j].email {
            match self.position_of_email(updated.email.as_str()) {
                Some(_) => {
                    proof {
                        lemma_users_map_contains(self.users@, updated.email@);
                        assert forall|p: Seq<char>|
                            users_map(self.users@).contains_key(p) && users_map(self.users@)[p].id
                                == id as int implies p == self.users@[j as int]@.email by {
                            lemma_users_map_contains(self.users@, p);
                            let k = choose|k: int|
                                0 <= k < self.users@.len() && self.users@[k]@.email == p;
                            lemma_users_map_at(self.users@, k);
                        }
                    }
                    return Err(
                        AppError::RepositoryError(
                            String::from_str("unique constraint on email violated"),
                        ),
                    );
                },
                None => {},
            }
        }
        proof {
            assert(forall|k: int|
                0 <= k < before.len() && k != j as int ==> before[k]@.email != updated@.email);
            lemma_users_map_at(before, j as int);
            lemma_users_map_remove(before, j as int);
        }
        let result = updated.clone();
        let mut list: Vec<User> = Vec::new();
        core::mem::swap(&mut list, &mut self.users);
        list.remove(j);
        let ghost removed = list@;
        list.push(updated);
        proof {
            assert(removed =~= before.remove(j as int));
            assert(list@.drop_last() =~= removed);
            assert(distinct_emails(list@)) by {
                assert(forall|k: int|
                    0 <= k < removed.len() ==> (removed[k] == if k < j as int {
                        before[k]
                    } else {
                        before[k + 1]
                    }));
            }
            assert(users_map(list@) == users_map(before).remove(prior).insert(
                result@.email,
                result@,
            ));
        }
        self.users = list;
        proof {
            assert(users_map(before).contains_key(prior) && users_map(before)[prior]
                == before[j as int]@);
            assert(exists|p: Seq<char>|
                {
                    &&& old(self).users().contains_key(p)
                    &&& old(self).users()[p].id == result@.id
                    &&& result@.password == old(self).users()[p].password
                    &&& self.users() == old(self).users().remove(p).insert(result@.email, result@)
                }) by {
                assert(old(self).users() == users_map(before));
                assert({
                    &&& old(self).users().contains_key(prior)
                    &&& old(self).users()[prior].id == result@.id
                    &&& result@.password == old(self).users()[prior].password
                    &&& self.users() == old(self).users().remove(prior).insert(
                        result@.email,
                        result@,
                    )
                });
            }
        }
        Ok(result)
    }

    fn delete_user(&mut self, email: &str) -> (r: Result<(), AppError>)
        ensures
            r is Ok,
    {
        proof {
            use_type_invariant(&*self);
            lemma_users_map_contains(self.users@, email@);
        }
        match self.position_of_email(email) {
            Some(i) => {
                let mut list: Vec<User> = Vec::new();
                core::mem::swap(&mut list, &mut self.users);
                let ghost before = list@;
                proof {
                    lemma_users_map_remove(before, i as int);
                }
                list.remove(i);
                proof {
                    assert(distinct_emails(list@)) by {
                        assert(forall|k: int|
                            0 <= k < list@.len() ==> list@[k] == before.remove(i as int)[k]);
                    }
                }
                self.users = list;
                Ok(())
            },
            None => {
                proof {
                    assert(users_map(self.users@).remove(email@) =~= users_map(self.users@));
                }
                Ok(())
            },
        }
    }
}

} // verus!

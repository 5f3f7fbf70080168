//! The in-memory user store: a list of credential records behind an
//! invariant that ids and emails are unique across all live records. Email
//! uniqueness is enforced here, at the storage boundary, so that an insert or
//! replace that would violate it fails atomically.

use vstd::prelude::*;
use crate::db::User;

verus! {

pub open spec fn has_id(s: Seq<User>, id: Seq<char>) -> bool {
    exists|i: int| 0 <= i < s.len() && (#[trigger] s[i].id@) == id
}

pub open spec fn has_email(s: Seq<User>, email: Seq<char>) -> bool {
    exists|i: int| 0 <= i < s.len() && (#[trigger] s[i].email@) == email
}

pub open spec fn idx_of_id(s: Seq<User>, id: Seq<char>) -> int {
    choose|i: int| 0 <= i < s.len() && (#[trigger] s[i].id@) == id
}

pub open spec fn idx_of_email(s: Seq<User>, email: Seq<char>) -> int {
    choose|i: int| 0 <= i < s.len() && (#[trigger] s[i].email@) == email
}

/// The record carrying `id`; meaningful when `has_id(s, id)` holds.
pub open spec fn user_by_id(s: Seq<User>, id: Seq<char>) -> User {
    s[idx_of_id(s, id)]
}

/// The record carrying `email`; meaningful when `has_email(s, email)` holds.
pub open spec fn user_by_email(s: Seq<User>, email: Seq<char>) -> User {
    s[idx_of_email(s, email)]
}

/// Why a store write was refused.
#[derive(Debug, Clone, Copy, PartialEq, Eq, Structural)]
pub enum StoreError {
    /// Another live record already carries this email.
    DuplicateEmail,
    /// Another live record already carries this id.
    DuplicateId,
    /// No live record carries the id addressed by the write.
    MissingRecord,
}

pub struct UserStore {
    users: Vec<User>,
}

impl View for UserStore {
    type V = Seq<User>;

    closed spec fn view(&self) -> Seq<User> {
        self.users@
    }
}

impl UserStore {
    /// Ids unique, emails unique, every record able to take a rehash.
    pub open spec fn wf(&self) -> bool {
        &&& forall|i: int, j: int|
            #![trigger self@[i].id@, self@[j].id@]
            0 <= i < j < self@.len() ==> self@[i].id@ != self@[j].id@
        &&& forall|i: int, j: int|
            #![trigger self@[i].email@, self@[j].email@]
            0 <= i < j < self@.len() ==> self@[i].email@ != self@[j].email@
        &&& forall|i: int| 0 <= i < self@.len() ==> (#[trigger] self@[i]).wf()
    }

    /// In a well-formed store, the record at any index is exactly the one its
    /// email and its id look up.
    pub proof fn lemma_record_at(&self, i: int)
        requires
            self.wf(),
            0 <= i < self@.len(),
        ensures
            has_email(self@, self@[i].email@),
            has_id(self@, self@[i].id@),
            idx_of_email(self@, self@[i].email@) == i,
            idx_of_id(self@, self@[i].id@) == i,
            user_by_email(self@, self@[i].email@) == self@[i],
            user_by_id(self@, self@[i].id@) == self@[i],
    {
        assert(has_email(self@, self@[i].email@)) by {
            assert(self@[i].email@ == self@[i].email@);
        }
        assert(has_id(self@, self@[i].id@)) by {
            assert(self@[i].id@ == self@[i].id@);
        }
        let ke = idx_of_email(self@, self@[i].email@);
        assert(0 <= ke < self@.len() && self@[ke].email@ == self@[i].email@);
        assert(ke == i);
        let ki = idx_of_id(self@, self@[i].id@);
        assert(0 <= ki < self@.len() && self@[ki].id@ == self@[i].id@);
        assert(ki == i);
    }

    pub fn new() -> (s: UserStore)
        ensures
            s@ == Seq::<User>::empty(),
            s.wf(),
    {
        UserStore { users: Vec::new() }
    }

    pub fn count(&self) -> (n: usize)
        ensures
            n == self@.len(),
    {
        self.users.len()
    }

    fn index_of_id(&self, id: &String) -> (r: Option<usize>)
        ensures
            match r {
                Option::Some(i) => i < self@.len() && self@[i as int].id@ == id@,
                Option::None => !has_id(self@, id@),
            },
    {
        let n = self.users.len();
        let mut k: usize = 0;
        while k < n
            invariant
                n == self@.len(),
                k <= n,
                forall|j: int| 0 <= j < k ==> (#[trigger] self@[j].id@) != id@,
            decreases n - k,
        {
            if self.users[k].id.eq(id) {
                return Some(k);
            }
            k += 1;
        }
        None
    }

    fn index_of_email(&self, email: &String) -> (r: Option<usize>)
        ensures
            match r {
                Option::Some(i) => i < self@.len() && self@[i as int].email@ == email@,
                Option::None => !has_email(self@, email@),
            },
    {
        let n = self.users.len();
        let mut k: usize = 0;
        while k < n
            invariant
                n == self@.len(),
                k <= n,
                forall|j: int| 0 <= j < k ==> (#[trigger] self@[j].email@) != email@,
            decreases n - k,
        {
            if self.users[k].email.eq(email) {
                return Some(k);
            }
            k += 1;
        }
        None
    }

    pub fn find_by_id(&self, id: &String) -> (r: Option<&User>)
        requires
            self.wf(),
        ensures
            r is Some <==> has_id(self@, id@),
            r matches Some(u) ==> *u == user_by_id(self@, id@),
    {
        match self.index_of_id(id) {
            Option::Some(i) => {
                proof {
                    let k = idx_of_id(self@, id@);
                    assert(0 <= k < self@.len() && self@[k].id@ == id@);
                    assert(k == i);
                }
                Some(&self.users[i])
            },
            Option::None => None,
        }
    }

    pub fn find_by_email(&self, email: &String) -> (r: Option<&User>)
        requires
            self.wf(),
        ensures
            r is Some <==> has_email(self@, email@),
            r matches Some(u) ==> *u == user_by_email(self@, email@),
    {
        match self.index_of_email(email) {
            Option::Some(i) => {
                proof {
                    let k = idx_of_email(self@, email@);
                    assert(0 <= k < self@.len() && self@[k].email@ == email@);
                    assert(k == i);
                }
                Some(&self.users[i])
            },
            Option::None => None,
        }
    }

    /// Appends a record; refuses a duplicate email (the uniqueness constraint)
    /// and a duplicate id.
    pub fn insert(&mut self, user: User) -> (r: Result<(), StoreError>)
        requires
            old(self).wf(),
            user.wf(),
        ensures
            r == Result::Err::<(), _>(StoreError::DuplicateEmail) <==> has_email(
                old(self)@,
                user.email@,
            ),
            r is Ok <==> !has_email(old(self)@, user.email@) && !has_id(old(self)@, user.id@),
            r is Ok ==> final(self)@ == old(self)@.push(user),
            r is Err ==> final(self)@ == old(self)@,
            final(self).wf(),
    {
        if self.index_of_email(&user.email).is_some() {
            return Err(StoreError::DuplicateEmail);
        }
        if self.index_of_id(&user.id).is_some() {
            return Err(StoreError::DuplicateId);
        }
        proof {
            let s = self@.push(user);
            assert forall|i: int, j: int|
                #![trigger s[i].id@, s[j].id@]
                0 <= i < j < s.len() implies s[i].id@ != s[j].id@ by {
                if j < self@.len() {
                    assert(s[i] == self@[i] && s[j] == self@[j]);
                } else {
                    assert(s[j] == user && s[i] == self@[i]);
                }
            }
            assert forall|i: int, j: int|
                #![trigger s[i].email@, s[j].email@]
                0 <= i < j < s.len() implies s[i].email@ != s[j].email@ by {
                if j < self@.len() {
                    assert(s[i] == self@[i] && s[j] == self@[j]);
                } else {
                    assert(s[j] == user && s[i] == self@[i]);
                }
            }
            assert forall|i: int| 0 <= i < s.len() implies (#[trigger] s[i]).wf() by {
                if i < self@.len() {
                    assert(s[i] == self@[i]);
                } else {
                    assert(s[i] == user);
                }
            }
        }
        self.users.push(user);
        Ok(())
    }

    /// Replaces the record that carries `user.id`; refuses a write whose email
    /// is already carried by a different record, and one whose id is absent.
    pub fn replace(&mut self, user: User) -> (r: Result<(), StoreError>)
        requires
            old(self).wf(),
            user.wf(),
        ensures
            r == Result::Err::<(), _>(StoreError::MissingRecord) <==> !has_id(
                old(self)@,
                user.id@,
            ),
            r == Result::Err::<(), _>(StoreError::DuplicateEmail) <==> has_id(
                old(self)@,
                user.id@,
            ) && has_email(old(self)@, user.email@) && user_by_email(
                old(self)@,
                user.email@,
            ).id@ != user.id@,
            r is Ok <==> has_id(old(self)@, user.id@) && !(has_email(old(self)@, user.email@)
                && user_by_email(old(self)@, user.email@).id@ != user.id@),
            r is Ok ==> final(self)@ == old(self)@.update(idx_of_id(old(self)@, user.id@), user),
            r is Err ==> final(self)@ == old(self)@,
            final(self).wf(),
    {
        let idx = match self.index_of_id(&user.id) {
            Option::Some(i) => i,
            Option::None => {
                return Err(StoreError::MissingRecord);
            },
        };
        match self.index_of_email(&user.email) {
            Option::Some(j) => {
                if j != idx {
                    proof {
                        let k = idx_of_email(self@, user.email@);
                        assert(0 <= k < self@.len() && self@[k].email@ == user.email@);
                        assert(k == j);
                        let ki = idx_of_id(self@, user.id@);
                        assert(0 <= ki < self@.len() && self@[ki].id@ == user.id@);
                        assert(ki == idx);
                    }
                    return Err(StoreError::DuplicateEmail);
                }
            },
            Option::None => {},
        }
        proof {
            let ki = idx_of_id(self@, user.id@);
            assert(0 <= ki < self@.len() && self@[ki].id@ == user.id@);
            assert(ki == idx);
            let s = self@.update(idx as int, user);
            assert forall|i: int, j: int|
                #![trigger s[i].id@, s[j].id@]
                0 <= i < j < s.len() implies s[i].id@ != s[j].id@ by {
                if i != idx && j != idx {
                    assert(s[i] == self@[i] && s[j] == self@[j]);
                } else if i == idx {
                    assert(s[i] == user && s[j] == self@[j]);
                    assert(self@[idx as int].id@ == user.id@);
                } else {
                    assert(s[j] == user && s[i] == self@[i]);
                    assert(self@[idx as int].id@ == user.id@);
                }
            }
            assert forall|i: int, j: int|
                #![trigger s[i].email@, s[j].email@]
                0 <= i < j < s.len() implies s[i].email@ != s[j].email@ by {
                if i != idx && j != idx {
                    assert(s[i] == self@[i] && s[j] == self@[j]);
                } else if i == idx {
                    assert(s[i] == user && s[j] == self@[j]);
                    if self@[j].email@ == user.email@ {
                        assert(has_email(self@, user.email@));
                        let k = idx_of_email(self@, user.email@);
                        assert(0 <= k < self@.len() && self@[k].email@ == user.email@);
                    }
                } else {
                    assert(s[j] == user && s[i] == self@[i]);
                    if self@[i].email@ == user.email@ {
                        assert(has_email(self@, user.email@));
                        let k = idx_of_email(self@, user.email@);
                        assert(0 <= k < self@.len() && self@[k].email@ == user.email@);
                    }
                }
            }
            assert forall|i: int| 0 <= i < s.len() implies (#[trigger] s[i]).wf() by {
                if i != idx {
                    assert(s[i] == self@[i]);
                } else {
                    assert(s[i] == user);
                }
            }
        }
        self.users[idx] = user;
        Ok(())
    }

    /// Removes and returns the record carrying `id`, when there is one.
    pub fn delete_by_id(&mut self, id: &String) -> (r: Option<User>)
        requires
            old(self).wf(),
        ensures
            r is Some <==> has_id(old(self)@, id@),
            r matches Some(u) ==> u == user_by_id(old(self)@, id@) && final(self)@ == old(
                self,
            )@.remove(idx_of_id(old(self)@, id@)),
            r is None ==> final(self)@ == old(self)@,
            final(self).wf(),
    {
        match self.index_of_id(id) {
            Option::None => None,
            Option::Some(i) => {
                proof {
                    let k = idx_of_id(self@, id@);
                    assert(0 <= k < self@.len() && self@[k].id@ == id@);
                    assert(k == i);
                    let s = self@.remove(i as int);
                    assert forall|a: int, b: int|
                        #![trigger s[a].id@, s[b].id@]
                        0 <= a < b < s.len() implies s[a].id@ != s[b].id@ by {
                        let a0 = if a < i { a } else { a + 1 };
                        let b0 = if b < i { b } else { b + 1 };
                        assert(s[a] == self@[a0] && s[b] == self@[b0]);
                    }
                    assert forall|a: int, b: int|
                        #![trigger s[a].email@, s[b].email@]
                        0 <= a < b < s.len() implies s[a].email@ != s[b].email@ by {
                        let a0 = if a < i { a } else { a + 1 };
                        let b0 = if b < i { b } else { b + 1 };
                        assert(s[a] == self@[a0] && s[b] == self@[b0]);
                    }
                    assert forall|a: int| 0 <= a < s.len() implies (#[trigger] s[a]).wf() by {
                        let a0 = if a < i { a } else { a + 1 };
                        assert(s[a] == self@[a0]);
                    }
                }
                Some(self.users.remove(i))
            },
        }
    }
}

} // verus!

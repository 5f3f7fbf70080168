//! The credential record and its projections: the stored user entity, the
//! request body for registration, the display-safe projections returned to
//! clients, and the password-change request body.

use vstd::prelude::*;
use crate::hashing::{
    generate_salt, hash_of, hash_password, is_alphanumeric_seq, valid_password, valid_salt,
    verifies, verify_password,
};
use crate::routing::is_id_shaped;

verus! {

/// A stored credential record. The encoded password hash is self-describing;
/// the salt is fixed at creation and never rotated; the timestamps are whole
/// seconds since the Unix epoch, and `updated` moves on every mutation.
#[derive(Debug)]
pub struct User {
    pub id: String,
    pub name: String,
    pub email: String,
    pub hashed_password: String,
    pub salt: String,
    pub created: i64,
    pub updated: i64,
}

/// The registration request body.
#[derive(Debug)]
pub struct InsertableUser {
    pub name: String,
    pub email: String,
    pub password: String,
}

/// The full display-safe projection: id, name and email. Never the hash.
#[derive(Debug)]
pub struct ResponseUser {
    pub id: String,
    pub name: String,
    pub email: String,
}

/// The restricted projection for lookups by id: the email is withheld.
#[derive(Debug)]
pub struct PublicUser {
    pub id: String,
    pub name: String,
}

/// The password-change request body: the current password, and the new one
/// when provided.
#[derive(Debug)]
pub struct UserPassword {
    pub password: String,
    pub new_password: Option<String>,
}

/// Relies on uuid::Uuid::new_v4 and its Display form: a fresh random
/// version-4 UUID rendered as 36 characters of lowercase hex in five
/// dash-separated groups.
#[verifier::external_body]
pub(crate) fn fresh_id() -> (r: String)
    ensures
        is_id_shaped(r@),
{
    uuid::Uuid::new_v4().to_string()
}

impl Clone for User {
    fn clone(&self) -> (res: User)
        ensures
            res == *self,
    {
        User {
            id: self.id.clone(),
            name: self.name.clone(),
            email: self.email.clone(),
            hashed_password: self.hashed_password.clone(),
            salt: self.salt.clone(),
            created: self.created,
            updated: self.updated,
        }
    }
}

impl User {
    /// A record that can still have passwords hashed against its salt.
    pub open spec fn wf(&self) -> bool {
        valid_salt(self.salt@)
    }

    /// Creates a record with a fresh 20-character alphanumeric salt, the
    /// password hashed against it, a fresh id, and both timestamps at `now`.
    pub fn new(name: String, email: String, password: String, now: i64) -> (u: User)
        requires
            valid_password(password@),
        ensures
            u.name == name,
            u.email == email,
            u.salt@.len() == 20,
            is_alphanumeric_seq(u.salt@),
            u.wf(),
            u.hashed_password@ == hash_of(password@, u.salt@),
            verifies(u.hashed_password@, password@),
            is_id_shaped(u.id@),
            u.created == now,
            u.updated == now,
    {
        let salt = generate_salt();
        let hashed_password = hash_password(password.as_str(), salt.as_str());
        User {
            id: fresh_id(),
            name,
            email,
            hashed_password,
            salt,
            created: now,
            updated: now,
        }
    }

    pub fn from_insertable(insertable: InsertableUser, now: i64) -> (u: User)
        requires
            valid_password(insertable.password@),
        ensures
            u.name == insertable.name,
            u.email == insertable.email,
            u.salt@.len() == 20,
            is_alphanumeric_seq(u.salt@),
            u.wf(),
            u.hashed_password@ == hash_of(insertable.password@, u.salt@),
            verifies(u.hashed_password@, insertable.password@),
            is_id_shaped(u.id@),
            u.created == now,
            u.updated == now,
    {
        User::new(insertable.name, insertable.email, insertable.password, now)
    }

    /// Whether the password verifies against this record's stored hash.
    pub fn match_password(&self, password: &String) -> (r: bool)
        ensures
            r == verifies(self.hashed_password@, password@),
    {
        verify_password(self.hashed_password.as_str(), password.as_str())
    }

    /// Rehashes with the record's existing salt and advances `updated`;
    /// returns a copy of the updated record.
    pub fn update_password(&mut self, password: &String, now: i64) -> (r: User)
        requires
            valid_password(password@),
            old(self).wf(),
        ensures
            final(self).hashed_password@ == hash_of(password@, old(self).salt@),
            verifies(final(self).hashed_password@, password@),
            final(self).updated == now,
            final(self).id == old(self).id,
            final(self).name == old(self).name,
            final(self).email == old(self).email,
            final(self).salt == old(self).salt,
            final(self).created == old(self).created,
            final(self).wf(),
            r == *final(self),
    {
        self.hashed_password = hash_password(password.as_str(), self.salt.as_str());
        self.updated = now;
        self.clone()
    }

    /// Replaces name and email and advances `updated`; returns a copy of the
    /// updated record.
    pub fn update_user(&mut self, name: &String, email: &String, now: i64) -> (r: User)
        ensures
            final(self).name@ == name@,
            final(self).email@ == email@,
            final(self).updated == now,
            final(self).id == old(self).id,
            final(self).hashed_password == old(self).hashed_password,
            final(self).salt == old(self).salt,
            final(self).created == old(self).created,
            final(self).wf() == old(self).wf(),
            r == *final(self),
    {
        self.name = name.clone();
        self.email = email.clone();
        self.updated = now;
        self.clone()
    }
}

impl ResponseUser {
    pub fn from_user(user: &User) -> (r: ResponseUser)
        ensures
            r.id == user.id,
            r.name == user.name,
            r.email == user.email,
    {
        ResponseUser { id: user.id.clone(), name: user.name.clone(), email: user.email.clone() }
    }
}

impl PublicUser {
    pub fn from_user(user: &User) -> (r: PublicUser)
        ensures
            r.id == user.id,
            r.name == user.name,
    {
        PublicUser { id: user.id.clone(), name: user.name.clone() }
    }
}

} // verus!

//! The account operations: registration, login, lookup by id or email,
//! profile update, password change and deletion, orchestrating the password
//! hasher, the token codec and the user store. Every operation maps storage
//! or codec failures it cannot interpret to an internal error, and returns
//! the domain failures (`NotFound`, `EmailInUse`, bad password) distinctly.

use vstd::prelude::*;
use vstd::string::StringExecFns;
use crate::clock;
use crate::db::{InsertableUser, PublicUser, ResponseUser, User, UserPassword};
use crate::hashing::{hash_of, is_alphanumeric_seq, valid_password, verifies};
use crate::routing::is_id_shaped;
use crate::store::{
    has_email, has_id, idx_of_email, idx_of_id, user_by_email, user_by_id, StoreError, UserStore,
};
use crate::token::{token_of, TokenCodec, SESSION_LIFETIME_SECS};

verus! {

/// The login request body.
#[derive(Debug)]
pub struct LoginUser {
    pub email: String,
    pub password: String,
}

/// A successful login: the authenticated record's id and the signed session
/// token the caller places in the `t` cookie.
#[derive(Debug)]
pub struct Session {
    pub id: String,
    pub token: String,
}

/// The service-level failure taxonomy.
#[derive(Debug, PartialEq, Eq)]
pub enum ServiceError {
    /// No record carries the id; holds the id looked up.
    NotFoundById(String),
    /// No record carries the email; holds the email looked up.
    NotFoundByEmail(String),
    /// Login with a password that does not verify.
    InvalidPassword,
    /// A profile mutation whose current password does not verify.
    Unauthorized,
    /// The email is already carried by another live record.
    EmailInUse,
    /// A password change without a new password.
    PasswordNotProvided,
    /// Storage, hashing or encoding failure with no domain reading.
    Internal,
}

impl ServiceError {
    /// The user-facing message for each failure.
    pub open spec fn spec_message(&self) -> Seq<char> {
        match *self {
            ServiceError::NotFoundById(ref id) => "id "@ + id@ + " not found"@,
            ServiceError::NotFoundByEmail(ref email) => "user "@ + email@ + " not found"@,
            ServiceError::InvalidPassword => "Invalid password"@,
            ServiceError::Unauthorized => "user not authenticated"@,
            ServiceError::EmailInUse => "email already in use"@,
            ServiceError::PasswordNotProvided => "Password not provided"@,
            ServiceError::Internal => "Internal server error"@,
        }
    }

    pub fn message(&self) -> (r: String)
        ensures
            r@ == self.spec_message(),
    {
        match self {
            ServiceError::NotFoundById(id) => {
                let mut m = "id ".to_owned();
                m.append(id.as_str());
                m.append(" not found");
                m
            },
            ServiceError::NotFoundByEmail(email) => {
                let mut m = "user ".to_owned();
                m.append(email.as_str());
                m.append(" not found");
                m
            },
            ServiceError::InvalidPassword => "Invalid password".to_owned(),
            ServiceError::Unauthorized => "user not authenticated".to_owned(),
            ServiceError::EmailInUse => "email already in use".to_owned(),
            ServiceError::PasswordNotProvided => "Password not provided".to_owned(),
            ServiceError::Internal => "Internal server error".to_owned(),
        }
    }
}

/// Creates a record from the registration body and inserts it, with both
/// timestamps at `now`. Fails with `EmailInUse` exactly when the email is
/// already live; any other storage refusal is `Internal`.
pub fn register_at(store: &mut UserStore, user: InsertableUser, now: i64) -> (r: Result<
    ResponseUser,
    ServiceError,
>)
    requires
        old(store).wf(),
        valid_password(user.password@),
    ensures
        final(store).wf(),
        r == Result::Err::<ResponseUser, _>(ServiceError::EmailInUse) <==> has_email(
            old(store)@,
            user.email@,
        ),
        r is Err ==> final(store)@ == old(store)@,
        r matches Err(e) ==> e == ServiceError::EmailInUse || e == ServiceError::Internal,
        r == Result::Err::<ResponseUser, _>(ServiceError::Internal) ==> old(store)@.len() > 0,
        r matches Ok(resp) ==> ({
            let added = final(store)@.last();
            &&& !has_email(old(store)@, user.email@)
            &&& final(store)@ == old(store)@.push(added)
            &&& added.name == user.name
            &&& added.email == user.email
            &&& added.salt@.len() == 20
            &&& is_alphanumeric_seq(added.salt@)
            &&& added.hashed_password@ == hash_of(user.password@, added.salt@)
            &&& verifies(added.hashed_password@, user.password@)
            &&& added.created == now
            &&& added.updated == now
            &&& resp.id == added.id
            &&& resp.name == user.name
            &&& resp.email == user.email
            &&& is_id_shaped(resp.id@)
        }),
{
    let record = User::from_insertable(user, now);
    let resp = ResponseUser::from_user(&record);
    match store.insert(record) {
        Ok(()) => Ok(resp),
        Err(StoreError::DuplicateEmail) => Err(ServiceError::EmailInUse),
        Err(_) => Err(ServiceError::Internal),
    }
}

/// Registration against the current clock reading.
pub fn register(store: &mut UserStore, user: InsertableUser) -> (r: Result<
    ResponseUser,
    ServiceError,
>)
    requires
        old(store).wf(),
        valid_password(user.password@),
    ensures
        final(store).wf(),
        r == Result::Err::<ResponseUser, _>(ServiceError::EmailInUse) <==> has_email(
            old(store)@,
            user.email@,
        ),
        r is Err ==> final(store)@ == old(store)@,
        r matches Err(e) ==> e == ServiceError::EmailInUse || e == ServiceError::Internal,
        r == Result::Err::<ResponseUser, _>(ServiceError::Internal) ==> old(store)@.len() > 0,
        r matches Ok(resp) ==> ({
            let added = final(store)@.last();
            &&& !has_email(old(store)@, user.email@)
            &&& final(store)@ == old(store)@.push(added)
            &&& added.name == user.name
            &&& added.email == user.email
            &&& added.salt@.len() == 20
            &&& is_alphanumeric_seq(added.salt@)
            &&& added.hashed_password@ == hash_of(user.password@, added.salt@)
            &&& verifies(added.hashed_password@, user.password@)
            &&& added.created == added.updated
            &&& resp.id == added.id
            &&& resp.name == user.name
            &&& resp.email == user.email
            &&& is_id_shaped(resp.id@)
        }),
{
    register_at(store, user, clock::now_seconds())
}

/// Looks up by email and verifies the password; on success signs a token
/// whose expiry is 24 hours past `now`.
pub fn login_at(store: &UserStore, codec: &TokenCodec, login: &LoginUser, now: i64) -> (r: Result<
    Session,
    ServiceError,
>)
    requires
        store.wf(),
        now <= i64::MAX - SESSION_LIFETIME_SECS,
    ensures
        r == Result::Err::<Session, _>(ServiceError::NotFoundByEmail(login.email)) <==> !has_email(
            store@,
            login.email@,
        ),
        r == Result::Err::<Session, _>(ServiceError::InvalidPassword) <==> has_email(
            store@,
            login.email@,
        ) && !verifies(user_by_email(store@, login.email@).hashed_password@, login.password@),
        r is Ok <==> has_email(store@, login.email@) && verifies(
            user_by_email(store@, login.email@).hashed_password@,
            login.password@,
        ),
        r matches Err(e) ==> e == ServiceError::NotFoundByEmail(login.email) || e
            == ServiceError::InvalidPassword,
        r matches Ok(s) ==> ({
            &&& s.id == user_by_email(store@, login.email@).id
            &&& s.token@ == token_of(codec.spec_secret(), s.id@, now + SESSION_LIFETIME_SECS)
        }),
{
    match store.find_by_email(&login.email) {
        Option::None => Err(ServiceError::NotFoundByEmail(login.email.clone())),
        Option::Some(user) => {
            if user.match_password(&login.password) {
                let id = user.id.clone();
                let token = codec.sign_token_at(id.as_str(), now);
                Ok(Session { id, token })
            } else {
                Err(ServiceError::InvalidPassword)
            }
        },
    }
}

/// Login against the current clock reading.
pub fn login(store: &UserStore, codec: &TokenCodec, credentials: &LoginUser) -> (r: Result<
    Session,
    ServiceError,
>)
    requires
        store.wf(),
    ensures
        r == Result::Err::<Session, _>(ServiceError::NotFoundByEmail(credentials.email))
            ==> !has_email(store@, credentials.email@),
        r == Result::Err::<Session, _>(ServiceError::InvalidPassword) ==> has_email(
            store@,
            credentials.email@,
        ) && !verifies(
            user_by_email(store@, credentials.email@).hashed_password@,
            credentials.password@,
        ),
        r matches Err(e) ==> e == ServiceError::NotFoundByEmail(credentials.email) || e
            == ServiceError::InvalidPassword || e == ServiceError::Internal,
        r matches Ok(s) ==> ({
            &&& has_email(store@, credentials.email@)
            &&& verifies(
                user_by_email(store@, credentials.email@).hashed_password@,
                credentials.password@,
            )
            &&& s.id == user_by_email(store@, credentials.email@).id
        }),
{
    let now = clock::now_seconds();
    if now <= i64::MAX - SESSION_LIFETIME_SECS {
        login_at(store, codec, credentials, now)
    } else {
        Err(ServiceError::Internal)
    }
}

/// Lookup by id: the restricted projection, with the email withheld.
pub fn get_by_id(store: &UserStore, id: &String) -> (r: Result<PublicUser, ServiceError>)
    requires
        store.wf(),
    ensures
        r is Ok <==> has_id(store@, id@),
        !has_id(store@, id@) ==> r == Result::Err::<PublicUser, _>(ServiceError::NotFoundById(*id)),
        r matches Ok(p) ==> p.id == user_by_id(store@, id@).id && p.name == user_by_id(
            store@,
            id@,
        ).name,
{
    match store.find_by_id(id) {
        Option::Some(user) => Ok(PublicUser::from_user(user)),
        Option::None => Err(ServiceError::NotFoundById(id.clone())),
    }
}

/// Lookup by email: the full projection, email included.
pub fn get_by_email(store: &UserStore, email: &String) -> (r: Result<ResponseUser, ServiceError>)
    requires
        store.wf(),
    ensures
        r is Ok <==> has_email(store@, email@),
        !has_email(store@, email@) ==> r == Result::Err::<ResponseUser, _>(
            ServiceError::NotFoundByEmail(*email),
        ),
        r matches Ok(p) ==> ({
            let u = user_by_email(store@, email@);
            p.id == u.id && p.name == u.name && p.email == u.email
        }),
{
    match store.find_by_email(email) {
        Option::Some(user) => Ok(ResponseUser::from_user(user)),
        Option::None => Err(ServiceError::NotFoundByEmail(email.clone())),
    }
}

/// The record count, the payload of the protected list route.
pub fn user_count(store: &UserStore) -> (n: usize)
    ensures
        n == store@.len(),
{
    store.count()
}

/// Updates name and email after verifying the current password. The email
/// collision with a different record is checked explicitly before the write,
/// so that the caller sees `EmailInUse` rather than a bare storage failure;
/// keeping one's own email is allowed.
pub fn update_profile_at(
    store: &mut UserStore,
    id: &String,
    user: &InsertableUser,
    now: i64,
) -> (r: Result<ResponseUser, ServiceError>)
    requires
        old(store).wf(),
    ensures
        final(store).wf(),
        r == Result::Err::<ResponseUser, _>(ServiceError::NotFoundById(*id)) <==> !has_id(
            old(store)@,
            id@,
        ),
        r == Result::Err::<ResponseUser, _>(ServiceError::Unauthorized) <==> has_id(
            old(store)@,
            id@,
        ) && !verifies(user_by_id(old(store)@, id@).hashed_password@, user.password@),
        r == Result::Err::<ResponseUser, _>(ServiceError::EmailInUse) <==> has_id(old(store)@, id@)
            && verifies(user_by_id(old(store)@, id@).hashed_password@, user.password@)
            && has_email(old(store)@, user.email@) && user_by_email(old(store)@, user.email@).id@
            != id@,
        r is Ok <==> has_id(old(store)@, id@) && verifies(
            user_by_id(old(store)@, id@).hashed_password@,
            user.password@,
        ) && !(has_email(old(store)@, user.email@) && user_by_email(old(store)@, user.email@).id@
            != id@),
        r is Err ==> final(store)@ == old(store)@,
        r matches Ok(resp) ==> ({
            let k = idx_of_id(old(store)@, id@);
            let u0 = old(store)@[k];
            let u1 = final(store)@[k];
            &&& has_id(old(store)@, id@)
            &&& verifies(u0.hashed_password@, user.password@)
            &&& final(store)@ == old(store)@.update(k, u1)
            &&& u1.name@ == user.name@
            &&& u1.email@ == user.email@
            &&& u1.id == u0.id
            &&& u1.hashed_password == u0.hashed_password
            &&& u1.salt == u0.salt
            &&& u1.created == u0.created
            &&& u1.updated == now
            &&& resp.id == u0.id
            &&& resp.name@ == user.name@
            &&& resp.email@ == user.email@
        }),
{
    let found = match store.find_by_id(id) {
        Option::Some(u) => u.clone(),
        Option::None => {
            return Err(ServiceError::NotFoundById(id.clone()));
        },
    };
    if !found.match_password(&user.password) {
        return Err(ServiceError::Unauthorized);
    }
    match store.find_by_email(&user.email) {
        Option::Some(other) => {
            if !other.id.eq(&found.id) {
                return Err(ServiceError::EmailInUse);
            }
        },
        Option::None => {},
    }
    proof {
        assert(store@[idx_of_id(store@, id@)].wf());
    }
    let mut record = found;
    let updated = record.update_user(&user.name, &user.email, now);
    match store.replace(record) {
        Ok(()) => Ok(ResponseUser::from_user(&updated)),
        Err(_) => {
            proof {
                assert(false);
            }
            Err(ServiceError::Internal)
        },
    }
}

/// Profile update against the current clock reading.
pub fn update_profile(store: &mut UserStore, id: &String, user: &InsertableUser) -> (r: Result<
    ResponseUser,
    ServiceError,
>)
    requires
        old(store).wf(),
    ensures
        final(store).wf(),
        r == Result::Err::<ResponseUser, _>(ServiceError::NotFoundById(*id)) <==> !has_id(
            old(store)@,
            id@,
        ),
        r == Result::Err::<ResponseUser, _>(ServiceError::Unauthorized) <==> has_id(
            old(store)@,
            id@,
        ) && !verifies(user_by_id(old(store)@, id@).hashed_password@, user.password@),
        r == Result::Err::<ResponseUser, _>(ServiceError::EmailInUse) <==> has_id(old(store)@, id@)
            && verifies(user_by_id(old(store)@, id@).hashed_password@, user.password@)
            && has_email(old(store)@, user.email@) && user_by_email(old(store)@, user.email@).id@
            != id@,
        r is Ok <==> has_id(old(store)@, id@) && verifies(
            user_by_id(old(store)@, id@).hashed_password@,
            user.password@,
        ) && !(has_email(old(store)@, user.email@) && user_by_email(old(store)@, user.email@).id@
            != id@),
        r is Err ==> final(store)@ == old(store)@,
        r matches Ok(resp) ==> ({
            let k = idx_of_id(old(store)@, id@);
            let u0 = old(store)@[k];
            let u1 = final(store)@[k];
            &&& final(store)@ == old(store)@.update(k, u1)
            &&& u1.name@ == user.name@
            &&& u1.email@ == user.email@
            &&& u1.id == u0.id
            &&& u1.hashed_password == u0.hashed_password
            &&& u1.salt == u0.salt
            &&& u1.created == u0.created
            &&& resp.id == u0.id
            &&& resp.name@ == user.name@
            &&& resp.email@ == user.email@
        }),
{
    update_profile_at(store, id, user, clock::now_seconds())
}

/// Verifies the current password and rehashes the new one with the record's
/// existing salt; the salt is never rotated. Returns a plain acknowledgment.
pub fn change_password_at(
    store: &mut UserStore,
    id: &String,
    user: &UserPassword,
    now: i64,
) -> (r: Result<(), ServiceError>)
    requires
        old(store).wf(),
        user.new_password matches Some(p) ==> valid_password(p@),
    ensures
        final(store).wf(),
        r == Result::Err::<(), _>(ServiceError::PasswordNotProvided) <==> user.new_password
            is None,
        r == Result::Err::<(), _>(ServiceError::NotFoundById(*id)) <==> user.new_password is Some
            && !has_id(old(store)@, id@),
        r == Result::Err::<(), _>(ServiceError::Unauthorized) <==> user.new_password is Some
            && has_id(old(store)@, id@) && !verifies(
            user_by_id(old(store)@, id@).hashed_password@,
            user.password@,
        ),
        r is Ok <==> user.new_password is Some && has_id(old(store)@, id@) && verifies(
            user_by_id(old(store)@, id@).hashed_password@,
            user.password@,
        ),
        r is Err ==> final(store)@ == old(store)@,
        r is Ok ==> ({
            let k = idx_of_id(old(store)@, id@);
            let u0 = old(store)@[k];
            let u1 = final(store)@[k];
            &&& final(store)@ == old(store)@.update(k, u1)
            &&& u1.hashed_password@ == hash_of(user.new_password->0@, u0.salt@)
            &&& verifies(u1.hashed_password@, user.new_password->0@)
            &&& u1.id == u0.id
            &&& u1.name == u0.name
            &&& u1.email == u0.email
            &&& u1.salt == u0.salt
            &&& u1.created == u0.created
            &&& u1.updated == now
        }),
{
    let new_password = match &user.new_password {
        Option::Some(p) => p,
        Option::None => {
            return Err(ServiceError::PasswordNotProvided);
        },
    };
    let mut found = match store.find_by_id(id) {
        Option::Some(u) => u.clone(),
        Option::None => {
            return Err(ServiceError::NotFoundById(id.clone()));
        },
    };
    if !found.match_password(&user.password) {
        return Err(ServiceError::Unauthorized);
    }
    proof {
        let k = idx_of_id(store@, id@);
        assert(store@[k].wf());
        let ke = idx_of_email(store@, found.email@);
        assert(0 <= ke < store@.len() && store@[ke].email@ == found.email@);
        assert(ke == k);
    }
    let _updated = found.update_password(new_password, now);
    match store.replace(found) {
        Ok(()) => Ok(()),
        Err(_) => {
            proof {
                assert(false);
            }
            Err(ServiceError::Internal)
        },
    }
}

/// Password change against the current clock reading.
pub fn change_password(store: &mut UserStore, id: &String, user: &UserPassword) -> (r: Result<
    (),
    ServiceError,
>)
    requires
        old(store).wf(),
        user.new_password matches Some(p) ==> valid_password(p@),
    ensures
        final(store).wf(),
        r == Result::Err::<(), _>(ServiceError::PasswordNotProvided) <==> user.new_password
            is None,
        r == Result::Err::<(), _>(ServiceError::NotFoundById(*id)) <==> user.new_password is Some
            && !has_id(old(store)@, id@),
        r == Result::Err::<(), _>(ServiceError::Unauthorized) <==> user.new_password is Some
            && has_id(old(store)@, id@) && !verifies(
            user_by_id(old(store)@, id@).hashed_password@,
            user.password@,
        ),
        r is Ok <==> user.new_password is Some && has_id(old(store)@, id@) && verifies(
            user_by_id(old(store)@, id@).hashed_password@,
            user.password@,
        ),
        r is Err ==> final(store)@ == old(store)@,
        r is Ok ==> ({
            let k = idx_of_id(old(store)@, id@);
            let u0 = old(store)@[k];
            let u1 = final(store)@[k];
            &&& final(store)@ == old(store)@.update(k, u1)
            &&& u1.hashed_password@ == hash_of(user.new_password->0@, u0.salt@)
            &&& verifies(u1.hashed_password@, user.new_password->0@)
            &&& u1.id == u0.id
            &&& u1.name == u0.name
            &&& u1.email == u0.email
            &&& u1.salt == u0.salt
            &&& u1.created == u0.created
        }),
{
    change_password_at(store, id, user, clock::now_seconds())
}

/// Verifies the current password, removes the record, and returns the deleted
/// record's projection.
pub fn delete(store: &mut UserStore, id: &String, user: &UserPassword) -> (r: Result<
    ResponseUser,
    ServiceError,
>)
    requires
        old(store).wf(),
    ensures
        final(store).wf(),
        r == Result::Err::<ResponseUser, _>(ServiceError::NotFoundById(*id)) <==> !has_id(
            old(store)@,
            id@,
        ),
        r == Result::Err::<ResponseUser, _>(ServiceError::Unauthorized) <==> has_id(
            old(store)@,
            id@,
        ) && !verifies(user_by_id(old(store)@, id@).hashed_password@, user.password@),
        r is Ok <==> has_id(old(store)@, id@) && verifies(
            user_by_id(old(store)@, id@).hashed_password@,
            user.password@,
        ),
        r is Err ==> final(store)@ == old(store)@,
        r matches Ok(resp) ==> ({
            let u0 = user_by_id(old(store)@, id@);
            &&& final(store)@ == old(store)@.remove(idx_of_id(old(store)@, id@))
            &&& !has_id(final(store)@, id@)
            &&& resp.id == u0.id
            &&& resp.name == u0.name
            &&& resp.email == u0.email
        }),
{
    let found = match store.find_by_id(id) {
        Option::Some(u) => u.clone(),
        Option::None => {
            return Err(ServiceError::NotFoundById(id.clone()));
        },
    };
    if !found.match_password(&user.password) {
        return Err(ServiceError::Unauthorized);
    }
    let ghost s0 = store@;
    match store.delete_by_id(id) {
        Option::Some(deleted) => {
            proof {
                let k = idx_of_id(s0, id@);
                let s2 = s0.remove(k);
                assert forall|i: int| 0 <= i < s2.len() implies (#[trigger] s2[i].id@) != id@ by {
                    let i0 = if i < k {
                        i
                    } else {
                        i + 1
                    };
                    assert(s2[i] == s0[i0]);
                    assert(s0[k].id@ == id@);
                }
            }
            Ok(ResponseUser::from_user(&deleted))
        },
        Option::None => {
            proof {
                assert(false);
            }
            Err(ServiceError::Internal)
        },
    }
}

/// The two shapes a `/users/<segment>` lookup can answer with.
#[derive(Debug)]
pub enum LookupResponse {
    ById(Result<PublicUser, ServiceError>),
    ByEmail(Result<ResponseUser, ServiceError>),
}

/// The single lookup handler: classifies the path segment explicitly and
/// dispatches, id-shaped segments to the by-id lookup and everything else to
/// the by-email lookup.
pub fn lookup_segment(store: &UserStore, segment: &String) -> (r: LookupResponse)
    requires
        store.wf(),
    ensures
        is_id_shaped(segment@) ==> (r matches LookupResponse::ById(res) && (res is Ok <==> has_id(
            store@,
            segment@,
        )) && (!has_id(store@, segment@) ==> res == Result::Err::<PublicUser, _>(
            ServiceError::NotFoundById(*segment),
        ))),
        !is_id_shaped(segment@) ==> (r matches LookupResponse::ByEmail(res) && (res is Ok
            <==> has_email(store@, segment@)) && (!has_email(store@, segment@) ==> res
            == Result::Err::<ResponseUser, _>(ServiceError::NotFoundByEmail(*segment)))),
{
    if crate::routing::is_id_segment(segment.as_str()) {
        LookupResponse::ById(get_by_id(store, segment))
    } else {
        LookupResponse::ByEmail(get_by_email(store, segment))
    }
}

/// How many live records carry `email`.
pub open spec fn email_count(s: Seq<User>, email: Seq<char>) -> nat
    decreases s.len(),
{
    if s.len() == 0 {
        0
    } else {
        (if s.last().email@ == email {
            1nat
        } else {
            0nat
        }) + email_count(s.drop_last(), email)
    }
}

pub proof fn lemma_no_email_count_zero(s: Seq<User>, email: Seq<char>)
    requires
        !has_email(s, email),
    ensures
        email_count(s, email) == 0,
    decreases s.len(),
{
    if s.len() > 0 {
        assert(s[s.len() - 1].email@ != email);
        assert(!has_email(s.drop_last(), email)) by {
            assert forall|i: int|
                0 <= i < s.drop_last().len() implies (#[trigger] s.drop_last()[i].email@)
                != email by {
                assert(s.drop_last()[i] == s[i]);
            }
        }
        lemma_no_email_count_zero(s.drop_last(), email);
    }
}

/// Registering under a fresh email and then registering again under the same
/// email: the second call fails with `EmailInUse`, and the store retains
/// exactly one record carrying that email.
pub fn register_twice_same_email(
    store: &mut UserStore,
    first: InsertableUser,
    second: InsertableUser,
) -> (r: (Result<ResponseUser, ServiceError>, Result<ResponseUser, ServiceError>))
    requires
        old(store).wf(),
        valid_password(first.password@),
        valid_password(second.password@),
        first.email@ == second.email@,
        !has_email(old(store)@, first.email@),
    ensures
        final(store).wf(),
        old(store)@.len() == 0 ==> r.0 is Ok,
        r.0 is Ok ==> r.1 == Result::Err::<ResponseUser, _>(ServiceError::EmailInUse),
        r.0 is Ok ==> email_count(final(store)@, first.email@) == 1,
{
    let ghost s0 = store@;
    let a = register(store, first);
    let ghost s1 = store@;
    let b = register(store, second);
    proof {
        if a is Ok {
            assert(s1 == s0.push(s1.last()));
            assert(s1.last().email@ == first.email@);
            assert(has_email(s1, second.email@)) by {
                assert(s1[s1.len() - 1].email@ == second.email@);
            }
            assert(store@ == s1);
            assert(s1.drop_last() =~= s0);
            lemma_no_email_count_zero(s0, first.email@);
            assert(email_count(s1, first.email@) == 1);
        }
    }
    (a, b)
}

/// The password-change scenario's law: exactly when the record exists, the
/// current password verifies and a new password is supplied, the change
/// succeeds and a subsequent login with the new password succeeds,
/// authenticating the same record. Under any other input nothing is changed
/// and nothing is returned.
pub fn change_password_then_login(
    store: &mut UserStore,
    codec: &TokenCodec,
    id: &String,
    body: &UserPassword,
    now: i64,
    later: i64,
) -> (r: Option<(Result<(), ServiceError>, Result<Session, ServiceError>)>)
    requires
        old(store).wf(),
        body.new_password matches Some(p) ==> valid_password(p@),
        later <= i64::MAX - SESSION_LIFETIME_SECS,
    ensures
        r is Some <==> body.new_password is Some && has_id(old(store)@, id@) && verifies(
            user_by_id(old(store)@, id@).hashed_password@,
            body.password@,
        ),
        r matches Some(p) ==> p.0 is Ok && p.1 is Ok && (p.1 matches Ok(s) ==> s.id == user_by_id(
            old(store)@,
            id@,
        ).id),
        r is None ==> final(store)@ == old(store)@,
{
    let new_password = match &body.new_password {
        Option::Some(p) => p.clone(),
        Option::None => {
            return None;
        },
    };
    let current_verifies = match store.find_by_id(id) {
        Option::Some(u) => u.match_password(&body.password),
        Option::None => {
            return None;
        },
    };
    if !current_verifies {
        return None;
    }
    let changed = change_password_at(store, id, body, now);
    proof {
        let k = idx_of_id(old(store)@, id@);
        assert(0 <= k < old(store)@.len());
        assert(store@[k].id@ == id@);
        assert(has_id(store@, id@));
        store.lemma_record_at(k);
    }
    let record = match store.find_by_id(id) {
        Option::Some(u) => u.clone(),
        Option::None => unreached(),
    };
    let attempt = login_at(
        store,
        codec,
        &LoginUser { email: record.email.clone(), password: new_password },
        later,
    );
    Some((changed, attempt))
}

} // verus!

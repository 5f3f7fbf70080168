//! Core of a small user-account service: salted password hashing, signed
//! session tokens with an expiry, a request-level authorization guard, and the
//! account operations (register, login, lookup, update, password change,
//! deletion) over an in-memory user store.

mod clock;
pub mod db;
pub mod guard;
pub mod responses;
pub mod routing;
pub mod service;
pub mod store;
pub mod hashing;
pub mod token;

use vstd::prelude::*;

verus! {

/// Echoes its argument back unchanged.
pub fn echo_fn(echo: String) -> (r: String)
    ensures
        r@ == echo@,
{
    echo
}

} // verus!

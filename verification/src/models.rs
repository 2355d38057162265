//! The records that the shop keeps in its database.
use vstd::prelude::*;

use std::time::SystemTime;

use crate::login::{is_hex_digest, sha256_hex, sha256sum};
use crate::signup::Signup;

verus! {

#[verifier::external_type_specification]
#[verifier::external_body]
pub struct ExSystemTime(SystemTime);

/// Reads the system clock with `std::time::SystemTime::now`. Trusted to return;
/// nothing is stated of the time it gives.
#[verifier::external_body]
fn system_now() -> SystemTime {
    SystemTime::now()
}

/// A registered user, as the `users` table holds it.
#[derive(Debug)]
pub struct User {
    pub id: Option<i32>,
    pub username: String,
    pub password: String,
    pub email: String,
    pub joined: SystemTime,
    pub role: String,
}

/// An order, as the `orders` table holds it.
#[derive(Debug)]
pub struct Order {
    pub id: Option<i32>,
    pub user_id: i32,
    pub products_id: String,
    pub ship_address: String,
    pub payed_at: SystemTime,
    pub recieved_at: SystemTime,
}

impl User {
    /// The user that a valid sign-up creates when the clock reads `joined`: no
    /// id yet (the database gives one), the chosen name and e-mail address, the
    /// digest of the chosen password in place of the password, with no role.
    pub fn joined_at(signup: &Signup, joined: SystemTime) -> (r: User)
        ensures
            r.id is None,
            r.username@ == signup.username@,
            r.password@ == sha256_hex(signup.password.first@),
            is_hex_digest(r.password@),
            r.email@ == signup.email@,
            r.joined == joined,
            r.role@ == Seq::<char>::empty(),
    {
        User {
            id: None,
            username: crate::text::owned(signup.username),
            password: sha256sum(crate::text::owned(signup.password.first)),
            email: crate::text::owned(signup.email),
            joined,
            role: String::new(),
        }
    }

    /// The user that a valid sign-up creates, joined at the time the system
    /// clock reads now; see `joined_at`.
    pub fn new(signup: &Signup) -> (r: User)
        ensures
            r.id is None,
            r.username@ == signup.username@,
            r.password@ == sha256_hex(signup.password.first@),
            is_hex_digest(r.password@),
            r.email@ == signup.email@,
            r.role@ == Seq::<char>::empty(),
    {
        let now = system_now();
        User::joined_at(signup, now)
    }
}

} // verus!

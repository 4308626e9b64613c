use vstd::prelude::*;

verus! {

/// A row of the `salts` table: the deployment-wide salt component.
pub struct Salt {
    pub id: i32,
    pub salt: String,
}

/// A row of the `users` table: an organizer and the hexadecimal credential
/// derived from their password.
pub struct User {
    pub id: i32,
    pub email: String,
    pub password: String,
}

/// An organizer account ready to be inserted: the e-mail address and the
/// credential, never the plaintext password.
pub struct NewUser {
    pub email: String,
    pub password: String,
}

} // verus!

//! Issuance of organizer credentials: a deployment-wide salt component, a full
//! salt made of that component and the account's e-mail address, and a
//! PBKDF2-HMAC-SHA256 credential rendered as upper-case hexadecimal.

pub mod deriver;
pub mod error;
pub mod hex;
pub mod model;
pub mod salt_manager;
